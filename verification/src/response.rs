//! What a `Ui` registers for interaction, and what comes back.

use crate::id::Id;
use crate::painter::LayerId;
use vstd::prelude::*;

verus! {

/// Which interactions a widget listens for.
#[derive(Clone, Copy, Debug, PartialEq, Eq, Structural)]
pub struct Sense {
    pub click: bool,
    pub drag: bool,
    pub focusable: bool,
}

impl Sense {
    /// Only hovering; no clicks or drags.
    pub open spec fn spec_hover() -> Sense {
        Sense { click: false, drag: false, focusable: false }
    }

    pub fn hover() -> (s: Sense)
        ensures
            s == Sense::spec_hover(),
    {
        Sense { click: false, drag: false, focusable: false }
    }

    pub fn click() -> (s: Sense)
        ensures
            s == (Sense { click: true, drag: false, focusable: true }),
    {
        Sense { click: true, drag: false, focusable: true }
    }

    pub open spec fn spec_drag() -> Sense {
        Sense { click: false, drag: true, focusable: true }
    }

    pub fn drag() -> (s: Sense)
        ensures
            s == Sense::spec_drag(),
    {
        Sense { click: false, drag: true, focusable: true }
    }
}

/// A widget as a `Ui` registers it for interaction: its identity, the
/// layer it is on, what it senses, and whether it is enabled.
#[derive(Clone, Copy, Debug, PartialEq, Eq)]
pub struct WidgetRect {
    pub id: Id,
    pub layer_id: LayerId,
    pub sense: Sense,
    pub enabled: bool,
}

/// The outcome of interacting with a widget, as far as the logic of a
/// `Ui` reads and changes it.
#[derive(Clone, Copy, Debug, PartialEq, Eq)]
pub struct Response {
    pub id: Id,
    pub enabled: bool,
    pub clicked: bool,
    pub changed: bool,
}

impl Response {
    pub fn clicked(&self) -> (c: bool)
        ensures
            c == self.clicked,
    {
        self.clicked
    }

    /// Mark the value of this widget as changed.
    pub fn mark_changed(&mut self)
        ensures
            *final(self) == (Response { changed: true, ..*old(self) }),
    {
        self.changed = true;
    }
}

/// What a scope or a child `Ui` hands back: what the contents returned,
/// the widget that the space they took was registered as, and the widget
/// that the child registered for its background when it was created.
pub struct InnerResponse<R> {
    pub inner: R,
    pub response: WidgetRect,
    pub child_widget: WidgetRect,
}

} // verus!
