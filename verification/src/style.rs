//! The style options of a `Ui` that its decisions read.

use crate::layout::TextWrapMode;
use crate::painter::Color32;
use vstd::prelude::*;

verus! {

/// Options for debugging the layout.
#[derive(Clone, Copy, Debug, PartialEq, Eq, Structural)]
pub struct DebugOptions {
    /// Show which widget is under the pointer.
    pub debug_on_hover: bool,
    /// The same, but only while all modifier keys are held.
    pub debug_on_hover_with_all_modifiers: bool,
    /// Also show where the next widget goes.
    pub hover_shows_next: bool,
}

/// Style options of a `Ui` and its children.
#[derive(Clone, Copy, Debug, PartialEq, Eq, Structural)]
pub struct Style {
    /// How text is wrapped; overrides everything else when set.
    pub wrap_mode: Option<TextWrapMode>,
    /// Whether text is wrapped (older option, used when `wrap_mode` is not set).
    pub wrap: Option<bool>,
    /// The color that the widgets of a disabled `Ui` fade towards.
    pub fade_out_to_color: Color32,
    pub debug: DebugOptions,
}

impl Style {
    /// The color that disabled widgets fade towards.
    pub fn fade_out_to_color(&self) -> (c: Color32)
        ensures
            c == self.fade_out_to_color,
    {
        self.fade_out_to_color
    }
}

} // verus!
