//! The `Ui`: the state from which widgets are placed, and the operations
//! that create children, allocate automatic identities, and enable,
//! disable, show and hide what is added.

use crate::id::{Id, IdSource};
use crate::layout::{Align, Direction, Layout, TextWrapMode};
use crate::painter::{Color32, LayerId, Order, Painter};
use crate::response::{InnerResponse, Response, Sense, WidgetRect};
use crate::stack::{UiStackFrame, UiStackInfo};
use crate::style::{DebugOptions, Style};
use vstd::prelude::*;
use vstd::std_specs::cmp::PartialEqSpec;

verus! {

/// The number of distinct values of the automatic identity counter.
pub open spec fn counter_modulus() -> int {
    0x1_0000_0000_0000_0000
}

/// The automatic identity counter `c` after `n` further allocations; the
/// counter wraps around.
pub open spec fn counter_plus(c: u64, n: nat) -> u64 {
    ((c + n) % counter_modulus()) as u64
}

/// The grid that a `Ui` is placing widgets in, as far as its text
/// wrapping is concerned.
#[derive(Clone, Copy, Debug, PartialEq, Eq, Structural)]
pub struct GridLayout {
    /// Whether the cells of the grid have a bounded width, so text wraps.
    pub wrap_text: bool,
}

/// A handle to the shared state of the menu that a `Ui` belongs to.
#[derive(Clone, Copy, Debug, PartialEq, Eq, Structural)]
pub struct MenuStateId(pub u64);

/// The stack info that is recorded when none is given.
pub open spec fn info_or_default(info: Option<UiStackInfo>) -> UiStackInfo {
    match info {
        Some(i) => i,
        None => UiStackInfo { kind: None },
    }
}

/// The state of a `Ui`.
pub struct UiModel {
    pub id: Id,
    /// The source of the identity of the next automatically identified widget.
    pub next_auto_id_source: u64,
    pub painter: Painter,
    pub style: Style,
    pub layout: Layout,
    pub grid: Option<GridLayout>,
    pub enabled: bool,
    pub sizing_pass: bool,
    pub menu_state: Option<MenuStateId>,
    /// The identities, directions and info of this `Ui` and its ancestors,
    /// from the root to this one.
    pub stack: Seq<UiStackFrame>,
}

impl UiModel {
    pub open spec fn is_visible(self) -> bool {
        self.painter.spec_is_visible()
    }

    /// The identity the next automatically identified widget gets.
    pub open spec fn next_auto_id(self) -> Id {
        Id::spec_new_u64(self.next_auto_id_source)
    }

    /// The state after `n` automatic identities have been used up.
    pub open spec fn skipped(self, n: nat) -> UiModel {
        UiModel { next_auto_id_source: counter_plus(self.next_auto_id_source, n), ..self }
    }

    /// The state after one automatic identity has been used up.
    pub open spec fn allocated(self) -> UiModel {
        self.skipped(1)
    }

    /// The state after `disable`: not enabled, and, if it was visible,
    /// fading towards the style's fade-out color.
    pub open spec fn disabled(self) -> UiModel {
        UiModel {
            enabled: false,
            painter: if self.is_visible() {
                Painter { fade_to_color: Some(self.style.fade_out_to_color), ..self.painter }
            } else {
                self.painter
            },
            ..self
        }
    }

    /// The state after `set_invisible`: faded to transparency, then disabled.
    pub open spec fn made_invisible(self) -> UiModel {
        UiModel {
            painter: Painter { fade_to_color: Some(Color32::spec_transparent()), ..self.painter },
            ..self
        }.disabled()
    }

    /// The state after `set_enabled(enabled)`.
    pub open spec fn enabled_if(self, enabled: bool) -> UiModel {
        if enabled {
            self
        } else {
            self.disabled()
        }
    }

    /// The state after `set_visible(visible)`.
    pub open spec fn visible_if(self, visible: bool) -> UiModel {
        if visible {
            self
        } else {
            self.made_invisible()
        }
    }

    /// The state after its painter is redirected to `layer_id`.
    pub open spec fn on_layer(self, layer_id: LayerId) -> UiModel {
        UiModel { painter: Painter { layer_id, ..self.painter }, ..self }
    }

    /// The layout a child gets from a requested layout: during a sizing
    /// pass nothing is justified across, and centering across becomes
    /// aligning to the start.
    pub open spec fn child_layout(self, layout: Layout) -> Layout {
        if self.sizing_pass {
            Layout {
                cross_justify: false,
                cross_align: if layout.cross_align == Align::Center {
                    Align::Min
                } else {
                    layout.cross_align
                },
                ..layout
            }
        } else {
            layout
        }
    }

    /// The state of a child with identity `id` created from this state.
    pub open spec fn child_with_id(self, layout: Layout, id: Id, info: Option<UiStackInfo>) -> UiModel {
        let layout = self.child_layout(layout);
        UiModel {
            id,
            next_auto_id_source: self.next_auto_id().spec_with_str("child"@).spec_value(),
            painter: self.painter,
            style: self.style,
            layout,
            grid: None,
            enabled: self.enabled,
            sizing_pass: self.sizing_pass,
            menu_state: self.menu_state,
            stack: self.stack.push(
                UiStackFrame { id, layout_direction: layout.main_dir, info: info_or_default(info) },
            ),
        }
    }

    /// The identity a scope's child is derived from.
    pub open spec fn scope_id(self, id_source: Id) -> Id {
        self.id.spec_with_u64(id_source.spec_value())
    }

    /// The state of the child that a scope derived from `id_source` hands
    /// its contents.
    pub open spec fn scope_child_of(self, id_source: Id, info: Option<UiStackInfo>) -> UiModel {
        self.child_with_id(self.layout, self.scope_id(id_source), info)
    }

    /// The state of the child that `scope` hands its contents.
    pub open spec fn scope_child(self) -> UiModel {
        self.scope_child_of(Id::spec_new_str("child"@), None)
    }

    /// The state of the child that `child_ui` creates with `layout`.
    pub open spec fn plain_child(self, layout: Layout) -> UiModel {
        self.child_with_id(layout, self.id.spec_with_str("child"@), None)
    }

    /// The widget a `Ui` in this state registers for its own background as
    /// soon as it is created, so that it lies behind all its widgets.
    pub open spec fn registration(self) -> WidgetRect {
        self.widget_rect(self.id, Sense::spec_hover())
    }

    /// The widget that this state registers for `id` and `sense`.
    pub open spec fn widget_rect(self, id: Id, sense: Sense) -> WidgetRect {
        WidgetRect { id, layer_id: self.painter.layer_id, sense, enabled: self.enabled }
    }

    /// How text wraps: by the style's wrap mode if set, else by its wrap
    /// flag, else by the grid, else by the layout (vertical layouts, and
    /// horizontal ones that wrap, wrap their text).
    pub open spec fn wrap_mode(self) -> TextWrapMode {
        if self.style.wrap_mode is Some {
            self.style.wrap_mode->0
        } else if self.style.wrap is Some {
            if self.style.wrap->0 {
                TextWrapMode::Wrap
            } else {
                TextWrapMode::Extend
            }
        } else if self.grid is Some {
            if self.grid->0.wrap_text {
                TextWrapMode::Wrap
            } else {
                TextWrapMode::Extend
            }
        } else if self.layout.main_dir.spec_is_vertical() || (self.layout.main_dir.spec_is_horizontal()
            && self.layout.main_wrap) {
            TextWrapMode::Wrap
        } else {
            TextWrapMode::Extend
        }
    }

    /// The layout of `horizontal` and its variants: left to right, or right
    /// to left where this `Ui` prefers that, centered vertically.
    pub open spec fn horizontal_layout(self) -> Layout {
        if self.layout.spec_prefer_right_to_left() {
            Layout::spec_from_main_dir_and_cross_align(Direction::RightToLeft, Align::Center)
        } else {
            Layout::spec_from_main_dir_and_cross_align(Direction::LeftToRight, Align::Center)
        }
    }
}

/// The state that `add_enabled(enabled, ..)` leaves a `Ui` in that was in
/// state `ui`, when the widget handed back a `Ui` in state `after`: the
/// enabled flag and painter are restored where the widget was disabled
/// just for itself.
pub open spec fn add_enabled_outcome(ui: UiModel, enabled: bool, after: UiModel) -> UiModel {
    if ui.enabled && !enabled {
        UiModel { enabled: true, painter: ui.painter, ..after }
    } else {
        after
    }
}

/// The state that `add_enabled(enabled, ..)` hands the widget.
pub open spec fn add_enabled_input(ui: UiModel, enabled: bool) -> UiModel {
    if ui.enabled && !enabled {
        ui.disabled()
    } else {
        ui
    }
}

/// The state that `add_visible(visible, ..)` leaves a `Ui` in that was in
/// state `ui`, when the widget handed back a `Ui` in state `after`.
pub open spec fn add_visible_outcome(ui: UiModel, visible: bool, after: UiModel) -> UiModel {
    if ui.is_visible() && !visible {
        UiModel { enabled: ui.enabled, painter: ui.painter, ..after }
    } else {
        after
    }
}

/// The state that `add_visible(visible, ..)` hands the widget.
pub open spec fn add_visible_input(ui: UiModel, visible: bool) -> UiModel {
    if ui.is_visible() && !visible {
        ui.made_invisible()
    } else {
        ui
    }
}

/// `f`, called with a `Ui` in state `state` and the flag `checked`, handed
/// back a `Ui` in state `after` and the widget's response `response`.
pub open spec fn shown_with<F: FnOnce(Ui, bool) -> (Ui, Response)>(
    f: F,
    state: UiModel,
    checked: bool,
    after: UiModel,
    response: Response,
) -> bool {
    exists|input: Ui, output: (Ui, Response)|
        #![trigger call_ensures(f, (input, checked), output)]
        input@ == state && call_ensures(f, (input, checked), output) && output.0@ == after && output.1
            == response
}

/// The state of a `Ui` created by `Ui::new`.
pub open spec fn new_ui_model(style: Style, layer_id: LayerId, id: Id, info: UiStackInfo) -> UiModel {
    UiModel {
        id,
        next_auto_id_source: id.spec_with_str("auto"@).spec_value(),
        painter: Painter { layer_id, fade_to_color: None },
        style,
        layout: Layout::spec_default(),
        grid: None,
        enabled: true,
        sizing_pass: false,
        menu_state: None,
        stack: seq![UiStackFrame { id, layout_direction: Direction::TopDown, info }],
    }
}

/// `f`, called with a `Ui` in state `state`, handed back a `Ui` in state
/// `after` and the value `inner`.
pub open spec fn ran_on<R, F: FnOnce(Ui) -> (Ui, R)>(f: F, state: UiModel, after: UiModel, inner: R) -> bool {
    exists|input: Ui, output: (Ui, R)|
        #![trigger call_ensures(f, (input,), output)]
        input@ == state && call_ensures(f, (input,), output) && output.0@ == after && output.1 == inner
}

/// This is what you use to place widgets: a region of the screen with a
/// layout, an identity, a style, and the state of what is added to it.
pub struct Ui {
    id: Id,
    next_auto_id_source: u64,
    painter: Painter,
    style: Style,
    layout: Layout,
    grid: Option<GridLayout>,
    enabled: bool,
    sizing_pass: bool,
    menu_state: Option<MenuStateId>,
    stack: Vec<UiStackFrame>,
}

impl View for Ui {
    type V = UiModel;

    closed spec fn view(&self) -> UiModel {
        UiModel {
            id: self.id,
            next_auto_id_source: self.next_auto_id_source,
            painter: self.painter,
            style: self.style,
            layout: self.layout,
            grid: self.grid,
            enabled: self.enabled,
            sizing_pass: self.sizing_pass,
            menu_state: self.menu_state,
            stack: self.stack@,
        }
    }
}

proof fn lemma_wrapping_add(c: u64, n: u64)
    ensures
        c.wrapping_add(n) == counter_plus(c, n as nat),
{
}

impl Ui {
    /// Create a new `Ui` with the given style, paint layer, identity and
    /// stack info; it is enabled, visible, top-down and at the root of its
    /// stack. Also returns the widget that the new `Ui` registers for its
    /// background right away, so that the background lies behind all the
    /// widgets it contains (`interact_bg` later updates that widget).
    pub fn new(style: Style, layer_id: LayerId, id: Id, ui_stack_info: UiStackInfo) -> (ui: (Ui, WidgetRect))
        ensures
            ui.0@ == new_ui_model(style, layer_id, id, ui_stack_info),
            ui.1 == ui.0@.registration(),
    {
        let layout = Layout::default();
        let mut stack: Vec<UiStackFrame> = Vec::new();
        stack.push(UiStackFrame { id, layout_direction: layout.main_dir, info: ui_stack_info });
        let ui = Ui {
            id,
            next_auto_id_source: id.with_str("auto").value(),
            painter: Painter::new(layer_id),
            style,
            layout,
            grid: None,
            enabled: true,
            sizing_pass: false,
            menu_state: None,
            stack,
        };
        assert(ui@.stack =~= seq![UiStackFrame { id, layout_direction: Direction::TopDown, info: ui_stack_info }]);
        let registration = ui.interact_bg(Sense::hover());
        (ui, registration)
    }

    /// Create a child with identity `new_id`, using up one automatic identity.
    fn make_child(&mut self, layout: Layout, new_id: Id, ui_stack_info: Option<UiStackInfo>) -> (child: (
        Ui,
        WidgetRect,
    ))
        ensures
            child.0@ == old(self)@.child_with_id(layout, new_id, ui_stack_info),
            child.1 == child.0@.registration(),
            final(self)@ == old(self)@.allocated(),
    {
        let mut layout = layout;
        if self.sizing_pass {
            // During the sizing pass widgets use up as little space as possible.
            layout.cross_justify = false;
            if layout.cross_align == Align::Center {
                layout.cross_align = Align::Min;
            }
        }
        let next_auto_id_source = Id::new_u64(self.next_auto_id_source).with_str("child").value();
        proof {
            lemma_wrapping_add(self.next_auto_id_source, 1);
        }
        self.next_auto_id_source = self.next_auto_id_source.wrapping_add(1);
        let info = match ui_stack_info {
            Some(i) => i,
            None => UiStackInfo::default(),
        };
        let mut stack = self.stack.clone();
        stack.push(UiStackFrame { id: new_id, layout_direction: layout.main_dir, info });
        let child = Ui {
            id: new_id,
            next_auto_id_source,
            painter: self.painter,
            style: self.style,
            layout,
            grid: None,
            enabled: self.enabled,
            sizing_pass: self.sizing_pass,
            menu_state: self.menu_state,
            stack,
        };
        assert(child@.stack =~= old(self)@.stack.push(
            UiStackFrame { id: new_id, layout_direction: layout.main_dir, info: info_or_default(ui_stack_info) },
        ));
        // Registered early, so that its background lies behind all its widgets.
        let registration = child.interact_bg(Sense::hover());
        (child, registration)
    }
}


impl Ui {
    /// Create a child `Ui` with the given layout; its identity is derived
    /// from this one's and the text `"child"`, so two children created this
    /// way from the same `Ui` have the same identity.
    ///
    /// Also returns the widget that the child registers for its background
    /// as soon as it is created.
    pub fn child_ui(&mut self, layout: Layout, ui_stack_info: Option<UiStackInfo>) -> (child: (Ui, WidgetRect))
        ensures
            child.0@ == old(self)@.child_with_id(layout, old(self)@.id.spec_with_str("child"@), ui_stack_info),
            child.1 == child.0@.registration(),
            final(self)@ == old(self)@.allocated(),
    {
        let new_id = self.id.with_str("child");
        self.make_child(layout, new_id, ui_stack_info)
    }

    /// Create a child `Ui` whose identity is derived from this one's and
    /// `id_source`.
    ///
    /// The child inherits the style, painter, enabled state, sizing pass and
    /// menu of this `Ui`, starts without a grid, and is pushed onto the stack.
    /// This uses up one automatic identity of this `Ui`. Also returns the
    /// widget that the child registers for its background as soon as it is
    /// created, so that the background lies behind all its widgets.
    pub fn child_ui_with_id_source(
        &mut self,
        layout: Layout,
        id_source: &IdSource,
        ui_stack_info: Option<UiStackInfo>,
    ) -> (child: (Ui, WidgetRect))
        ensures
            child.0@ == old(self)@.child_with_id(layout, old(self)@.id.spec_with(*id_source), ui_stack_info),
            child.1 == child.0@.registration(),
            final(self)@ == old(self)@.allocated(),
    {
        let new_id = self.id.with(id_source);
        self.make_child(layout, new_id, ui_stack_info)
    }

    /// Turn on the sizing pass, in which the contents are sized up without
    /// being shown; this also makes the `Ui` invisible.
    pub fn set_sizing_pass(&mut self)
        ensures
            final(self)@ == (UiModel { sizing_pass: true, ..old(self)@ }).made_invisible(),
    {
        self.sizing_pass = true;
        self.set_invisible();
    }

    pub fn is_sizing_pass(&self) -> (b: bool)
        ensures
            b == self@.sizing_pass,
    {
        self.sizing_pass
    }

    /// The identity of this `Ui`.
    pub fn id(&self) -> (id: Id)
        ensures
            id == self@.id,
    {
        self.id
    }

    pub fn style(&self) -> (s: &Style)
        ensures
            *s == self@.style,
    {
        &self.style
    }

    /// Borrow the style mutably; changes apply to this `Ui` and the
    /// children it creates afterwards.
    pub fn style_mut(&mut self) -> (s: &mut Style)
        ensures
            *s == old(self)@.style,
            final(self)@ == (UiModel { style: *final(s), ..old(self)@ }),
    {
        &mut self.style
    }

    pub fn set_style(&mut self, style: Style)
        ensures
            final(self)@ == (UiModel { style, ..old(self)@ }),
    {
        self.style = style;
    }

    /// Go back to the style of the context, `context_style`.
    pub fn reset_style(&mut self, context_style: Style)
        ensures
            final(self)@ == (UiModel { style: context_style, ..old(self)@ }),
    {
        self.style = context_style;
    }

    /// The stack of this `Ui` and its ancestors, from the root.
    pub fn stack(&self) -> (s: &Vec<UiStackFrame>)
        ensures
            s@ == self@.stack,
    {
        &self.stack
    }

    pub fn painter(&self) -> (p: &Painter)
        ensures
            *p == self@.painter,
    {
        &self.painter
    }

    /// If `false`, the widgets of this `Ui` allow no interaction and look gray.
    pub fn is_enabled(&self) -> (b: bool)
        ensures
            b == self@.enabled,
    {
        self.enabled
    }

    /// Deny all further interaction; widgets look gray. There is no way to
    /// enable the `Ui` again.
    pub fn disable(&mut self)
        ensures
            final(self)@ == old(self)@.disabled(),
    {
        self.enabled = false;
        if self.is_visible() {
            let fade = self.style.fade_out_to_color();
            self.painter.set_fade_to_color(Some(fade));
        }
    }

    /// `set_enabled(false)` disables the `Ui`; `set_enabled(true)` does
    /// nothing.
    pub fn set_enabled(&mut self, enabled: bool)
        ensures
            final(self)@ == old(self)@.enabled_if(enabled),
    {
        if !enabled {
            self.disable();
        }
    }

    /// If `false`, widgets added to this `Ui` are invisible and not
    /// interactive.
    pub fn is_visible(&self) -> (b: bool)
        ensures
            b == self@.is_visible(),
    {
        self.painter.is_visible()
    }

    /// Make all further widgets invisible (they still take up space) and
    /// disable the `Ui`. There is no way to make it visible again.
    pub fn set_invisible(&mut self)
        ensures
            final(self)@ == old(self)@.made_invisible(),
    {
        self.painter.set_invisible();
        self.disable();
    }

    /// `set_visible(false)` makes the `Ui` invisible; `set_visible(true)`
    /// does nothing.
    pub fn set_visible(&mut self, visible: bool)
        ensures
            final(self)@ == old(self)@.visible_if(visible),
    {
        if !visible {
            self.painter.set_invisible();
            self.disable();
        }
    }

    pub fn layout(&self) -> (l: &Layout)
        ensures
            *l == self@.layout,
    {
        &self.layout
    }

    /// How text wraps in this `Ui`: first by the style, then by the grid,
    /// then by the layout.
    pub fn wrap_mode(&self) -> (m: TextWrapMode)
        ensures
            m == self@.wrap_mode(),
    {
        if let Some(wrap_mode) = self.style.wrap_mode {
            wrap_mode
        } else if let Some(wrap) = self.style.wrap {
            if wrap {
                TextWrapMode::Wrap
            } else {
                TextWrapMode::Extend
            }
        } else if let Some(grid) = self.grid {
            if grid.wrap_text {
                TextWrapMode::Wrap
            } else {
                TextWrapMode::Extend
            }
        } else {
            let layout = &self.layout;
            if layout.is_vertical() || layout.is_horizontal() && layout.main_wrap() {
                TextWrapMode::Wrap
            } else {
                TextWrapMode::Extend
            }
        }
    }

    /// Whether text wraps in this `Ui`.
    pub fn wrap_text(&self) -> (b: bool)
        ensures
            b == (self@.wrap_mode() == TextWrapMode::Wrap),
    {
        match self.wrap_mode() {
            TextWrapMode::Wrap => true,
            _ => false,
        }
    }

    /// The paint layer of this `Ui`.
    pub fn layer_id(&self) -> (l: LayerId)
        ensures
            l == self@.painter.layer_id,
    {
        self.painter.layer_id()
    }

    /// An identity for widgets that keep state between frames.
    pub fn make_persistent_id(&self, id_source: &IdSource) -> (id: Id)
        ensures
            id == self@.id.spec_with(*id_source),
    {
        self.id.with(id_source)
    }

    /// The identity that the next widget added to this `Ui` gets.
    pub fn next_auto_id(&self) -> (id: Id)
        ensures
            id == self@.next_auto_id(),
    {
        Id::new_u64(self.next_auto_id_source)
    }

    /// The same as `next_auto_id().with(id_source)`.
    pub fn auto_id_with(&self, id_source: &IdSource) -> (id: Id)
        ensures
            id == self@.next_auto_id().spec_with(*id_source),
    {
        Id::new_u64(self.next_auto_id_source).with(id_source)
    }

    /// Pretend that `count` widgets have been added.
    pub fn skip_ahead_auto_ids(&mut self, count: usize)
        ensures
            final(self)@ == old(self)@.skipped(count as nat),
    {
        proof {
            lemma_wrapping_add(self.next_auto_id_source, count as u64);
        }
        self.next_auto_id_source = self.next_auto_id_source.wrapping_add(count as u64);
    }
}


impl Ui {
    /// Register a widget with identity `id` for the interactions in `sense`.
    pub fn interact(&self, id: Id, sense: Sense) -> (w: WidgetRect)
        ensures
            w == self@.widget_rect(id, sense),
    {
        WidgetRect { id, layer_id: self.painter.layer_id(), sense, enabled: self.enabled }
    }

    /// The same as `interact`; whether the pointer is over the widget
    /// (`_contains_pointer`) is not used.
    pub fn interact_with_hovered(&self, _contains_pointer: bool, id: Id, sense: Sense) -> (w: WidgetRect)
        ensures
            w == self@.widget_rect(id, sense),
    {
        self.interact(id, sense)
    }

    /// Add a widget to this `Ui`: the widget places itself with this `Ui`
    /// and hands it back.
    pub fn add<R, F: FnOnce(Ui) -> (Ui, R)>(&mut self, widget: F) -> (r: R)
        requires
            forall|u: Ui| call_requires(widget, (u,)),
        ensures
            ran_on(widget, old(self)@, final(self)@, r),
    {
        self.run_on_self(widget)
    }

    /// Register the background of this `Ui`, behind all its widgets.
    pub fn interact_bg(&self, sense: Sense) -> (w: WidgetRect)
        ensures
            w == self@.widget_rect(self@.id, sense),
    {
        self.interact(self.id, sense)
    }

    /// Reserve space for a widget; returns its automatic identity.
    pub fn allocate_space(&mut self) -> (id: Id)
        ensures
            id == old(self)@.next_auto_id(),
            final(self)@ == old(self)@.allocated(),
    {
        self.advance_cursor_after_rect()
    }

    /// Move past a widget without interacting with it; returns its
    /// automatic identity.
    pub fn advance_cursor_after_rect(&mut self) -> (id: Id)
        ensures
            id == old(self)@.next_auto_id(),
            final(self)@ == old(self)@.allocated(),
    {
        let id = Id::new_u64(self.next_auto_id_source);
        proof {
            lemma_wrapping_add(self.next_auto_id_source, 1);
        }
        self.next_auto_id_source = self.next_auto_id_source.wrapping_add(1);
        id
    }

    /// Reserve space for a widget and register it for `sense`.
    pub fn allocate_response(&mut self, sense: Sense) -> (w: WidgetRect)
        ensures
            w == old(self)@.widget_rect(old(self)@.next_auto_id(), sense),
            final(self)@ == old(self)@.allocated(),
    {
        let id = self.allocate_space();
        self.interact(id, sense)
    }

    /// Put a widget at a specific place and register it for `sense`.
    pub fn allocate_rect(&mut self, sense: Sense) -> (w: WidgetRect)
        ensures
            w == old(self)@.widget_rect(old(self)@.next_auto_id(), sense),
            final(self)@ == old(self)@.allocated(),
    {
        let id = self.advance_cursor_after_rect();
        self.interact(id, sense)
    }

    /// Hand this `Ui` to `f`, and take back the `Ui` it returns.
    fn run_on_self<R, F: FnOnce(Ui) -> (Ui, R)>(&mut self, f: F) -> (r: R)
        requires
            forall|u: Ui| call_requires(f, (u,)),
        ensures
            ran_on(f, old(self)@, final(self)@, r),
    {
        let mut taken = Ui {
            id: self.id,
            next_auto_id_source: 0,
            painter: self.painter,
            style: self.style,
            layout: self.layout,
            grid: None,
            enabled: false,
            sizing_pass: false,
            menu_state: None,
            stack: Vec::new(),
        };
        std::mem::swap(self, &mut taken);
        let ghost input = taken;
        let (ui, r) = f(taken);
        *self = ui;
        assert(call_ensures(f, (input,), (ui, r)));
        r
    }

    /// Create the child of a scope derived from `id_source`, leaving this
    /// `Ui` as it is.
    fn begin_scope(&mut self, id_source: Id, ui_stack_info: Option<UiStackInfo>) -> (child: (Ui, WidgetRect))
        ensures
            child.0@ == old(self)@.scope_child_of(id_source, ui_stack_info),
            child.1 == child.0@.registration(),
            final(self)@ == old(self)@,
    {
        let next_auto_id_source = self.next_auto_id_source;
        let layout = self.layout;
        let new_id = self.id.with_u64(id_source.value());
        let child = self.make_child(layout, new_id, ui_stack_info);
        // A scope uses up only one automatic identity, like `allocate_space`.
        self.next_auto_id_source = next_auto_id_source;
        child
    }

    /// Hand `child` to `f`, then allocate the space it took in this `Ui`.
    fn finish_scope<R, F: FnOnce(Ui) -> (Ui, R)>(
        &mut self,
        child: Ui,
        child_widget: WidgetRect,
        f: F,
    ) -> (res: InnerResponse<R>)
        requires
            forall|u: Ui| call_requires(f, (u,)),
        ensures
            res.child_widget == child_widget,
            exists|after: UiModel| #[trigger] ran_on(f, child@, after, res.inner),
            res.response == old(self)@.widget_rect(old(self)@.next_auto_id(), Sense::spec_hover()),
            final(self)@ == old(self)@.allocated(),
    {
        let ghost input = child;
        let (returned, inner) = f(child);
        assert(call_ensures(f, (input,), (returned, inner)));
        assert(ran_on(f, input@, returned@, inner));
        let response = self.allocate_rect(Sense::hover());
        let res = InnerResponse { inner, response, child_widget };
        assert(ran_on(f, input@, returned@, res.inner));
        res
    }

    /// Create a scoped child `Ui` and add contents to it; this uses up one
    /// automatic identity, just like `allocate_space`.
    pub fn scope<R, F: FnOnce(Ui) -> (Ui, R)>(&mut self, add_contents: F) -> (res: InnerResponse<R>)
        requires
            forall|u: Ui| call_requires(add_contents, (u,)),
        ensures
            exists|after: UiModel| #[trigger] ran_on(add_contents, old(self)@.scope_child(), after, res.inner),
            res.response == old(self)@.widget_rect(old(self)@.next_auto_id(), Sense::spec_hover()),
            res.child_widget == old(self)@.scope_child().registration(),
            final(self)@ == old(self)@.allocated(),
    {
        let id_source = Id::new_str("child");
        let (child, child_widget) = self.begin_scope(id_source, None);
        self.finish_scope(child, child_widget, add_contents)
    }

    /// A scope whose child has an identity derived from `id_source`.
    pub fn push_id<R, F: FnOnce(Ui) -> (Ui, R)>(&mut self, id_source: &IdSource, add_contents: F) -> (res:
        InnerResponse<R>)
        requires
            forall|u: Ui| call_requires(add_contents, (u,)),
        ensures
            exists|after: UiModel|
                #[trigger] ran_on(
                    add_contents,
                    old(self)@.scope_child_of(Id::spec_new(*id_source), None),
                    after,
                    res.inner,
                ),
            res.response == old(self)@.widget_rect(old(self)@.next_auto_id(), Sense::spec_hover()),
            res.child_widget == old(self)@.scope_child_of(Id::spec_new(*id_source), None).registration(),
            final(self)@ == old(self)@.allocated(),
    {
        let source = Id::new(id_source);
        let (child, child_widget) = self.begin_scope(source, None);
        self.finish_scope(child, child_widget, add_contents)
    }

    /// A scope that pushes `ui_stack_info` onto the stack.
    pub fn push_stack_info<R, F: FnOnce(Ui) -> (Ui, R)>(
        &mut self,
        ui_stack_info: UiStackInfo,
        add_contents: F,
    ) -> (res: InnerResponse<R>)
        requires
            forall|u: Ui| call_requires(add_contents, (u,)),
        ensures
            exists|after: UiModel|
                #[trigger] ran_on(
                    add_contents,
                    old(self)@.scope_child_of(Id::spec_new_str("child"@), Some(ui_stack_info)),
                    after,
                    res.inner,
                ),
            res.response == old(self)@.widget_rect(old(self)@.next_auto_id(), Sense::spec_hover()),
            res.child_widget == old(self)@.scope_child_of(Id::spec_new_str("child"@), Some(ui_stack_info)).registration(),
            final(self)@ == old(self)@.allocated(),
    {
        let id_source = Id::new_str("child");
        let (child, child_widget) = self.begin_scope(id_source, Some(ui_stack_info));
        self.finish_scope(child, child_widget, add_contents)
    }

    /// A scope whose contents are disabled unless `enabled`; within a
    /// disabled `Ui` they are always disabled.
    pub fn add_enabled_ui<R, F: FnOnce(Ui) -> (Ui, R)>(&mut self, enabled: bool, add_contents: F) -> (res:
        InnerResponse<R>)
        requires
            forall|u: Ui| call_requires(add_contents, (u,)),
        ensures
            exists|after: UiModel|
                #[trigger] ran_on(
                    add_contents,
                    old(self)@.scope_child().enabled_if(enabled),
                    after,
                    res.inner,
                ),
            res.response == old(self)@.widget_rect(old(self)@.next_auto_id(), Sense::spec_hover()),
            res.child_widget == old(self)@.scope_child().registration(),
            final(self)@ == old(self)@.allocated(),
    {
        let id_source = Id::new_str("child");
        let (mut child, child_widget) = self.begin_scope(id_source, None);
        if !enabled {
            child.disable();
        }
        self.finish_scope(child, child_widget, add_contents)
    }

    /// A scope whose contents are invisible unless `visible`; within an
    /// invisible `Ui` they are always invisible.
    pub fn add_visible_ui<R, F: FnOnce(Ui) -> (Ui, R)>(&mut self, visible: bool, add_contents: F) -> (res:
        InnerResponse<R>)
        requires
            forall|u: Ui| call_requires(add_contents, (u,)),
        ensures
            exists|after: UiModel|
                #[trigger] ran_on(
                    add_contents,
                    old(self)@.scope_child().visible_if(visible),
                    after,
                    res.inner,
                ),
            res.response == old(self)@.widget_rect(old(self)@.next_auto_id(), Sense::spec_hover()),
            res.child_widget == old(self)@.scope_child().registration(),
            final(self)@ == old(self)@.allocated(),
    {
        let id_source = Id::new_str("child");
        let (mut child, child_widget) = self.begin_scope(id_source, None);
        if !visible {
            child.set_invisible();
        }
        self.finish_scope(child, child_widget, add_contents)
    }

    /// A scope whose contents paint to another layer.
    pub fn with_layer_id<R, F: FnOnce(Ui) -> (Ui, R)>(&mut self, layer_id: LayerId, add_contents: F) -> (res:
        InnerResponse<R>)
        requires
            forall|u: Ui| call_requires(add_contents, (u,)),
        ensures
            exists|after: UiModel|
                #[trigger] ran_on(
                    add_contents,
                    old(self)@.scope_child().on_layer(layer_id),
                    after,
                    res.inner,
                ),
            res.response == old(self)@.widget_rect(old(self)@.next_auto_id(), Sense::spec_hover()),
            res.child_widget == old(self)@.scope_child().registration(),
            final(self)@ == old(self)@.allocated(),
    {
        let id_source = Id::new_str("child");
        let (mut child, child_widget) = self.begin_scope(id_source, None);
        child.painter.set_layer_id(layer_id);
        self.finish_scope(child, child_widget, add_contents)
    }
}


impl Ui {
    /// Create a child with `layout`, hand it to `f`, and register the space
    /// it took under the identity of the child that `f` handed back.
    fn allocate_child<R, F: FnOnce(Ui) -> (Ui, R)>(&mut self, layout: Layout, f: F) -> (res: InnerResponse<R>)
        requires
            forall|u: Ui| call_requires(f, (u,)),
        ensures
            exists|after: UiModel|
                #[trigger] ran_on(f, old(self)@.plain_child(layout), after, res.inner)
                    && res.response == old(self)@.widget_rect(after.id, Sense::spec_hover()),
            res.child_widget == old(self)@.plain_child(layout).registration(),
            final(self)@ == old(self)@.allocated(),
    {
        let (child, child_widget) = self.child_ui(layout, None);
        let ghost input = child;
        let (returned, inner) = f(child);
        assert(call_ensures(f, (input,), (returned, inner)));
        let response = self.interact(returned.id, Sense::hover());
        let res = InnerResponse { inner, response, child_widget };
        assert(ran_on(f, input@, returned@, res.inner));
        res
    }

    /// Add contents in a child with the layout of this `Ui`; the space they
    /// take is allocated afterwards.
    pub fn allocate_ui<R, F: FnOnce(Ui) -> (Ui, R)>(&mut self, add_contents: F) -> (res: InnerResponse<R>)
        requires
            forall|u: Ui| call_requires(add_contents, (u,)),
        ensures
            exists|after: UiModel|
                #[trigger] ran_on(add_contents, old(self)@.plain_child(old(self)@.layout), after, res.inner)
                    && res.response == old(self)@.widget_rect(after.id, Sense::spec_hover()),
            res.child_widget == old(self)@.plain_child(old(self)@.layout).registration(),
            final(self)@ == old(self)@.allocated(),
    {
        let layout = self.layout;
        self.allocate_child(layout, add_contents)
    }

    /// Add contents in a child with the given layout; the space they take is
    /// allocated afterwards.
    pub fn allocate_ui_with_layout<R, F: FnOnce(Ui) -> (Ui, R)>(&mut self, layout: Layout, add_contents: F) -> (res:
        InnerResponse<R>)
        requires
            forall|u: Ui| call_requires(add_contents, (u,)),
        ensures
            exists|after: UiModel|
                #[trigger] ran_on(add_contents, old(self)@.plain_child(layout), after, res.inner)
                    && res.response == old(self)@.widget_rect(after.id, Sense::spec_hover()),
            res.child_widget == old(self)@.plain_child(layout).registration(),
            final(self)@ == old(self)@.allocated(),
    {
        self.allocate_child(layout, add_contents)
    }

    /// Add contents in a child placed at a given rectangle, with the layout
    /// of this `Ui`.
    pub fn allocate_ui_at_rect<R, F: FnOnce(Ui) -> (Ui, R)>(&mut self, add_contents: F) -> (res: InnerResponse<R>)
        requires
            forall|u: Ui| call_requires(add_contents, (u,)),
        ensures
            exists|after: UiModel|
                #[trigger] ran_on(add_contents, old(self)@.plain_child(old(self)@.layout), after, res.inner)
                    && res.response == old(self)@.widget_rect(after.id, Sense::spec_hover()),
            res.child_widget == old(self)@.plain_child(old(self)@.layout).registration(),
            final(self)@ == old(self)@.allocated(),
    {
        let layout = self.layout;
        self.allocate_child(layout, add_contents)
    }

    /// Add a widget centered and justified in a child of the given size; the
    /// child keeps the main direction of this `Ui`.
    pub fn add_sized<R, F: FnOnce(Ui) -> (Ui, R)>(&mut self, widget: F) -> (r: R)
        requires
            forall|u: Ui| call_requires(widget, (u,)),
        ensures
            exists|after: UiModel|
                #[trigger] ran_on(
                    widget,
                    old(self)@.plain_child(Layout::spec_centered_and_justified(old(self)@.layout.main_dir)),
                    after,
                    r,
                ),
            final(self)@ == old(self)@.allocated(),
    {
        let layout = Layout::centered_and_justified(self.layout.main_dir());
        let res = self.allocate_child(layout, widget);
        res.inner
    }

    /// Add a widget at a specific place: in a child of this `Ui`, the widget
    /// is centered and justified top-down.
    pub fn put<R, F: FnOnce(Ui) -> (Ui, R)>(&mut self, widget: F) -> (r: R)
        requires
            forall|u: Ui| call_requires(widget, (u,)),
        ensures
            exists|after: UiModel|
                #[trigger] ran_on(
                    widget,
                    old(self)@.plain_child(old(self)@.layout).plain_child(
                        Layout::spec_centered_and_justified(Direction::TopDown),
                    ),
                    after,
                    r,
                ),
            final(self)@ == old(self)@.allocated(),
    {
        let layout = self.layout;
        let (mut outer, _outer_widget) = self.child_ui(layout, None);
        let inner_layout = Layout::centered_and_justified(Direction::TopDown);
        let res = outer.allocate_child(inner_layout, widget);
        let _outer_response = self.interact(outer.id, Sense::hover());
        res.inner
    }

    /// Start a horizontal layout, centered vertically.
    pub fn horizontal<R, F: FnOnce(Ui) -> (Ui, R)>(&mut self, add_contents: F) -> (res: InnerResponse<R>)
        requires
            forall|u: Ui| call_requires(add_contents, (u,)),
        ensures
            exists|after: UiModel|
                #[trigger] ran_on(add_contents, old(self)@.plain_child(old(self)@.horizontal_layout()), after, res.inner)
                    && res.response == old(self)@.widget_rect(after.id, Sense::spec_hover()),
            res.child_widget == old(self)@.plain_child(old(self)@.horizontal_layout()).registration(),
            final(self)@ == old(self)@.allocated(),
    {
        self.horizontal_with_main_wrap(false, add_contents)
    }

    /// Start a horizontal layout that wraps to a new row at the right edge.
    pub fn horizontal_wrapped<R, F: FnOnce(Ui) -> (Ui, R)>(&mut self, add_contents: F) -> (res: InnerResponse<R>)
        requires
            forall|u: Ui| call_requires(add_contents, (u,)),
        ensures
            exists|after: UiModel|
                #[trigger] ran_on(
                    add_contents,
                    old(self)@.plain_child(old(self)@.horizontal_layout().spec_with_main_wrap(true)),
                    after,
                    res.inner,
                ) && res.response == old(self)@.widget_rect(after.id, Sense::spec_hover()),
            res.child_widget == old(self)@.plain_child(old(self)@.horizontal_layout().spec_with_main_wrap(true)).registration(),
            final(self)@ == old(self)@.allocated(),
    {
        self.horizontal_with_main_wrap(true, add_contents)
    }

    fn horizontal_with_main_wrap<R, F: FnOnce(Ui) -> (Ui, R)>(&mut self, main_wrap: bool, add_contents: F) -> (res:
        InnerResponse<R>)
        requires
            forall|u: Ui| call_requires(add_contents, (u,)),
        ensures
            exists|after: UiModel|
                #[trigger] ran_on(
                    add_contents,
                    old(self)@.plain_child(old(self)@.horizontal_layout().spec_with_main_wrap(main_wrap)),
                    after,
                    res.inner,
                ) && res.response == old(self)@.widget_rect(after.id, Sense::spec_hover()),
            res.child_widget == old(self)@.plain_child(old(self)@.horizontal_layout().spec_with_main_wrap(main_wrap))
                .registration(),
            final(self)@ == old(self)@.allocated(),
    {
        let layout = self.horizontal_base_layout().with_main_wrap(main_wrap);
        self.allocate_child(layout, add_contents)
    }

    fn horizontal_base_layout(&self) -> (l: Layout)
        ensures
            l == self@.horizontal_layout(),
    {
        if self.layout.prefer_right_to_left() {
            Layout::right_to_left(Align::Center)
        } else {
            Layout::left_to_right(Align::Center)
        }
    }

    /// A horizontal layout that takes the full available height and centers
    /// its contents vertically.
    pub fn horizontal_centered<R, F: FnOnce(Ui) -> (Ui, R)>(&mut self, add_contents: F) -> (res: InnerResponse<R>)
        requires
            forall|u: Ui| call_requires(add_contents, (u,)),
        ensures
            exists|after: UiModel|
                #[trigger] ran_on(
                    add_contents,
                    old(self)@.plain_child(old(self)@.horizontal_layout().spec_with_cross_align(Align::Center)),
                    after,
                    res.inner,
                ) && res.response == old(self)@.widget_rect(after.id, Sense::spec_hover()),
            res.child_widget == old(self)@.plain_child(old(self)@.horizontal_layout().spec_with_cross_align(Align::Center)).registration(),
            final(self)@ == old(self)@.allocated(),
    {
        let layout = self.horizontal_base_layout().with_cross_align(Align::Center);
        self.allocate_child(layout, add_contents)
    }

    /// A horizontal layout that takes the full available height and aligns
    /// its contents with the top.
    pub fn horizontal_top<R, F: FnOnce(Ui) -> (Ui, R)>(&mut self, add_contents: F) -> (res: InnerResponse<R>)
        requires
            forall|u: Ui| call_requires(add_contents, (u,)),
        ensures
            exists|after: UiModel|
                #[trigger] ran_on(
                    add_contents,
                    old(self)@.plain_child(old(self)@.horizontal_layout().spec_with_cross_align(Align::Min)),
                    after,
                    res.inner,
                ) && res.response == old(self)@.widget_rect(after.id, Sense::spec_hover()),
            res.child_widget == old(self)@.plain_child(old(self)@.horizontal_layout().spec_with_cross_align(Align::Min)).registration(),
            final(self)@ == old(self)@.allocated(),
    {
        let layout = self.horizontal_base_layout().with_cross_align(Align::Min);
        self.allocate_child(layout, add_contents)
    }

    /// Add contents in a child with `layout` that takes all available space.
    pub fn with_layout<R, F: FnOnce(Ui) -> (Ui, R)>(&mut self, layout: Layout, add_contents: F) -> (res:
        InnerResponse<R>)
        requires
            forall|u: Ui| call_requires(add_contents, (u,)),
        ensures
            exists|after: UiModel|
                #[trigger] ran_on(add_contents, old(self)@.plain_child(layout), after, res.inner)
                    && res.response == old(self)@.widget_rect(after.id, Sense::spec_hover()),
            res.child_widget == old(self)@.plain_child(layout).registration(),
            final(self)@ == old(self)@.allocated(),
    {
        self.allocate_child(layout, add_contents)
    }

    /// Start a vertical layout, left-aligned.
    pub fn vertical<R, F: FnOnce(Ui) -> (Ui, R)>(&mut self, add_contents: F) -> (res: InnerResponse<R>)
        requires
            forall|u: Ui| call_requires(add_contents, (u,)),
        ensures
            exists|after: UiModel|
                #[trigger] ran_on(
                    add_contents,
                    old(self)@.plain_child(Layout::spec_from_main_dir_and_cross_align(Direction::TopDown, Align::Min)),
                    after,
                    res.inner,
                ) && res.response == old(self)@.widget_rect(after.id, Sense::spec_hover()),
            res.child_widget == old(self)@.plain_child(Layout::spec_from_main_dir_and_cross_align(Direction::TopDown, Align::Min)).registration(),
            final(self)@ == old(self)@.allocated(),
    {
        self.allocate_child(Layout::top_down(Align::Min), add_contents)
    }

    /// Start a vertical layout, centered horizontally.
    pub fn vertical_centered<R, F: FnOnce(Ui) -> (Ui, R)>(&mut self, add_contents: F) -> (res: InnerResponse<R>)
        requires
            forall|u: Ui| call_requires(add_contents, (u,)),
        ensures
            exists|after: UiModel|
                #[trigger] ran_on(
                    add_contents,
                    old(self)@.plain_child(
                        Layout::spec_from_main_dir_and_cross_align(Direction::TopDown, Align::Center),
                    ),
                    after,
                    res.inner,
                ) && res.response == old(self)@.widget_rect(after.id, Sense::spec_hover()),
            res.child_widget == old(self)@.plain_child(
                Layout::spec_from_main_dir_and_cross_align(Direction::TopDown, Align::Center),
            ).registration(),
            final(self)@ == old(self)@.allocated(),
    {
        self.allocate_child(Layout::top_down(Align::Center), add_contents)
    }

    /// Start a vertical layout, centered and filling the full width.
    pub fn vertical_centered_justified<R, F: FnOnce(Ui) -> (Ui, R)>(&mut self, add_contents: F) -> (res:
        InnerResponse<R>)
        requires
            forall|u: Ui| call_requires(add_contents, (u,)),
        ensures
            exists|after: UiModel|
                #[trigger] ran_on(
                    add_contents,
                    old(self)@.plain_child(
                        Layout::spec_from_main_dir_and_cross_align(Direction::TopDown, Align::Center)
                            .spec_with_cross_justify(true),
                    ),
                    after,
                    res.inner,
                ) && res.response == old(self)@.widget_rect(after.id, Sense::spec_hover()),
            res.child_widget == old(self)@.plain_child(
                Layout::spec_from_main_dir_and_cross_align(Direction::TopDown, Align::Center)
                    .spec_with_cross_justify(true),
            ).registration(),
            final(self)@ == old(self)@.allocated(),
    {
        let layout = Layout::top_down(Align::Center).with_cross_justify(true);
        self.allocate_child(layout, add_contents)
    }

    /// The next widget is centered and justified in the available space.
    pub fn centered_and_justified<R, F: FnOnce(Ui) -> (Ui, R)>(&mut self, add_contents: F) -> (res:
        InnerResponse<R>)
        requires
            forall|u: Ui| call_requires(add_contents, (u,)),
        ensures
            exists|after: UiModel|
                #[trigger] ran_on(
                    add_contents,
                    old(self)@.plain_child(Layout::spec_centered_and_justified(Direction::TopDown)),
                    after,
                    res.inner,
                ) && res.response == old(self)@.widget_rect(after.id, Sense::spec_hover()),
            res.child_widget == old(self)@.plain_child(Layout::spec_centered_and_justified(Direction::TopDown)).registration(),
            final(self)@ == old(self)@.allocated(),
    {
        let layout = Layout::centered_and_justified(Direction::TopDown);
        self.allocate_child(layout, add_contents)
    }
}


/// What selecting `choice` after its widget answered `clicked` does to a
/// value that was `before`: without a click nothing changes; with a click
/// either nothing changes (the value was already `choice`) or the value
/// becomes `choice` and the response is marked as changed. For types whose
/// `==` is the spec equality `eq_spec`, which of the two is decided by it.
pub open spec fn value_selected<V: PartialEq>(before: V, choice: V, clicked: Response, after: V, response: Response) -> bool {
    let unchanged = after == before && response == clicked;
    let selected = after == choice && response == (Response { changed: true, ..clicked });
    &&& !clicked.clicked ==> unchanged
    &&& clicked.clicked ==> (unchanged || selected)
    &&& (V::obeys_eq_spec() && clicked.clicked) ==> if before.eq_spec(&choice) {
        unchanged
    } else {
        selected
    }
}

/// The state of column `i` that `columns` creates from state `ui`.
pub open spec fn column_model(ui: UiModel, i: nat) -> UiModel {
    ui.skipped(i).plain_child(
        Layout::spec_from_main_dir_and_cross_align(Direction::TopDown, Align::Min).spec_with_cross_justify(true),
    )
}

/// The states of the `n` columns that `columns` creates from state `ui`.
pub open spec fn column_models(ui: UiModel, n: nat) -> Seq<UiModel> {
    Seq::new(n, |i: int| column_model(ui, i as nat))
}

/// `f`, called with the column `Ui`s in states `states`, handed back
/// `inner`.
pub open spec fn ran_on_columns<R, F: FnOnce(Vec<Ui>) -> (Vec<Ui>, R)>(f: F, states: Seq<UiModel>, inner: R) -> bool {
    exists|input: Vec<Ui>, output: (Vec<Ui>, R)|
        #![trigger call_ensures(f, (input,), output)]
        input@.len() == states.len() && (forall|i: int| 0 <= i < states.len() ==> #[trigger] input@[i]@ == states[i])
            && call_ensures(f, (input,), output) && output.1 == inner
}

impl Ui {
    /// Add contents in a child indented to the right, with an identity
    /// derived from `id_source`. Only vertical layouts can be indented.
    pub fn indent<R, F: FnOnce(Ui) -> (Ui, R)>(&mut self, id_source: &IdSource, add_contents: F) -> (res:
        InnerResponse<R>)
        requires
            old(self)@.layout.main_dir.spec_is_vertical(),
            forall|u: Ui| call_requires(add_contents, (u,)),
        ensures
            exists|after: UiModel|
                #[trigger] ran_on(
                    add_contents,
                    old(self)@.child_with_id(old(self)@.layout, old(self)@.id.spec_with(*id_source), None),
                    after,
                    res.inner,
                ),
            res.response == old(self)@.widget_rect(old(self)@.allocated().next_auto_id(), Sense::spec_hover()),
            res.child_widget == old(self)@.child_with_id(
                old(self)@.layout,
                old(self)@.id.spec_with(*id_source),
                None,
            ).registration(),
            final(self)@ == old(self)@.skipped(2),
    {
        let layout = self.layout;
        let (child, child_widget) = self.child_ui_with_id_source(layout, id_source, None);
        let res = self.finish_scope(child, child_widget, add_contents);
        assert(counter_plus(counter_plus(old(self)@.next_auto_id_source, 1), 1) == counter_plus(
            old(self)@.next_auto_id_source,
            2,
        ));
        res
    }

    /// Split this `Ui` into `num_columns` top-down, justified columns and
    /// hand them to `add_contents`; this uses up one automatic identity per
    /// column and one for the space they take together.
    pub fn columns<R, F: FnOnce(Vec<Ui>) -> (Vec<Ui>, R)>(&mut self, num_columns: usize, add_contents: F) -> (r: R)
        requires
            forall|cols: Vec<Ui>| call_requires(add_contents, (cols,)),
        ensures
            ran_on_columns(
                add_contents,
                column_models(old(self)@, num_columns as nat),
                r,
            ),
            final(self)@ == old(self)@.skipped(num_columns as nat + 1),
    {
        let ghost start = self@;
        let columns = self.make_columns(num_columns);
        let ghost input = columns;
        let (_returned, r) = add_contents(columns);
        assert(forall|j: int|
            0 <= j < num_columns ==> #[trigger] input@[j]@ == column_models(start, num_columns as nat)[j]);
        assert(call_ensures(add_contents, (input,), (_returned, r)));
        let _id = self.advance_cursor_after_rect();
        proof {
            crate::laws::law_skips_add_up(start, num_columns as nat, 1);
        }
        r
    }

    /// Split this `Ui` into `NUM_COL` top-down, justified columns, a number
    /// fixed at compile time, and hand them to `add_contents` as an array;
    /// otherwise the same as `columns`.
    pub fn columns_const<const NUM_COL: usize, R, F: FnOnce([Ui; NUM_COL]) -> ([Ui; NUM_COL], R)>(
        &mut self,
        add_contents: F,
    ) -> (r: R)
        requires
            forall|cols: [Ui; NUM_COL]| call_requires(add_contents, (cols,)),
        ensures
            exists|input: [Ui; NUM_COL], output: ([Ui; NUM_COL], R)|
                #![trigger call_ensures(add_contents, (input,), output)]
                (forall|k: int| 0 <= k < NUM_COL ==> #[trigger] input@[k]@ == column_model(old(self)@, k as nat))
                    && call_ensures(add_contents, (input,), output) && output.1 == r,
            final(self)@ == old(self)@.skipped(NUM_COL as nat + 1),
    {
        let ghost start = self@;
        let columns = self.make_columns(NUM_COL);
        let ghost as_vec = columns@;
        let array: [Ui; NUM_COL] = match vec_into_array(columns) {
            Ok(array) => array,
            Err(_) => {
                proof {
                    assert(false);
                }
                vstd::pervasive::unreached()
            },
        };
        let ghost input = array;
        let (_returned, r) = add_contents(array);
        assert(forall|k: int| 0 <= k < NUM_COL ==> #[trigger] input@[k]@ == column_model(start, k as nat)) by {
            assert(input@ == as_vec);
        }
        assert(call_ensures(add_contents, (input,), (_returned, r)));
        let _id = self.advance_cursor_after_rect();
        proof {
            crate::laws::law_skips_add_up(start, NUM_COL as nat, 1);
        }
        r
    }

    /// Create `num_columns` top-down, justified children, one after another.
    fn make_columns(&mut self, num_columns: usize) -> (columns: Vec<Ui>)
        ensures
            columns@.len() == num_columns,
            forall|j: int| 0 <= j < num_columns ==> #[trigger] columns@[j]@ == column_model(old(self)@, j as nat),
            final(self)@ == old(self)@.skipped(num_columns as nat),
    {
        let ghost start = self@;
        let mut columns: Vec<Ui> = Vec::new();
        let mut i: usize = 0;
        assert(start.skipped(0) == start);
        while i < num_columns
            invariant
                i <= num_columns,
                columns@.len() == i,
                forall|j: int| 0 <= j < i ==> #[trigger] columns@[j]@ == column_model(start, j as nat),
                self@ == start.skipped(i as nat),
            decreases num_columns - i,
        {
            let (column, _column_widget) = self.child_ui(Layout::top_down_justified(Align::Min), None);
            columns.push(column);
            proof {
                crate::laws::law_skips_add_up(start, i as nat, 1);
            }
            i = i + 1;
        }
        columns
    }

    /// Add a widget that is disabled unless `enabled`; within a disabled
    /// `Ui` it is always disabled. Afterwards this `Ui` is as enabled, and
    /// paints as, as before.
    pub fn add_enabled<R, F: FnOnce(Ui) -> (Ui, R)>(&mut self, enabled: bool, widget: F) -> (r: R)
        requires
            forall|u: Ui| call_requires(widget, (u,)),
        ensures
            exists|after: UiModel|
                #[trigger] ran_on(widget, add_enabled_input(old(self)@, enabled), after, r)
                    && final(self)@ == add_enabled_outcome(old(self)@, enabled, after),
    {
        if self.is_enabled() && !enabled {
            let old_painter = self.painter;
            self.disable();
            let ghost disabled = self@;
            let r = self.run_on_self(widget);
            let ghost after = self@;
            self.enabled = true;
            self.painter = old_painter;
            assert(ran_on(widget, disabled, after, r));
            r
        } else {
            let r = self.run_on_self(widget);
            assert(ran_on(widget, old(self)@, self@, r));
            r
        }
    }

    /// Add a widget that is invisible unless `visible`; within an invisible
    /// `Ui` it is always invisible. It takes up space either way; afterwards
    /// this `Ui` is as enabled, and paints as, as before.
    pub fn add_visible<R, F: FnOnce(Ui) -> (Ui, R)>(&mut self, visible: bool, widget: F) -> (r: R)
        requires
            forall|u: Ui| call_requires(widget, (u,)),
        ensures
            exists|after: UiModel|
                #[trigger] ran_on(widget, add_visible_input(old(self)@, visible), after, r)
                    && final(self)@ == add_visible_outcome(old(self)@, visible, after),
    {
        if self.is_visible() && !visible {
            let old_painter = self.painter;
            let old_enabled = self.enabled;
            self.set_invisible();
            let ghost invisible = self@;
            let r = self.run_on_self(widget);
            let ghost after = self@;
            self.painter = old_painter;
            self.enabled = old_enabled;
            assert(ran_on(widget, invisible, after, r));
            r
        } else {
            let r = self.run_on_self(widget);
            assert(ran_on(widget, old(self)@, self@, r));
            r
        }
    }

    /// Show a widget with `show`, handing it this `Ui` and whether it is
    /// shown checked, and take back the `Ui` it returns.
    fn show_checked<F: FnOnce(Ui, bool) -> (Ui, Response)>(&mut self, checked: bool, show: F) -> (response: Response)
        requires
            forall|u: Ui, c: bool| call_requires(show, (u, c)),
        ensures
            shown_with(show, old(self)@, checked, final(self)@, response),
    {
        let mut taken = Ui {
            id: self.id,
            next_auto_id_source: 0,
            painter: self.painter,
            style: self.style,
            layout: self.layout,
            grid: None,
            enabled: false,
            sizing_pass: false,
            menu_state: None,
            stack: Vec::new(),
        };
        std::mem::swap(self, &mut taken);
        let ghost input = taken;
        let (ui, response) = show(taken, checked);
        *self = ui;
        assert(call_ensures(show, (input, checked), (ui, response)));
        response
    }

    /// Acts like a checkbox that looks like a selectable label: the label is
    /// shown (by `selectable_label`) checked exactly when `*selected`; a
    /// click flips `*selected` and marks the response as changed.
    pub fn toggle_value<F: FnOnce(Ui, bool) -> (Ui, Response)>(&mut self, selected: &mut bool, selectable_label: F) -> (response:
        Response)
        requires
            forall|u: Ui, c: bool| call_requires(selectable_label, (u, c)),
        ensures
            exists|after: UiModel, shown: Response|
                #[trigger] shown_with(selectable_label, old(self)@, *old(selected), after, shown)
                    && final(self)@ == after
                    && *final(selected) == (*old(selected) != shown.clicked)
                    && response == (Response { changed: shown.changed || shown.clicked, ..shown }),
    {
        let mut response = self.show_checked(*selected, selectable_label);
        if response.clicked() {
            *selected = !*selected;
            response.mark_changed();
        }
        response
    }

    /// Show a radio button (by `radio`), checked exactly when
    /// `*current_value == alternative`; a click selects `alternative` and, if
    /// it was not selected yet, marks the response as changed.
    pub fn radio_value<V: PartialEq, F: FnOnce(Ui, bool) -> (Ui, Response)>(
        &mut self,
        current_value: &mut V,
        alternative: V,
        radio: F,
    ) -> (response: Response)
        requires
            forall|u: Ui, c: bool| call_requires(radio, (u, c)),
        ensures
            exists|after: UiModel, checked: bool, shown: Response|
                #[trigger] shown_with(radio, old(self)@, checked, after, shown)
                    && (V::obeys_eq_spec() ==> checked == (*old(current_value)).eq_spec(&alternative))
                    && final(self)@ == after
                    && value_selected(*old(current_value), alternative, shown, *final(current_value), response),
    {
        let checked = *current_value == alternative;
        let mut response = self.show_checked(checked, radio);
        if response.clicked() && *current_value != alternative {
            *current_value = alternative;
            response.mark_changed();
        }
        response
    }

    /// Show a selectable label (by `selectable_label`), checked exactly when
    /// `*current_value == selected_value`; a click selects `selected_value`
    /// and, if it was not selected yet, marks the response as changed.
    pub fn selectable_value<V: PartialEq, F: FnOnce(Ui, bool) -> (Ui, Response)>(
        &mut self,
        current_value: &mut V,
        selected_value: V,
        selectable_label: F,
    ) -> (response: Response)
        requires
            forall|u: Ui, c: bool| call_requires(selectable_label, (u, c)),
        ensures
            exists|after: UiModel, checked: bool, shown: Response|
                #[trigger] shown_with(selectable_label, old(self)@, checked, after, shown)
                    && (V::obeys_eq_spec() ==> checked == (*old(current_value)).eq_spec(&selected_value))
                    && final(self)@ == after
                    && value_selected(*old(current_value), selected_value, shown, *final(current_value), response),
    {
        let checked = *current_value == selected_value;
        let mut response = self.show_checked(checked, selectable_label);
        if response.clicked() && *current_value != selected_value {
            *current_value = selected_value;
            response.mark_changed();
        }
        response
    }

    /// Lay out further widgets in `grid`.
    pub fn set_grid(&mut self, grid: GridLayout)
        ensures
            final(self)@ == (UiModel { grid: Some(grid), ..old(self)@ }),
    {
        self.grid = Some(grid);
    }

    pub fn is_grid(&self) -> (b: bool)
        ensures
            b == self@.grid is Some,
    {
        self.grid.is_some()
    }

    pub fn set_menu_state(&mut self, menu_state: Option<MenuStateId>)
        ensures
            final(self)@ == (UiModel { menu_state, ..old(self)@ }),
    {
        self.menu_state = menu_state;
    }

    /// Leave the menu this `Ui` is in, if any; returns the menu, which is
    /// to be closed (with its submenus).
    pub fn close_menu(&mut self) -> (closed: Option<MenuStateId>)
        ensures
            closed == old(self)@.menu_state,
            final(self)@ == (UiModel { menu_state: None, ..old(self)@ }),
    {
        let closed = self.menu_state;
        self.menu_state = None;
        closed
    }
}

/// Calls std's `TryFrom<Vec<T>>` for `[T; N]`: the claim is that a vector
/// of exactly `N` elements becomes the array of the same elements in order,
/// and any other vector is handed back unchanged as the error.
#[verifier::external_body]
fn vec_into_array<T, const N: usize>(v: Vec<T>) -> (r: Result<[T; N], Vec<T>>)
    ensures
        v@.len() == N ==> r is Ok && r->Ok_0@ == v@,
        v@.len() != N ==> r is Err && r->Err_0@ == v@,
{
    <[T; N]>::try_from(v)
}

/// Where a menu button goes.
#[derive(Clone, Copy, Debug, PartialEq, Eq, Structural)]
pub enum MenuPlacement {
    /// A button that opens a new menu.
    TopLevel,
    /// A button that opens a submenu of the given menu.
    SubMenuOf(MenuStateId),
}

/// What `dnd_drag_source` hands back.
pub struct DragSource<R, P> {
    /// What the contents returned, and the widgets of the scope.
    pub inner: InnerResponse<R>,
    /// The widget registered for dragging the contents, when they are not
    /// being dragged.
    pub drag_widget: Option<WidgetRect>,
    /// The payload offered for dropping, while the contents are being dragged.
    pub payload: Option<P>,
    /// The pointer shows a grabbing hand while it hovers over the contents.
    pub grab_cursor_on_hover: bool,
}

/// How a drop zone is drawn.
#[derive(Clone, Copy, Debug, PartialEq, Eq, Structural)]
pub struct DropZoneLook {
    /// Drawn with the style of an active widget (else an inactive one).
    pub active: bool,
    /// Its fill and stroke are grayed out.
    pub grayed_out: bool,
}

impl Ui {
    /// Add contents that can be dragged and dropped, for the widget `id`.
    ///
    /// While it is being dragged (`is_being_dragged`, as the context knows),
    /// `payload` is offered for dropping and the contents are painted on a
    /// tooltip layer of their own; otherwise they are added in a scope and
    /// `id` is also registered for dragging over them, and hovering over
    /// them shows a grabbing hand.
    pub fn dnd_drag_source<P, R, F: FnOnce(Ui) -> (Ui, R)>(
        &mut self,
        id: Id,
        is_being_dragged: bool,
        payload: P,
        add_contents: F,
    ) -> (res: DragSource<R, P>)
        requires
            forall|u: Ui| call_requires(add_contents, (u,)),
        ensures
            is_being_dragged ==> exists|after: UiModel|
                #[trigger] ran_on(
                    add_contents,
                    old(self)@.scope_child().on_layer(LayerId { order: Order::Tooltip, id }),
                    after,
                    res.inner.inner,
                ),
            !is_being_dragged ==> exists|after: UiModel|
                #[trigger] ran_on(add_contents, old(self)@.scope_child(), after, res.inner.inner),
            res.inner.response == old(self)@.widget_rect(old(self)@.next_auto_id(), Sense::spec_hover()),
            res.inner.child_widget == old(self)@.scope_child().registration(),
            res.drag_widget == if is_being_dragged {
                None
            } else {
                Some(old(self)@.widget_rect(id, Sense::spec_drag()))
            },
            res.payload == if is_being_dragged {
                Some(payload)
            } else {
                None::<P>
            },
            res.grab_cursor_on_hover == !is_being_dragged,
            final(self)@ == old(self)@.allocated(),
    {
        if is_being_dragged {
            let layer_id = LayerId::new(Order::Tooltip, id);
            let inner = self.with_layer_id(layer_id, add_contents);
            DragSource { inner, drag_widget: None, payload: Some(payload), grab_cursor_on_hover: false }
        } else {
            let inner = self.scope(add_contents);
            let dnd = self.interact(id, Sense::drag());
            DragSource { inner, drag_widget: Some(dnd), payload: None, grab_cursor_on_hover: true }
        }
    }

    /// How a drop zone is drawn: active while something it accepts is being
    /// dragged over it, and grayed out while something it does not accept is
    /// being dragged.
    pub fn dnd_drop_zone_look(
        is_anything_being_dragged: bool,
        can_accept_what_is_being_dragged: bool,
        contains_pointer: bool,
    ) -> (look: DropZoneLook)
        ensures
            look.active == (is_anything_being_dragged && can_accept_what_is_being_dragged && contains_pointer),
            look.grayed_out == (is_anything_being_dragged && !can_accept_what_is_being_dragged),
    {
        DropZoneLook {
            active: is_anything_being_dragged && can_accept_what_is_being_dragged && contains_pointer,
            grayed_out: is_anything_being_dragged && !can_accept_what_is_being_dragged,
        }
    }

    /// A menu button opens a new menu; inside a menu it opens a submenu
    /// instead.
    pub fn menu_button(&self) -> (placement: MenuPlacement)
        ensures
            placement == match self@.menu_state {
                Some(menu) => MenuPlacement::SubMenuOf(menu),
                None => MenuPlacement::TopLevel,
            },
    {
        match self.menu_state {
            Some(menu) => MenuPlacement::SubMenuOf(menu),
            None => MenuPlacement::TopLevel,
        }
    }

    /// A submenu button belongs to the menu this `Ui` is in; it can only be
    /// used inside a menu.
    pub fn sub_menu(&self) -> (placement: MenuPlacement)
        requires
            self@.menu_state is Some,
        ensures
            placement == MenuPlacement::SubMenuOf(self@.menu_state->0),
    {
        match self.menu_state {
            Some(menu) => MenuPlacement::SubMenuOf(menu),
            None => MenuPlacement::TopLevel,
        }
    }

    /// A menu button with an image opens a submenu inside a menu, and a new
    /// menu elsewhere.
    pub fn menu_image_button(&self) -> (placement: MenuPlacement)
        ensures
            placement == match self@.menu_state {
                Some(menu) => MenuPlacement::SubMenuOf(menu),
                None => MenuPlacement::TopLevel,
            },
    {
        match self.menu_state {
            Some(menu) => MenuPlacement::SubMenuOf(menu),
            None => MenuPlacement::TopLevel,
        }
    }

    /// A menu button with an image and a text opens a submenu inside a menu,
    /// and a new menu elsewhere.
    pub fn menu_image_text_button(&self) -> (placement: MenuPlacement)
        ensures
            placement == match self@.menu_state {
                Some(menu) => MenuPlacement::SubMenuOf(menu),
                None => MenuPlacement::TopLevel,
            },
    {
        self.menu_image_button()
    }
}

/// What registering a widget's rectangle does to the debug rectangle of
/// the frame.
#[derive(Clone, Copy, Debug, PartialEq, Eq, Structural)]
pub enum DebugRectUpdate {
    /// The debug rectangle stays as it is.
    Unchanged,
    /// The widget's rectangle replaces the one inside which it lies.
    Replace,
    /// The widget's rectangle becomes the first debug rectangle.
    Start,
}

/// What to do when a widget's rectangle is registered for debugging.
#[derive(Clone, Copy, Debug, PartialEq, Eq, Structural)]
pub struct DebugRectAction {
    pub update: DebugRectUpdate,
    /// Also show where the next widget goes.
    pub paint_next_cursor: bool,
    /// Whether a pointer button could be clicking, as recorded with the
    /// debug rectangle when it is started or replaced.
    pub is_clicking: bool,
}

/// Whether debugging shows the widget under the pointer.
pub open spec fn shows_callstacks(debug: DebugOptions, all_modifiers: bool) -> bool {
    debug.debug_on_hover || (debug.debug_on_hover_with_all_modifiers && all_modifiers)
}

/// Show a widget's rectangle to the user if the debug options ask for it.
///
/// `all_modifiers` tells whether all modifier keys are held,
/// `rect_contains_pointer` whether the pointer is over the rectangle, and
/// `current_debug_rect` whether the frame already has a debug rectangle,
/// and if so, whether it contains this one; `is_clicking` whether a pointer
/// button could be clicking. Only one debug rectangle is
/// shown: the innermost under the pointer.
pub fn register_rect(
    debug: &DebugOptions,
    all_modifiers: bool,
    rect_contains_pointer: bool,
    current_debug_rect: Option<bool>,
    is_clicking: bool,
) -> (action: DebugRectAction)
    ensures
        action.update == if !shows_callstacks(*debug, all_modifiers) || !rect_contains_pointer {
            DebugRectUpdate::Unchanged
        } else {
            match current_debug_rect {
                None => DebugRectUpdate::Start,
                Some(contains) => if contains {
                    DebugRectUpdate::Replace
                } else {
                    DebugRectUpdate::Unchanged
                },
            }
        },
        action.paint_next_cursor == (action.update != DebugRectUpdate::Unchanged && debug.hover_shows_next),
        action.is_clicking == (action.update != DebugRectUpdate::Unchanged && is_clicking),
{
    let nothing = DebugRectAction { update: DebugRectUpdate::Unchanged, paint_next_cursor: false, is_clicking: false };
    let show_callstacks = debug.debug_on_hover || debug.debug_on_hover_with_all_modifiers && all_modifiers;
    if !show_callstacks {
        return nothing;
    }
    if !rect_contains_pointer {
        return nothing;
    }
    let update = match current_debug_rect {
        Some(contains) => {
            if contains {
                DebugRectUpdate::Replace
            } else {
                DebugRectUpdate::Unchanged
            }
        },
        None => DebugRectUpdate::Start,
    };
    let kept = match update {
        DebugRectUpdate::Unchanged => false,
        _ => true,
    };
    if !kept {
        return nothing;
    }
    DebugRectAction { update, paint_next_cursor: debug.hover_shows_next, is_clicking }
}

} // verus!
