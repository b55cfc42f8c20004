//! What the `Ui` operations do, stated field by field over the states they
//! start from: how disabling greys out, how children get their identity,
//! counter and layout, how columns are numbered, how text wraps, and what
//! each layout builder sets.

use crate::id::{ahash_chain_str, ahash_chain_u64, ahash_str, ahash_u64, Id};
use crate::layout::{Align, Direction, Layout, TextWrapMode};
use crate::painter::{Color32, LayerId, Painter};
use crate::response::{Response, Sense};
use crate::stack::{UiStackFrame, UiStackInfo};
use crate::style::{DebugOptions, Style};
use crate::ui::{
    add_enabled_input, add_enabled_outcome, add_visible_input, add_visible_outcome, column_model, counter_plus, GridLayout,
    new_ui_model, shows_callstacks, value_selected, UiModel,
};
use vstd::prelude::*;
use vstd::std_specs::cmp::PartialEqSpec;

verus! {

/// The color with all components zero.
pub open spec fn zero_color() -> Color32 {
    Color32 { r: 0, g: 0, b: 0, a: 0 }
}

/// `a` and `b` agree on everything but the enabled flag and the painter.
pub open spec fn same_but_enabled_and_painter(a: UiModel, b: UiModel) -> bool {
    &&& a.id == b.id
    &&& a.next_auto_id_source == b.next_auto_id_source
    &&& a.style == b.style
    &&& a.layout == b.layout
    &&& a.grid == b.grid
    &&& a.sizing_pass == b.sizing_pass
    &&& a.menu_state == b.menu_state
    &&& a.stack == b.stack
}

/// A painter shows its shapes exactly when it does not fade them to the
/// all-zero color.
pub proof fn law_painter_visibility(p: Painter)
    ensures
        p.spec_is_visible() <==> p.fade_to_color != Some(zero_color()),
        Color32::spec_transparent() == zero_color(),
{
}

/// `disable` turns the enabled flag off and, if the `Ui` was visible, fades
/// it towards the style's fade-out color (greying it out); an invisible `Ui`
/// keeps its painter. Nothing else changes. So a visible `Ui` stays visible
/// unless the fade-out color is all zero.
pub proof fn law_disable_greys_out(ui: UiModel)
    ensures
        !ui.disabled().enabled,
        same_but_enabled_and_painter(ui.disabled(), ui),
        ui.disabled().painter.layer_id == ui.painter.layer_id,
        ui.painter.fade_to_color != Some(zero_color()) ==> ui.disabled().painter.fade_to_color == Some(
            ui.style.fade_out_to_color,
        ),
        ui.painter.fade_to_color == Some(zero_color()) ==> ui.disabled().painter == ui.painter,
        (ui.painter.fade_to_color != Some(zero_color()) && ui.style.fade_out_to_color != zero_color())
            ==> ui.disabled().is_visible(),
{
}

/// `set_invisible` fades everything to the all-zero color and turns the
/// enabled flag off; nothing else changes.
pub proof fn law_set_invisible_fields(ui: UiModel)
    ensures
        !ui.made_invisible().enabled,
        ui.made_invisible().painter == (Painter { layer_id: ui.painter.layer_id, fade_to_color: Some(zero_color()) }),
        same_but_enabled_and_painter(ui.made_invisible(), ui),
        !ui.made_invisible().is_visible(),
{
}

/// The widget of `add_enabled(false, ..)` on an enabled `Ui` gets the `Ui`
/// disabled and greyed out (faded to the style's fade-out color when it was
/// visible), not hidden; `add_enabled(true, ..)`, or any call on a disabled
/// `Ui`, hands the widget the `Ui` as it is. Afterwards the `Ui` has its
/// enabled flag and painter back, and everything else the widget left.
pub proof fn law_add_enabled_greys_out(ui: UiModel, flag: bool, after: UiModel)
    ensures
        ui.enabled && !flag ==> {
            let given = add_enabled_input(ui, flag);
            &&& !given.enabled
            &&& same_but_enabled_and_painter(given, ui)
            &&& given.painter.layer_id == ui.painter.layer_id
            &&& ui.painter.fade_to_color != Some(zero_color()) ==> given.painter.fade_to_color == Some(
                ui.style.fade_out_to_color,
            )
            &&& ui.painter.fade_to_color == Some(zero_color()) ==> given.painter == ui.painter
            &&& (ui.painter.fade_to_color != Some(zero_color()) && ui.style.fade_out_to_color != zero_color())
                ==> given.is_visible()
        },
        !(ui.enabled && !flag) ==> add_enabled_input(ui, flag) == ui,
        ui.enabled && !flag ==> add_enabled_outcome(ui, flag, after).enabled && add_enabled_outcome(
            ui,
            flag,
            after,
        ).painter == ui.painter && same_but_enabled_and_painter(add_enabled_outcome(ui, flag, after), after),
        !(ui.enabled && !flag) ==> add_enabled_outcome(ui, flag, after) == after,
{
}

/// The widget of `add_visible(false, ..)` on a visible `Ui` gets the `Ui`
/// faded to the all-zero color and disabled; otherwise it gets the `Ui` as
/// it is. Afterwards the `Ui` has its enabled flag and painter back.
pub proof fn law_add_visible_hides(ui: UiModel, flag: bool, after: UiModel)
    ensures
        ui.is_visible() && !flag ==> {
            let given = add_visible_input(ui, flag);
            &&& !given.enabled
            &&& given.painter == (Painter { layer_id: ui.painter.layer_id, fade_to_color: Some(zero_color()) })
            &&& same_but_enabled_and_painter(given, ui)
        },
        !(ui.is_visible() && !flag) ==> add_visible_input(ui, flag) == ui,
        ui.is_visible() && !flag ==> add_visible_outcome(ui, flag, after).enabled == ui.enabled
            && add_visible_outcome(ui, flag, after).painter == ui.painter && same_but_enabled_and_painter(
            add_visible_outcome(ui, flag, after),
            after,
        ),
        !(ui.is_visible() && !flag) ==> add_visible_outcome(ui, flag, after) == after,
{
}

/// How text wraps, case by case: the style's wrap mode if set; else its
/// wrap flag; else the grid's; else every vertical layout (top-down and
/// bottom-up) wraps, and a horizontal one wraps exactly when it wraps its
/// rows.
pub proof fn law_wrap_mode_cases(ui: UiModel)
    ensures
        ui.style.wrap_mode is Some ==> ui.wrap_mode() == ui.style.wrap_mode->0,
        ui.style.wrap_mode is None && ui.style.wrap == Some(true) ==> ui.wrap_mode() == TextWrapMode::Wrap,
        ui.style.wrap_mode is None && ui.style.wrap == Some(false) ==> ui.wrap_mode() == TextWrapMode::Extend,
        ui.style.wrap_mode is None && ui.style.wrap is None && ui.grid == Some(GridLayout { wrap_text: true })
            ==> ui.wrap_mode() == TextWrapMode::Wrap,
        ui.style.wrap_mode is None && ui.style.wrap is None && ui.grid == Some(GridLayout { wrap_text: false })
            ==> ui.wrap_mode() == TextWrapMode::Extend,
        ui.style.wrap_mode is None && ui.style.wrap is None && ui.grid is None && (ui.layout.main_dir
            == Direction::TopDown || ui.layout.main_dir == Direction::BottomUp) ==> ui.wrap_mode()
            == TextWrapMode::Wrap,
        ui.style.wrap_mode is None && ui.style.wrap is None && ui.grid is None && (ui.layout.main_dir
            == Direction::LeftToRight || ui.layout.main_dir == Direction::RightToLeft) ==> ui.wrap_mode() == (
        if ui.layout.main_wrap {
            TextWrapMode::Wrap
        } else {
            TextWrapMode::Extend
        }),
{
}

/// Directions: left-to-right and right-to-left are horizontal, top-down and
/// bottom-up vertical.
pub proof fn law_directions(d: Direction)
    ensures
        d.spec_is_horizontal() <==> (d == Direction::LeftToRight || d == Direction::RightToLeft),
        d.spec_is_vertical() <==> (d == Direction::TopDown || d == Direction::BottomUp),
{
}

/// What each layout builder sets, field by field.
pub proof fn law_layout_builders(l: Layout, dir: Direction, align: Align, b: bool)
    ensures
        l.spec_with_cross_justify(b).cross_justify == b,
        l.spec_with_cross_justify(b).main_justify == l.main_justify,
        l.spec_with_cross_justify(b).main_dir == l.main_dir && l.spec_with_cross_justify(b).main_wrap == l.main_wrap
            && l.spec_with_cross_justify(b).main_align == l.main_align && l.spec_with_cross_justify(b).cross_align
            == l.cross_align,
        l.spec_with_main_wrap(b).main_wrap == b,
        l.spec_with_main_wrap(b).main_dir == l.main_dir && l.spec_with_main_wrap(b).main_align == l.main_align
            && l.spec_with_main_wrap(b).main_justify == l.main_justify && l.spec_with_main_wrap(b).cross_align
            == l.cross_align && l.spec_with_main_wrap(b).cross_justify == l.cross_justify,
        l.spec_with_cross_align(align).cross_align == align,
        l.spec_with_cross_align(align).main_dir == l.main_dir && l.spec_with_cross_align(align).main_wrap
            == l.main_wrap && l.spec_with_cross_align(align).main_align == l.main_align
            && l.spec_with_cross_align(align).main_justify == l.main_justify && l.spec_with_cross_align(
            align,
        ).cross_justify == l.cross_justify,
        ({
            let m = Layout::spec_from_main_dir_and_cross_align(dir, align);
            &&& m.main_dir == dir
            &&& m.cross_align == align
            &&& !m.main_wrap
            &&& m.main_align == Align::Center
            &&& !m.main_justify
            &&& !m.cross_justify
        }),
        ({
            let m = Layout::spec_centered_and_justified(dir);
            &&& m.main_dir == dir
            &&& !m.main_wrap
            &&& m.main_align == Align::Center
            &&& m.main_justify
            &&& m.cross_align == Align::Center
            &&& m.cross_justify
        }),
        Layout::spec_default() == (Layout {
            main_dir: Direction::TopDown,
            main_wrap: false,
            main_align: Align::Center,
            main_justify: false,
            cross_align: Align::Min,
            cross_justify: false,
        }),
        l.spec_prefer_right_to_left() <==> (l.main_dir == Direction::RightToLeft || ((l.main_dir
            == Direction::TopDown || l.main_dir == Direction::BottomUp) && l.cross_align == Align::Max)),
{
}

/// The child that `vertical_centered_justified` creates (outside a sizing
/// pass) is top-down, centered across and filling the full width; its main
/// axis is not justified.
pub proof fn law_vertical_centered_justified_child(ui: UiModel)
    requires
        !ui.sizing_pass,
    ensures
        ({
            let l = ui.plain_child(
                Layout::spec_from_main_dir_and_cross_align(Direction::TopDown, Align::Center).spec_with_cross_justify(
                    true,
                ),
            ).layout;
            &&& l.main_dir == Direction::TopDown
            &&& l.cross_align == Align::Center
            &&& l.cross_justify
            &&& !l.main_justify
            &&& !l.main_wrap
        }),
{
}

/// A child created with identity `id`: it has that identity; its counter is
/// the value of the identity derived from the parent's next automatic
/// identity and `"child"` (so it does not continue the parent's counter);
/// it gets the requested layout, except that in a sizing pass nothing is
/// justified across and centering across becomes aligning to the start; it
/// inherits painter, style, enabled flag, sizing pass and menu; it has no
/// grid; and it sits on top of its parent's stack.
pub proof fn law_child_fields(ui: UiModel, layout: Layout, id: Id, info: Option<UiStackInfo>)
    ensures
        ({
            let c = ui.child_with_id(layout, id, info);
            &&& c.id == id
            &&& c.next_auto_id_source == Id::spec_new_u64(ui.next_auto_id_source).spec_with_str(
                "child"@,
            ).spec_value()
            &&& !ui.sizing_pass ==> c.layout == layout
            &&& ui.sizing_pass ==> c.layout == (Layout {
                cross_justify: false,
                cross_align: if layout.cross_align == Align::Center {
                    Align::Min
                } else {
                    layout.cross_align
                },
                ..layout
            })
            &&& c.painter == ui.painter
            &&& c.style == ui.style
            &&& c.enabled == ui.enabled
            &&& c.sizing_pass == ui.sizing_pass
            &&& c.menu_state == ui.menu_state
            &&& c.grid is None
            &&& c.stack == ui.stack.push(
                UiStackFrame {
                    id,
                    layout_direction: layout.main_dir,
                    info: match info {
                        Some(i) => i,
                        None => UiStackInfo { kind: None },
                    },
                },
            )
        }),
{
}

/// Identities are the hashes, with zero mapped to one.
pub proof fn law_id_values(x: u64, s: Seq<char>, parent: Id)
    ensures
        Id::spec_new_u64(x).spec_value() == if ahash_u64(x) == 0 {
            1
        } else {
            ahash_u64(x)
        },
        Id::spec_new_str(s).spec_value() == if ahash_str(s) == 0 {
            1
        } else {
            ahash_str(s)
        },
        parent.spec_with_u64(x).spec_value() == if ahash_chain_u64(parent.spec_value(), x) == 0 {
            1
        } else {
            ahash_chain_u64(parent.spec_value(), x)
        },
        parent.spec_with_str(s).spec_value() == if ahash_chain_str(parent.spec_value(), s) == 0 {
            1
        } else {
            ahash_chain_str(parent.spec_value(), s)
        },
{
    broadcast use Id::lemma_value;

}

/// The counter after `n` allocations is the wrapping sum.
pub proof fn law_counter_plus_is_wrapping_add(c: u64, n: u64)
    ensures
        counter_plus(c, n as nat) == c.wrapping_add(n),
        counter_plus(c, n as nat) as int == (c as int + n as int) % 0x1_0000_0000_0000_0000,
{
}

/// Using up automatic identities changes the counter and nothing else.
pub proof fn law_skipped_fields(ui: UiModel, n: u64)
    ensures
        ui.skipped(n as nat).next_auto_id_source == ui.next_auto_id_source.wrapping_add(n),
        ui.skipped(n as nat).id == ui.id && ui.skipped(n as nat).painter == ui.painter && ui.skipped(n as nat).style
            == ui.style && ui.skipped(n as nat).layout == ui.layout && ui.skipped(n as nat).grid == ui.grid
            && ui.skipped(n as nat).enabled == ui.enabled && ui.skipped(n as nat).sizing_pass == ui.sizing_pass
            && ui.skipped(n as nat).menu_state == ui.menu_state && ui.skipped(n as nat).stack == ui.stack,
{
}

/// Column `j` is the child created after `j` automatic identities of the
/// `Ui` were used up: its counter comes from the parent's counter plus `j`,
/// and (outside a sizing pass) it is top-down, left aligned and filling the
/// width. Different columns come from different parent counters.
pub proof fn law_column_fields(ui: UiModel, j: nat, k: nat)
    ensures
        column_model(ui, j).id == ui.id.spec_with_str("child"@),
        column_model(ui, j).next_auto_id_source == Id::spec_new_u64(counter_plus(ui.next_auto_id_source, j)).spec_with_str(
            "child"@,
        ).spec_value(),
        !ui.sizing_pass ==> column_model(ui, j).layout == (Layout {
            main_dir: Direction::TopDown,
            main_wrap: false,
            main_align: Align::Center,
            main_justify: false,
            cross_align: Align::Min,
            cross_justify: true,
        }),
        column_model(ui, j).enabled == ui.enabled && column_model(ui, j).painter == ui.painter,
        j < k < 0x1_0000_0000_0000_0000 ==> counter_plus(ui.next_auto_id_source, j) != counter_plus(
            ui.next_auto_id_source,
            k,
        ),
{
    if j < k < 0x1_0000_0000_0000_0000 {
        lemma_distinct_mod(ui.next_auto_id_source as int + j, ui.next_auto_id_source as int + k);
    }
}

proof fn lemma_distinct_mod(x: int, y: int)
    requires
        0 <= x < y,
        y - x < 0x1_0000_0000_0000_0000,
    ensures
        x % 0x1_0000_0000_0000_0000 != y % 0x1_0000_0000_0000_0000,
{
    let m = 0x1_0000_0000_0000_0000int;
    vstd::arithmetic::div_mod::lemma_fundamental_div_mod(x, m);
    vstd::arithmetic::div_mod::lemma_fundamental_div_mod(y, m);
    let qx = x / m;
    let qy = y / m;
    if x % m == y % m {
        assert(y - x == m * (qy - qx)) by (nonlinear_arith)
            requires
                x == m * qx + x % m,
                y == m * qy + y % m,
                x % m == y % m,
        ;
        assert(false) by (nonlinear_arith)
            requires
                y - x == m * (qy - qx),
                0 < y - x < m,
                m > 0,
        ;
    }
}

/// A new `Ui`: enabled, not faded, top-down left-aligned, no grid, not in a
/// sizing pass or menu, alone on its stack, with its counter derived from its
/// identity and `"auto"`.
pub proof fn law_new_ui_fields(style: Style, layer_id: LayerId, id: Id, info: UiStackInfo)
    ensures
        ({
            let u = new_ui_model(style, layer_id, id, info);
            &&& u.id == id
            &&& u.next_auto_id_source == id.spec_with_str("auto"@).spec_value()
            &&& u.painter == (Painter { layer_id, fade_to_color: None })
            &&& u.enabled && !u.sizing_pass
            &&& u.style == style
            &&& u.layout.main_dir == Direction::TopDown && u.layout.cross_align == Align::Min
            &&& u.grid is None && u.menu_state is None
            &&& u.stack == seq![UiStackFrame { id, layout_direction: Direction::TopDown, info }]
        }),
{
}

/// The widgets a `Ui` registers carry its layer and enabled flag; its own
/// background is registered under its identity, sensing only hovering.
pub proof fn law_widget_rects(ui: UiModel, id: Id, sense: Sense)
    ensures
        ui.widget_rect(id, sense).id == id && ui.widget_rect(id, sense).sense == sense && ui.widget_rect(
            id,
            sense,
        ).layer_id == ui.painter.layer_id && ui.widget_rect(id, sense).enabled == ui.enabled,
        ui.registration().id == ui.id && ui.registration().enabled == ui.enabled
            && ui.registration().layer_id == ui.painter.layer_id && ui.registration().sense == (Sense {
            click: false,
            drag: false,
            focusable: false,
        }),
        Sense::spec_drag() == (Sense { click: false, drag: true, focusable: true }),
{
}

/// The child of a scope derived from `source`: its identity is derived from
/// the `Ui`'s identity and the value of `source`, and the `Ui`'s layout.
pub proof fn law_scope_child_fields(ui: UiModel, source: Id)
    ensures
        ui.scope_child_of(source, None).id == ui.id.spec_with_u64(source.spec_value()),
        ui.scope_child().id == ui.id.spec_with_u64(Id::spec_new_str("child"@).spec_value()),
        !ui.sizing_pass ==> ui.scope_child().layout == ui.layout,
        ui.scope_child().next_auto_id_source == Id::spec_new_u64(ui.next_auto_id_source).spec_with_str(
            "child"@,
        ).spec_value(),
{
}

/// A value selector: without a click nothing changes; with a click on a
/// value that is not selected yet (for types whose `==` is `eq_spec`), the
/// value becomes the choice and the response is marked changed; with a
/// click on the selected value nothing changes.
pub proof fn law_value_selected<V: PartialEq>(before: V, choice: V, clicked: Response, after: V, response: Response)
    requires
        value_selected(before, choice, clicked, after, response),
    ensures
        !clicked.clicked ==> after == before && response == clicked,
        V::obeys_eq_spec() && clicked.clicked && !before.eq_spec(&choice) ==> after == choice && response.changed
            && response.id == clicked.id && response.clicked == clicked.clicked && response.enabled
            == clicked.enabled,
        V::obeys_eq_spec() && clicked.clicked && before.eq_spec(&choice) ==> after == before && response
            == clicked,
{
}

/// Debugging shows the widget under the pointer when asked to always, or
/// when asked to while all modifiers are held and they are.
pub proof fn law_shows_callstacks(debug: DebugOptions, all_modifiers: bool)
    ensures
        shows_callstacks(debug, all_modifiers) <==> (debug.debug_on_hover || (
        debug.debug_on_hover_with_all_modifiers && all_modifiers)),
{
}

} // verus!
