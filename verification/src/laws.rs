//! Properties of the `Ui` state that hold across its operations.

use crate::id::{Id, IdSource};
use crate::layout::{Align, Direction, Layout};
use crate::painter::Color32;
use crate::response::Sense;
use crate::stack::{UiStackFrame, UiStackInfo};
use crate::style::Style;
use crate::ui::{
    add_enabled_input, add_enabled_outcome, add_visible_input, add_visible_outcome, column_model, column_models, counter_plus,
    info_or_default, GridLayout, MenuStateId, UiModel,
};
use vstd::prelude::*;

verus! {

/// The state after `n` calls of `allocate_space`.
pub open spec fn allocated_times(ui: UiModel, n: nat) -> UiModel
    decreases n,
{
    if n == 0 {
        ui
    } else {
        allocated_times(ui, (n - 1) as nat).allocated()
    }
}

/// Once disabled, a `Ui` cannot be enabled again: disabling, hiding,
/// `set_enabled`, `set_visible`, using up automatic identities, and creating
/// children all leave a disabled `Ui` disabled, and its children disabled.
pub proof fn law_disabled_stays_disabled(
    ui: UiModel,
    flag: bool,
    n: nat,
    layout: Layout,
    id: Id,
    info: Option<UiStackInfo>,
)
    requires
        !ui.enabled,
    ensures
        !ui.disabled().enabled,
        !ui.made_invisible().enabled,
        !ui.enabled_if(flag).enabled,
        !ui.visible_if(flag).enabled,
        !ui.skipped(n).enabled,
        !ui.child_with_id(layout, id, info).enabled,
{
}

/// Once invisible, a `Ui` cannot be made visible again by the same
/// operations, and its children are invisible too.
pub proof fn law_invisible_stays_invisible(
    ui: UiModel,
    flag: bool,
    n: nat,
    layout: Layout,
    id: Id,
    info: Option<UiStackInfo>,
)
    requires
        !ui.is_visible(),
    ensures
        !ui.disabled().is_visible(),
        !ui.made_invisible().is_visible(),
        !ui.enabled_if(flag).is_visible(),
        !ui.visible_if(flag).is_visible(),
        !ui.skipped(n).is_visible(),
        !ui.child_with_id(layout, id, info).is_visible(),
{
}

/// Making a `Ui` invisible also disables it.
pub proof fn law_invisible_implies_disabled(ui: UiModel)
    ensures
        !ui.made_invisible().is_visible(),
        !ui.made_invisible().enabled,
{
}

/// Disabling a visible `Ui` keeps it visible (it fades towards the style's
/// fade-out color), unless that color is fully transparent.
pub proof fn law_disable_keeps_visible(ui: UiModel)
    requires
        ui.is_visible(),
        ui.style.fade_out_to_color != Color32::spec_transparent(),
    ensures
        ui.disabled().is_visible(),
{
}

/// `set_enabled(true)` and `set_visible(true)` do nothing.
pub proof fn law_setting_true_does_nothing(ui: UiModel)
    ensures
        ui.enabled_if(true) == ui,
        ui.visible_if(true) == ui,
{
}

/// The widget that `add_enabled(enabled, ..)` adds is enabled exactly when
/// both the `Ui` and `enabled` are; likewise `add_visible` and visibility.
pub proof fn law_added_widget_state(ui: UiModel, flag: bool)
    ensures
        (if ui.enabled && !flag {
            ui.disabled()
        } else {
            ui
        }).enabled == (ui.enabled && flag),
        (if ui.is_visible() && !flag {
            ui.made_invisible()
        } else {
            ui
        }).is_visible() == (ui.is_visible() && flag),
{
}

/// A child inherits the enabled state, visibility, style, painter, sizing
/// pass and menu of its parent, starts without a grid, and sits one level
/// above its parent on the stack.
pub proof fn law_child_inherits(ui: UiModel, layout: Layout, id: Id, info: Option<UiStackInfo>)
    ensures
        ({
            let child = ui.child_with_id(layout, id, info);
            &&& child.id == id
            &&& child.enabled == ui.enabled
            &&& child.is_visible() == ui.is_visible()
            &&& child.style == ui.style
            &&& child.painter == ui.painter
            &&& child.sizing_pass == ui.sizing_pass
            &&& child.menu_state == ui.menu_state
            &&& child.grid is None
            &&& child.layout.main_dir == layout.main_dir
            &&& child.stack.len() == ui.stack.len() + 1
            &&& child.stack.subrange(0, ui.stack.len() as int) == ui.stack
            &&& child.stack.last() == UiStackFrame {
                id,
                layout_direction: layout.main_dir,
                info: info_or_default(info),
            }
        }),
{
    let child = ui.child_with_id(layout, id, info);
    assert(child.stack.subrange(0, ui.stack.len() as int) =~= ui.stack);
}

/// During a sizing pass, children are in the sizing pass too, and their
/// layouts are neither justified nor centered across.
pub proof fn law_sizing_pass_children(ui: UiModel, layout: Layout, id: Id, info: Option<UiStackInfo>)
    requires
        ui.sizing_pass,
    ensures
        ui.child_with_id(layout, id, info).sizing_pass,
        !ui.child_with_id(layout, id, info).layout.cross_justify,
        ui.child_with_id(layout, id, info).layout.cross_align != Align::Center,
{
}

/// The identity a child created with `child_ui_with_id_source(.., id_source,
/// ..)` gets is `make_persistent_id(id_source)`.
pub proof fn law_child_id_is_persistent_id(ui: UiModel, layout: Layout, id_source: IdSource, info: Option<UiStackInfo>)
    ensures
        ui.child_with_id(layout, ui.id.spec_with(id_source), info).id == ui.id.spec_with(id_source),
{
}

/// Two children created with `child_ui` from the same `Ui` get the same
/// identity, whatever their layouts and however many automatic identities
/// are used up in between.
pub proof fn law_child_ui_ids_clash(ui: UiModel, first: Layout, second: Layout, n: nat)
    ensures
        ui.plain_child(first).id == ui.skipped(n).plain_child(second).id,
{
}

/// `next_auto_id` is the identity that the next `allocate_space` hands out,
/// and the widget that `scope` registers gets that identity too; both use up
/// exactly one automatic identity.
pub proof fn law_scope_is_like_allocate_space(ui: UiModel)
    ensures
        ui.widget_rect(ui.next_auto_id(), Sense::spec_hover()).id == ui.next_auto_id(),
        ui.allocated() == ui.skipped(1),
        ui.allocated().next_auto_id_source == counter_plus(ui.next_auto_id_source, 1),
{
}

/// `skip_ahead_auto_ids(n)` has the same effect as `n` calls of
/// `allocate_space`.
pub proof fn law_skip_ahead_is_repeated_allocation(ui: UiModel, n: nat)
    ensures
        allocated_times(ui, n) == ui.skipped(n),
    decreases n,
{
    if n == 0 {
        assert(ui.next_auto_id_source as int % 0x1_0000_0000_0000_0000 == ui.next_auto_id_source as int)
            by {
            vstd::arithmetic::div_mod::lemma_small_mod(
                ui.next_auto_id_source as nat,
                0x1_0000_0000_0000_0000nat,
            );
        }
        assert(ui.skipped(0) == ui);
    } else {
        law_skip_ahead_is_repeated_allocation(ui, (n - 1) as nat);
        let m = 0x1_0000_0000_0000_0000int;
        let c = ui.next_auto_id_source as int;
        vstd::arithmetic::div_mod::lemma_add_mod_noop_right(1, c + (n - 1), m);
        assert((((c + (n - 1)) % m) + 1) % m == (c + n) % m);
    }
}

/// Using up automatic identities in two steps is the same as in one.
pub proof fn law_skips_add_up(ui: UiModel, a: nat, b: nat)
    ensures
        ui.skipped(a).skipped(b) == ui.skipped(a + b),
{
    let m = 0x1_0000_0000_0000_0000int;
    let c = ui.next_auto_id_source as int;
    vstd::arithmetic::div_mod::lemma_add_mod_noop_right(b as int, c + a, m);
    assert((((c + a) % m) + b) % m == (c + a + b) % m);
}


/// An operation on a `Ui` whose effect does not depend on added contents.
/// Scopes, child layouts, columns, allocations and registrations change
/// the `Ui` only by using up automatic identities (`Skip`).
pub enum UiOp {
    Disable,
    SetEnabled(bool),
    SetInvisible,
    SetVisible(bool),
    SetSizingPass,
    Skip(nat),
    SetStyle(Style),
    SetGrid(GridLayout),
    SetMenuState(Option<MenuStateId>),
}

/// The state after one operation, as the operation's contract states it.
pub open spec fn apply_op(ui: UiModel, op: UiOp) -> UiModel {
    match op {
        UiOp::Disable => ui.disabled(),
        UiOp::SetEnabled(b) => ui.enabled_if(b),
        UiOp::SetInvisible => ui.made_invisible(),
        UiOp::SetVisible(b) => ui.visible_if(b),
        UiOp::SetSizingPass => (UiModel { sizing_pass: true, ..ui }).made_invisible(),
        UiOp::Skip(n) => ui.skipped(n),
        UiOp::SetStyle(style) => UiModel { style, ..ui },
        UiOp::SetGrid(grid) => UiModel { grid: Some(grid), ..ui },
        UiOp::SetMenuState(menu_state) => UiModel { menu_state, ..ui },
    }
}

/// The state after a sequence of operations, applied in order.
pub open spec fn apply_ops(ui: UiModel, ops: Seq<UiOp>) -> UiModel
    decreases ops.len(),
{
    if ops.len() == 0 {
        ui
    } else {
        apply_op(apply_ops(ui, ops.drop_last()), ops.last())
    }
}

/// After `disable`, no sequence of operations enables the `Ui` again, and
/// every child created afterwards is disabled.
pub proof fn law_disable_is_permanent(ui: UiModel, ops: Seq<UiOp>, layout: Layout, id: Id, info: Option<UiStackInfo>)
    ensures
        !apply_ops(ui.disabled(), ops).enabled,
        !apply_ops(ui.disabled(), ops).child_with_id(layout, id, info).enabled,
    decreases ops.len(),
{
    if ops.len() > 0 {
        law_disable_is_permanent(ui, ops.drop_last(), layout, id, info);
    }
}

/// After `set_invisible`, no sequence of operations makes the `Ui` visible
/// or enabled again, and every child created afterwards is invisible and
/// disabled.
pub proof fn law_set_invisible_is_permanent(
    ui: UiModel,
    ops: Seq<UiOp>,
    layout: Layout,
    id: Id,
    info: Option<UiStackInfo>,
)
    ensures
        !apply_ops(ui.made_invisible(), ops).is_visible(),
        !apply_ops(ui.made_invisible(), ops).enabled,
        !apply_ops(ui.made_invisible(), ops).child_with_id(layout, id, info).is_visible(),
        !apply_ops(ui.made_invisible(), ops).child_with_id(layout, id, info).enabled,
    decreases ops.len(),
{
    if ops.len() > 0 {
        law_set_invisible_is_permanent(ui, ops.drop_last(), layout, id, info);
    }
}

/// The layouts of `horizontal`, `horizontal_wrapped`, `horizontal_centered`
/// and `horizontal_top`: left to right (right to left where the `Ui` prefers
/// that), centered vertically; not wrapping, wrapping, centered across, and
/// aligned to the top respectively. Each of them is `allocate_ui_with_layout`
/// with that layout: their contracts state the same child, response and
/// final state for it.
pub proof fn law_horizontal_layouts(ui: UiModel)
    ensures
        ({
            let base = if ui.layout.spec_prefer_right_to_left() {
                Layout::spec_from_main_dir_and_cross_align(Direction::RightToLeft, Align::Center)
            } else {
                Layout::spec_from_main_dir_and_cross_align(Direction::LeftToRight, Align::Center)
            };
            &&& ui.horizontal_layout() == base.spec_with_main_wrap(false)
            &&& ui.horizontal_layout().spec_with_main_wrap(true) == base.spec_with_main_wrap(true)
            &&& ui.horizontal_layout().spec_with_cross_align(Align::Center) == base.spec_with_cross_align(
                Align::Center,
            )
            &&& ui.horizontal_layout().spec_with_cross_align(Align::Min) == base.spec_with_cross_align(Align::Min)
        }),
{
}


/// A disabled `Ui` stays disabled through any sequence of operations.
pub proof fn law_disabled_stays_disabled_under_ops(ui: UiModel, ops: Seq<UiOp>)
    requires
        !ui.enabled,
    ensures
        !apply_ops(ui, ops).enabled,
    decreases ops.len(),
{
    if ops.len() > 0 {
        law_disabled_stays_disabled_under_ops(ui, ops.drop_last());
    }
}

/// An invisible `Ui` stays invisible through any sequence of operations.
pub proof fn law_invisible_stays_invisible_under_ops(ui: UiModel, ops: Seq<UiOp>)
    requires
        !ui.is_visible(),
    ensures
        !apply_ops(ui, ops).is_visible(),
    decreases ops.len(),
{
    if ops.len() > 0 {
        law_invisible_stays_invisible_under_ops(ui, ops.drop_last());
    }
}

/// Adding contents to a disabled `Ui` with `add`, `add_enabled` or
/// `add_visible` leaves it disabled, whatever the flag, when the contents
/// hand back the `Ui` they were given after a sequence of operations.
pub proof fn law_contents_keep_disabled(ui: UiModel, flag: bool, ops: Seq<UiOp>)
    requires
        !ui.enabled,
    ensures
        !apply_ops(ui, ops).enabled,
        !add_enabled_input(ui, flag).enabled,
        !add_enabled_outcome(ui, flag, apply_ops(add_enabled_input(ui, flag), ops)).enabled,
        !add_visible_input(ui, flag).enabled,
        !add_visible_outcome(ui, flag, apply_ops(add_visible_input(ui, flag), ops)).enabled,
{
    law_disabled_stays_disabled_under_ops(ui, ops);
    law_disabled_stays_disabled_under_ops(add_enabled_input(ui, flag), ops);
    law_disabled_stays_disabled_under_ops(add_visible_input(ui, flag), ops);
}

/// Adding contents to an invisible `Ui` with `add`, `add_enabled` or
/// `add_visible` leaves it invisible, whatever the flag, when the contents
/// hand back the `Ui` they were given after a sequence of operations.
pub proof fn law_contents_keep_invisible(ui: UiModel, flag: bool, ops: Seq<UiOp>)
    requires
        !ui.is_visible(),
    ensures
        !apply_ops(ui, ops).is_visible(),
        !add_enabled_input(ui, flag).is_visible(),
        !add_enabled_outcome(ui, flag, apply_ops(add_enabled_input(ui, flag), ops)).is_visible(),
        !add_visible_input(ui, flag).is_visible(),
        !add_visible_outcome(ui, flag, apply_ops(add_visible_input(ui, flag), ops)).is_visible(),
{
    law_invisible_stays_invisible_under_ops(ui, ops);
    law_invisible_stays_invisible_under_ops(add_enabled_input(ui, flag), ops);
    law_invisible_stays_invisible_under_ops(add_visible_input(ui, flag), ops);
}

/// Successive `allocate_space` calls on a `Ui` whose counter is `s` hand out
/// the identities derived from `s`, then from `s.wrapping_add(1)`, and so on.
pub proof fn law_successive_allocations(ui: UiModel)
    ensures
        ui.next_auto_id() == Id::spec_new_u64(ui.next_auto_id_source),
        ui.allocated().next_auto_id() == Id::spec_new_u64(ui.next_auto_id_source.wrapping_add(1)),
        ui.allocated().allocated().next_auto_id() == Id::spec_new_u64(
            ui.next_auto_id_source.wrapping_add(1).wrapping_add(1),
        ),
{
}

/// After `skip_ahead_auto_ids(count)` on a `Ui` whose counter is `s`, the next
/// automatic identity is the one derived from `s.wrapping_add(count)`;
/// skipping none changes nothing, skipping one is one allocation, and
/// nothing but the counter changes.
pub proof fn law_skip_ahead_ids(ui: UiModel, count: u64)
    ensures
        ui.skipped(count as nat).next_auto_id() == Id::spec_new_u64(ui.next_auto_id_source.wrapping_add(count)),
        ui.skipped(0) == ui,
        ui.skipped(1) == ui.allocated(),
        ui.skipped(count as nat) == (UiModel {
            next_auto_id_source: ui.next_auto_id_source.wrapping_add(count),
            ..ui
        }),
{
    assert(ui.skipped(0) == ui) by {
        vstd::arithmetic::div_mod::lemma_small_mod(
            ui.next_auto_id_source as nat,
            0x1_0000_0000_0000_0000nat,
        );
    }
}

/// `columns_const::<N, ..>` and `columns(N, ..)` hand their contents the same
/// columns, in the same states, and leave the `Ui` in the same state.
pub proof fn law_columns_const_is_columns(ui: UiModel, n: nat)
    ensures
        column_models(ui, n).len() == n,
        forall|k: int| 0 <= k < n ==> #[trigger] column_models(ui, n)[k] == column_model(ui, k as nat),
{
}

/// `horizontal`, `horizontal_wrapped`, `horizontal_centered` and
/// `horizontal_top` hand their contents the same child, register the same
/// background, and leave the `Ui` in the same state as
/// `allocate_ui_with_layout` with a left-to-right layout (right to left where
/// the `Ui` prefers that) centered vertically and, respectively, not
/// wrapping, wrapping, centered across, and aligned to the top.
pub proof fn law_horizontal_is_allocate_ui_with_layout(ui: UiModel)
    ensures
        ({
            let base = if ui.layout.spec_prefer_right_to_left() {
                Layout::spec_from_main_dir_and_cross_align(Direction::RightToLeft, Align::Center)
            } else {
                Layout::spec_from_main_dir_and_cross_align(Direction::LeftToRight, Align::Center)
            };
            &&& ui.plain_child(ui.horizontal_layout()) == ui.plain_child(base.spec_with_main_wrap(false))
            &&& ui.plain_child(ui.horizontal_layout().spec_with_main_wrap(true)) == ui.plain_child(
                base.spec_with_main_wrap(true),
            )
            &&& ui.plain_child(ui.horizontal_layout().spec_with_cross_align(Align::Center)) == ui.plain_child(
                base.spec_with_cross_align(Align::Center),
            )
            &&& ui.plain_child(ui.horizontal_layout().spec_with_cross_align(Align::Min)) == ui.plain_child(
                base.spec_with_cross_align(Align::Min),
            )
        }),
{
    law_horizontal_layouts(ui);
}

} // verus!
