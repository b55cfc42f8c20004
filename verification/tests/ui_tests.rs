use egui_ui::id::{Id, IdSource};
use egui_ui::layout::{Align, Direction, Layout, TextWrapMode};
use egui_ui::painter::{Color32, LayerId, Order, Painter};
use egui_ui::response::{Response, Sense};
use egui_ui::stack::{UiKind, UiStackInfo};
use egui_ui::style::{DebugOptions, Style};
use egui_ui::ui::{
    register_rect, DebugRectUpdate, GridLayout, MenuPlacement, MenuStateId, Ui,
};

fn gray() -> Color32 {
    Color32::from_rgba_premultiplied(100, 100, 100, 255)
}

fn style() -> Style {
    Style {
        wrap_mode: None,
        wrap: None,
        fade_out_to_color: gray(),
        debug: DebugOptions {
            debug_on_hover: false,
            debug_on_hover_with_all_modifiers: false,
            hover_shows_next: false,
        },
    }
}

fn root() -> Ui {
    let id = Id::new_str("root");
    Ui::new(style(), LayerId::new(Order::Middle, id), id, UiStackInfo::default()).0
}

#[test]
fn ui_impl_send_sync() {
    fn assert_send_sync<T: Send + Sync>() {}
    assert_send_sync::<Ui>();
}

#[test]
fn new_ui_state() {
    let ui = root();
    let id = Id::new_str("root");
    assert_eq!(ui.id(), id);
    assert!(ui.is_enabled());
    assert!(ui.is_visible());
    assert!(!ui.is_sizing_pass());
    assert!(!ui.is_grid());
    assert_eq!(*ui.layout(), Layout::default());
    assert_eq!(*ui.layout(), Layout::top_down(Align::Min));
    assert_eq!(ui.stack().len(), 1);
    assert_eq!(ui.stack()[0].id, id);
    assert_eq!(ui.stack()[0].layout_direction, Direction::TopDown);
    assert_eq!(ui.layer_id(), LayerId::new(Order::Middle, id));
    let expected_source = id.with_str("auto").value();
    assert_eq!(ui.next_auto_id(), Id::new_u64(expected_source));
}

#[test]
fn identities_are_hashed() {
    let a = Id::new_u64(5);
    assert_ne!(a.value(), 5);
    assert_ne!(a.value(), 0);
    assert_eq!(a, Id::new_u64(5));
    assert_ne!(a, Id::new_u64(6));
    assert_eq!(Id::new(&IdSource::Int(5)), a);
    assert_eq!(Id::new(&IdSource::Text("x".to_string())), Id::new_str("x"));
    assert_ne!(Id::new_str("x"), Id::new_str("y"));
    let parent = Id::new_str("parent");
    assert_ne!(parent.with_u64(1), parent);
    assert_ne!(parent.with_u64(1).value(), 1);
    assert_ne!(parent.with_u64(1), parent.with_u64(2));
    assert_ne!(parent.with_str("a"), parent);
    assert_ne!(parent.with_str("a"), parent.with_str("b"));
    assert_eq!(parent.with(&IdSource::Text("a".to_string())), parent.with_str("a"));
    assert_eq!(parent.with(&IdSource::Int(9)), parent.with_u64(9));
}

#[test]
fn disabled_cannot_be_enabled_again() {
    let mut ui = root();
    ui.disable();
    assert!(!ui.is_enabled());
    assert!(ui.is_visible());
    assert_eq!(ui.painter().fade_to_color(), Some(gray()));
    ui.set_enabled(true);
    assert!(!ui.is_enabled());
    let child = ui.child_ui(Layout::top_down(Align::Min), None).0;
    assert!(!child.is_enabled());
}

#[test]
fn set_enabled_true_does_nothing() {
    let mut ui = root();
    ui.set_enabled(true);
    assert!(ui.is_enabled());
    assert_eq!(ui.painter().fade_to_color(), None);
    ui.set_enabled(false);
    assert!(!ui.is_enabled());
}

#[test]
fn invisible_implies_disabled_and_stays() {
    let mut ui = root();
    ui.set_invisible();
    assert!(!ui.is_visible());
    assert!(!ui.is_enabled());
    ui.set_visible(true);
    assert!(!ui.is_visible());
    ui.disable();
    assert!(!ui.is_visible());
    assert_eq!(ui.painter().fade_to_color(), Some(Color32::transparent()));
}

#[test]
fn set_visible_false_hides() {
    let mut ui = root();
    ui.set_visible(true);
    assert!(ui.is_visible());
    ui.set_visible(false);
    assert!(!ui.is_visible());
    assert!(!ui.is_enabled());
}

#[test]
fn disable_with_transparent_fade_color_hides() {
    let mut s = style();
    s.fade_out_to_color = Color32::transparent();
    let id = Id::new_str("root");
    let (mut ui, _) = Ui::new(s, LayerId::new(Order::Middle, id), id, UiStackInfo::default());
    ui.disable();
    assert!(!ui.is_visible());
}

#[test]
fn sizing_pass_hides_and_shapes_children() {
    let mut ui = root();
    ui.set_sizing_pass();
    assert!(ui.is_sizing_pass());
    assert!(!ui.is_visible());
    assert!(!ui.is_enabled());
    let child = ui.child_ui(Layout::top_down(Align::Center).with_cross_justify(true), None).0;
    assert!(child.is_sizing_pass());
    assert_eq!(child.layout().cross_align, Align::Min);
    assert!(!child.layout().cross_justify);
    let other = ui.child_ui(Layout::top_down(Align::Max), None).0;
    assert_eq!(other.layout().cross_align, Align::Max);
}

#[test]
fn wrap_mode_precedence() {
    let mut ui = root();
    assert_eq!(ui.wrap_mode(), TextWrapMode::Wrap);
    assert!(ui.wrap_text());
    ui.set_grid(GridLayout { wrap_text: false });
    assert_eq!(ui.wrap_mode(), TextWrapMode::Extend);
    let mut s = style();
    s.wrap = Some(true);
    ui.set_style(s);
    assert_eq!(ui.wrap_mode(), TextWrapMode::Wrap);
    ui.style_mut().wrap_mode = Some(TextWrapMode::Truncate);
    assert_eq!(ui.wrap_mode(), TextWrapMode::Truncate);
    assert!(!ui.wrap_text());
    ui.reset_style(style());
    assert_eq!(ui.wrap_mode(), TextWrapMode::Extend);
}

#[test]
fn wrap_mode_by_layout() {
    let mut ui = root();
    let r = ui.horizontal(|u: Ui| {
        let m = u.wrap_mode();
        (u, m)
    });
    assert_eq!(r.inner, TextWrapMode::Extend);
    let r = ui.horizontal_wrapped(|u: Ui| {
        let m = u.wrap_mode();
        (u, m)
    });
    assert_eq!(r.inner, TextWrapMode::Wrap);
}

#[test]
fn next_auto_id_is_allocated() {
    let mut ui = root();
    let next = ui.next_auto_id();
    let id = ui.allocate_space();
    assert_eq!(id, next);
    assert_ne!(ui.next_auto_id(), next);
    let w = ui.allocate_rect(Sense::click());
    assert_eq!(w.sense, Sense::click());
    assert!(w.enabled);
    let w2 = ui.allocate_response(Sense::hover());
    assert_ne!(w.id, w2.id);
}

#[test]
fn skip_ahead_matches_allocations() {
    let mut a = root();
    let mut b = root();
    a.skip_ahead_auto_ids(3);
    for _ in 0..3 {
        b.allocate_space();
    }
    assert_eq!(a.next_auto_id(), b.next_auto_id());
    let mut c = root();
    c.skip_ahead_auto_ids(0);
    assert_eq!(c.next_auto_id(), root().next_auto_id());
}

#[test]
fn auto_id_with_is_next_with() {
    let ui = root();
    let src = IdSource::Text("label".to_string());
    assert_eq!(ui.auto_id_with(&src), ui.next_auto_id().with(&src));
}

#[test]
fn scope_uses_one_auto_id() {
    let mut a = root();
    let mut b = root();
    let next = a.next_auto_id();
    let res = a.scope(|u: Ui| {
        let e = u.is_enabled();
        (u, e)
    });
    assert!(res.inner);
    assert_eq!(res.response.id, next);
    assert_eq!(res.response.sense, Sense::hover());
    b.allocate_space();
    assert_eq!(a.next_auto_id(), b.next_auto_id());
}

#[test]
fn scope_child_identity() {
    let mut ui = root();
    let parent = ui.id();
    let res = ui.scope(|u: Ui| {
        let id = u.id();
        let depth = u.stack().len();
        (u, (id, depth))
    });
    assert_eq!(res.inner.0, parent.with_u64(Id::new_str("child").value()));
    assert_eq!(res.inner.1, 2);
}

#[test]
fn push_id_and_stack_info() {
    let mut ui = root();
    let parent = ui.id();
    let src = IdSource::Int(7);
    let res = ui.push_id(&src, |u: Ui| {
        let id = u.id();
        (u, id)
    });
    assert_eq!(res.inner, parent.with_u64(Id::new(&src).value()));
    let info = UiStackInfo::new(UiKind::Frame);
    let res = ui.push_stack_info(info, |u: Ui| {
        let last = u.stack()[u.stack().len() - 1].info;
        (u, last)
    });
    assert_eq!(res.inner.kind, Some(UiKind::Frame));
}

#[test]
fn child_ids() {
    let mut ui = root();
    let a = ui.child_ui(Layout::top_down(Align::Min), None).0;
    let b = ui.child_ui(Layout::left_to_right(Align::Center), None).0;
    assert_eq!(a.id(), b.id());
    assert_ne!(a.next_auto_id(), b.next_auto_id());
    let src = IdSource::Text("panel".to_string());
    let c = ui.child_ui_with_id_source(Layout::top_down(Align::Min), &src, None).0;
    assert_eq!(c.id(), ui.make_persistent_id(&src));
    assert_eq!(c.stack().len(), 2);
    assert_eq!(c.stack()[0].id, ui.id());
}

#[test]
fn add_enabled_disables_widget_only() {
    let mut ui = root();
    let seen = ui.add_enabled(false, |u: Ui| {
        let e = u.is_enabled();
        (u, e)
    });
    assert!(!seen);
    assert!(ui.is_enabled());
    assert_eq!(ui.painter().fade_to_color(), None);
    let seen = ui.add_enabled(true, |u: Ui| {
        let e = u.is_enabled();
        (u, e)
    });
    assert!(seen);
}

#[test]
fn add_enabled_within_disabled_ui() {
    let mut ui = root();
    ui.disable();
    let seen = ui.add_enabled(true, |u: Ui| {
        let e = u.is_enabled();
        (u, e)
    });
    assert!(!seen);
    assert!(!ui.is_enabled());
}

#[test]
fn add_visible_hides_widget_only() {
    let mut ui = root();
    let seen = ui.add_visible(false, |u: Ui| {
        let v = u.is_visible();
        let e = u.is_enabled();
        (u, (v, e))
    });
    assert_eq!(seen, (false, false));
    assert!(ui.is_visible());
    assert!(ui.is_enabled());
}

#[test]
fn add_enabled_ui_and_visible_ui() {
    let mut ui = root();
    let r = ui.add_enabled_ui(false, |u: Ui| {
        let e = u.is_enabled();
        (u, e)
    });
    assert!(!r.inner);
    assert!(ui.is_enabled());
    let r = ui.add_visible_ui(false, |u: Ui| {
        let v = u.is_visible();
        (u, v)
    });
    assert!(!r.inner);
    assert!(ui.is_visible());
}

#[test]
fn with_layer_id_redirects_child() {
    let mut ui = root();
    let layer = LayerId::new(Order::Foreground, Id::new_str("layer"));
    let r = ui.with_layer_id(layer, |u: Ui| {
        let l = u.layer_id();
        (u, l)
    });
    assert_eq!(r.inner, layer);
    assert_eq!(ui.layer_id().order, Order::Middle);
}

#[test]
fn horizontal_layouts() {
    let mut ui = root();
    let r = ui.horizontal(|u: Ui| {
        let l = *u.layout();
        (u, l)
    });
    assert_eq!(r.inner, Layout::left_to_right(Align::Center));
    let r = ui.horizontal_top(|u: Ui| {
        let l = *u.layout();
        (u, l)
    });
    assert_eq!(r.inner.cross_align, Align::Min);
    let mut rtl = root();
    let r = rtl.vertical_centered_justified(|mut u: Ui| {
        let inner = u.horizontal_centered(|v: Ui| {
            let l = *v.layout();
            (v, l)
        });
        (u, inner.inner)
    });
    assert_eq!(r.inner.main_dir, Direction::LeftToRight);
    let r = rtl.with_layout(Layout::top_down(Align::Max), |mut u: Ui| {
        let inner = u.horizontal(|v: Ui| {
            let l = *v.layout();
            (v, l)
        });
        (u, inner.inner)
    });
    assert_eq!(r.inner, Layout::right_to_left(Align::Center));
}

#[test]
fn vertical_layouts() {
    let mut ui = root();
    let r = ui.vertical(|u: Ui| {
        let l = *u.layout();
        (u, l)
    });
    assert_eq!(r.inner, Layout::top_down(Align::Min));
    let r = ui.vertical_centered(|u: Ui| {
        let l = *u.layout();
        (u, l)
    });
    assert_eq!(r.inner, Layout::top_down(Align::Center));
    let r = ui.centered_and_justified(|u: Ui| {
        let l = *u.layout();
        (u, l)
    });
    assert_eq!(r.inner, Layout::centered_and_justified(Direction::TopDown));
    assert!(r.inner.main_justify);
}

#[test]
fn allocate_ui_registers_child_id() {
    let mut ui = root();
    let child_id = ui.id().with_str("child");
    let r = ui.allocate_ui(|u: Ui| (u, 1u8));
    assert_eq!(r.response.id, child_id);
    let r = ui.allocate_ui_with_layout(Layout::bottom_up(Align::Min), |u: Ui| {
        let l = *u.layout();
        (u, l)
    });
    assert_eq!(r.inner.main_dir, Direction::BottomUp);
    let r = ui.allocate_ui_at_rect(|u: Ui| (u, 2u8));
    assert_eq!(r.inner, 2);
}

#[test]
fn add_sized_and_put() {
    let mut ui = root();
    let l = ui.add_sized(|u: Ui| {
        let l = *u.layout();
        (u, l)
    });
    assert_eq!(l, Layout::centered_and_justified(Direction::TopDown));
    let depth = ui.put(|u: Ui| {
        let d = u.stack().len();
        (u, d)
    });
    assert_eq!(depth, 3);
}

#[test]
fn indent_uses_two_auto_ids() {
    let mut a = root();
    let mut b = root();
    let src = IdSource::Text("indent".to_string());
    let expected_child = a.make_persistent_id(&src);
    let r = a.indent(&src, |u: Ui| {
        let id = u.id();
        (u, id)
    });
    assert_eq!(r.inner, expected_child);
    b.allocate_space();
    let second = b.allocate_space();
    assert_eq!(r.response.id, second);
    assert_eq!(a.next_auto_id(), b.next_auto_id());
}

#[test]
fn columns_are_top_down_justified() {
    let mut ui = root();
    let mut reference = root();
    let r = ui.columns(3, |cols: Vec<Ui>| {
        let n = cols.len();
        let l = *cols[1].layout();
        (cols, (n, l))
    });
    assert_eq!(r.0, 3);
    assert_eq!(r.1, Layout::top_down_justified(Align::Min));
    reference.skip_ahead_auto_ids(4);
    assert_eq!(ui.next_auto_id(), reference.next_auto_id());
    let empty = ui.columns(0, |cols: Vec<Ui>| {
        let n = cols.len();
        (cols, n)
    });
    assert_eq!(empty, 0);
}

fn response(clicked: bool) -> Response {
    Response { id: Id::new_u64(1), enabled: true, clicked, changed: false }
}

fn shown(clicked: bool) -> impl FnOnce(Ui, bool) -> (Ui, Response) {
    move |u: Ui, _checked: bool| (u, response(clicked))
}

#[test]
fn toggle_value_flips_on_click() {
    let mut ui = root();
    let mut selected = false;
    let r = ui.toggle_value(&mut selected, shown(true));
    assert!(selected);
    assert!(r.changed);
    let r = ui.toggle_value(&mut selected, shown(false));
    assert!(selected);
    assert!(!r.changed);
    let mut seen = None;
    ui.toggle_value(&mut selected, |u: Ui, checked: bool| {
        seen = Some(checked);
        (u, response(false))
    });
    assert_eq!(seen, Some(true));
}

#[test]
fn radio_and_selectable_value() {
    let mut ui = root();
    let mut current = 1u32;
    let r = ui.radio_value(&mut current, 2, shown(true));
    assert_eq!(current, 2);
    assert!(r.changed);
    let r = ui.radio_value(&mut current, 2, shown(true));
    assert_eq!(current, 2);
    assert!(!r.changed);
    let r = ui.selectable_value(&mut current, 3, shown(false));
    assert_eq!(current, 2);
    assert!(!r.changed);
    let r = ui.selectable_value(&mut current, 3, shown(true));
    assert_eq!(current, 3);
    assert!(r.changed);
}

#[test]
fn value_selectors_show_checked_state() {
    let mut ui = root();
    let mut current = 5u32;
    let mut seen = Vec::new();
    ui.radio_value(&mut current, 5, |u: Ui, checked: bool| {
        seen.push(checked);
        (u, response(false))
    });
    ui.selectable_value(&mut current, 6, |u: Ui, checked: bool| {
        seen.push(checked);
        (u, response(false))
    });
    assert_eq!(seen, vec![true, false]);
    let before = ui.next_auto_id();
    ui.selectable_value(&mut current, 6, |mut u: Ui, _checked: bool| {
        let id = u.allocate_space();
        (u, Response { id, enabled: true, clicked: false, changed: false })
    });
    assert_ne!(ui.next_auto_id(), before);
}

#[test]
fn menus() {
    let mut ui = root();
    assert_eq!(ui.menu_button(), MenuPlacement::TopLevel);
    assert_eq!(ui.menu_image_button(), MenuPlacement::TopLevel);
    assert_eq!(ui.close_menu(), None);
    ui.set_menu_state(Some(MenuStateId(4)));
    assert_eq!(ui.sub_menu(), MenuPlacement::SubMenuOf(MenuStateId(4)));
    assert_eq!(ui.menu_button(), MenuPlacement::SubMenuOf(MenuStateId(4)));
    assert_eq!(ui.menu_image_text_button(), MenuPlacement::SubMenuOf(MenuStateId(4)));
    let child = ui.child_ui(Layout::top_down(Align::Min), None).0;
    assert_eq!(child.menu_image_button(), MenuPlacement::SubMenuOf(MenuStateId(4)));
    assert_eq!(ui.close_menu(), Some(MenuStateId(4)));
    assert_eq!(ui.menu_image_button(), MenuPlacement::TopLevel);
}

#[test]
fn drag_source_branches() {
    let mut ui = root();
    let id = Id::new_str("drag");
    let r = ui.dnd_drag_source(id, false, "payload", |u: Ui| (u, 5u8));
    assert_eq!(r.inner.inner, 5);
    assert_eq!(r.payload, None);
    assert!(r.grab_cursor_on_hover);
    let extra = r.drag_widget.unwrap();
    assert_eq!(extra.id, id);
    assert_eq!(extra.sense, Sense::drag());
    let r = ui.dnd_drag_source(id, true, "payload", |u: Ui| {
        let l = u.layer_id();
        (u, l)
    });
    assert!(r.drag_widget.is_none());
    assert_eq!(r.payload, Some("payload"));
    assert!(!r.grab_cursor_on_hover);
    assert_eq!(r.inner.inner, LayerId::new(Order::Tooltip, id));
    assert_eq!(r.inner.child_widget.layer_id, ui.layer_id());
}

#[test]
fn drop_zone_look() {
    let look = Ui::dnd_drop_zone_look(true, true, true);
    assert!(look.active && !look.grayed_out);
    let look = Ui::dnd_drop_zone_look(true, false, true);
    assert!(!look.active && look.grayed_out);
    let look = Ui::dnd_drop_zone_look(false, false, true);
    assert!(!look.active && !look.grayed_out);
}

#[test]
fn register_rect_decisions() {
    let off = DebugOptions { debug_on_hover: false, debug_on_hover_with_all_modifiers: false, hover_shows_next: true };
    assert_eq!(register_rect(&off, true, true, None, false).update, DebugRectUpdate::Unchanged);
    let on = DebugOptions { debug_on_hover: true, debug_on_hover_with_all_modifiers: false, hover_shows_next: true };
    let a = register_rect(&on, false, true, None, false);
    assert_eq!(a.update, DebugRectUpdate::Start);
    assert!(a.paint_next_cursor);
    assert_eq!(register_rect(&on, false, true, Some(true), false).update, DebugRectUpdate::Replace);
    let b = register_rect(&on, false, true, Some(false), true);
    assert_eq!(b.update, DebugRectUpdate::Unchanged);
    assert!(!b.paint_next_cursor);
    assert_eq!(register_rect(&on, false, false, None, false).update, DebugRectUpdate::Unchanged);
    let mods = DebugOptions { debug_on_hover: false, debug_on_hover_with_all_modifiers: true, hover_shows_next: false };
    assert_eq!(register_rect(&mods, false, true, None, false).update, DebugRectUpdate::Unchanged);
    let c = register_rect(&mods, true, true, None, true);
    assert_eq!(c.update, DebugRectUpdate::Start);
    assert!(!c.paint_next_cursor);
    assert!(c.is_clicking);
    assert!(!register_rect(&mods, false, true, None, true).is_clicking);
}

#[test]
fn interact_registers_state() {
    let mut ui = root();
    let id = Id::new_str("w");
    let w = ui.interact(id, Sense::click());
    assert_eq!(w.id, id);
    assert_eq!(w.layer_id, ui.layer_id());
    assert!(w.enabled);
    ui.disable();
    let bg = ui.interact_bg(Sense::hover());
    assert_eq!(bg.id, ui.id());
    assert!(!bg.enabled);
}

#[test]
fn layout_helpers() {
    assert!(Layout::right_to_left(Align::Center).prefer_right_to_left());
    assert!(Layout::top_down(Align::Max).prefer_right_to_left());
    assert!(!Layout::top_down(Align::Min).prefer_right_to_left());
    assert!(!Layout::left_to_right(Align::Max).prefer_right_to_left());
    assert!(Layout::left_to_right(Align::Min).is_horizontal());
    assert!(Layout::bottom_up(Align::Min).is_vertical());
    assert!(Layout::top_down(Align::Min).with_main_wrap(true).main_wrap());
    assert_eq!(Color32::from_rgba_premultiplied(1, 2, 3, 4).to_array(), [1, 2, 3, 4]);
    let p = Painter::new(LayerId::new(Order::Background, Id::new_u64(3)));
    assert!(p.is_visible());
}

#[test]
fn add_runs_widget_on_ui() {
    let mut ui = root();
    let next = ui.next_auto_id();
    let id = ui.add(|mut u: Ui| {
        let id = u.allocate_space();
        (u, id)
    });
    assert_eq!(id, next);
    assert_ne!(ui.next_auto_id(), next);
    let w = ui.interact_with_hovered(false, id, Sense::drag());
    assert_eq!(w, ui.interact(id, Sense::drag()));
}

#[test]
fn new_registers_background() {
    let id = Id::new_str("root");
    let (ui, registration) = Ui::new(style(), LayerId::new(Order::Middle, id), id, UiStackInfo::default());
    assert_eq!(registration, ui.interact_bg(Sense::hover()));
    assert_eq!(registration.id, id);
    assert_eq!(registration.sense, Sense::hover());
    assert!(registration.enabled);
}

#[test]
fn children_register_background() {
    let mut ui = root();
    ui.disable();
    let src = IdSource::Int(3);
    let (child, registration) = ui.child_ui_with_id_source(Layout::top_down(Align::Min), &src, None);
    assert_eq!(registration.id, child.id());
    assert!(!registration.enabled);
    let r = ui.scope(|u: Ui| {
        let id = u.id();
        (u, id)
    });
    assert_eq!(r.child_widget.id, r.inner);
    let r = ui.add_enabled_ui(true, |u: Ui| (u, ()));
    assert!(!r.child_widget.enabled);
}

#[test]
fn columns_const_array() {
    let mut ui = root();
    let mut reference = root();
    let r = ui.columns_const(|cols: [Ui; 2]| {
        let l = *cols[0].layout();
        let same = cols[0].id() == cols[1].id();
        (cols, (l, same))
    });
    assert_eq!(r.0, Layout::top_down_justified(Align::Min));
    assert!(r.1);
    reference.skip_ahead_auto_ids(3);
    assert_eq!(ui.next_auto_id(), reference.next_auto_id());
}

#[derive(PartialEq, Clone, Copy, Debug)]
enum Choice {
    First,
    Second,
}

#[test]
fn selectable_value_with_own_enum() {
    let mut ui = root();
    let mut current = Choice::First;
    let r = ui.selectable_value(&mut current, Choice::Second, shown(true));
    assert_eq!(current, Choice::Second);
    assert!(r.changed);
    let r = ui.radio_value(&mut current, Choice::Second, shown(true));
    assert!(!r.changed);
}
