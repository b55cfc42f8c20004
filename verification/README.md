# egui_ui

A verified model of the state and decisions of an immediate-mode GUI `Ui`:
widget identities, the automatic identity counter, layouts, enabled and
visible state, child `Ui`s and scopes, menus, drag-and-drop decisions and the
debug-rectangle decision. Every function in `src/` carries a Verus contract.

- `src/id.rs`: identities derived with fixed-key `ahash` hashing.
- `src/layout.rs`: directions, alignment and layouts.
- `src/painter.rs`: colors, paint layers and the painter's fade state.
- `src/style.rs`, `src/stack.rs`, `src/response.rs`: the plain data a `Ui` reads and produces.
- `src/ui.rs`: the `Ui` itself, with its state `UiModel` as its view.
- `src/laws.rs`: properties across operations (disabled and invisible states
  are permanent, children inherit their parent's state, skipping automatic
  identities equals allocating them, and more).

Geometry (rectangles, sizes, opacity) is floating point and is not part of the
model. Contents are added by closures that take a `Ui` by value and hand it
back together with their result: Verus can state and check what a closure is
called with and what it returns when its argument is a value, but not when it
is a mutable reference. Widgets that show a checked state (`toggle_value`,
`radio_value`, `selectable_value`) are closures that also receive that state.
Effects on the surrounding context are returned as values: the background
widget a new `Ui` registers, the widgets registered for interaction, the menu
to close, the drag payload to offer, and the debug-rectangle update.
