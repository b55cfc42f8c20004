//! The state and decisions of a `Ui`: identities, layouts, enabled and
//! visible state, child creation, and the automatic identity counter.

pub mod id;
pub mod layout;
pub mod painter;
pub mod response;
pub mod stack;
pub mod style;
pub mod ui;
pub mod laws;
pub mod state_laws;
