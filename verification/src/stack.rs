//! The chain of `Ui`s from the root to a given `Ui`.

use crate::id::Id;
use crate::layout::Direction;
use vstd::prelude::*;

verus! {

/// What kind of container a `Ui` is.
#[derive(Clone, Copy, Debug, PartialEq, Eq, Structural)]
pub enum UiKind {
    Window,
    CentralPanel,
    LeftPanel,
    RightPanel,
    TopPanel,
    BottomPanel,
    Frame,
    ScrollArea,
    Resize,
    Menu,
    Popup,
    Tooltip,
    Picker,
    TableCell,
    GenericArea,
}

/// Information about a `Ui` that is recorded on the stack.
#[derive(Clone, Copy, Debug, PartialEq, Eq, Structural)]
pub struct UiStackInfo {
    pub kind: Option<UiKind>,
}

impl UiStackInfo {
    pub fn new(kind: UiKind) -> (info: UiStackInfo)
        ensures
            info == (UiStackInfo { kind: Some(kind) }),
    {
        UiStackInfo { kind: Some(kind) }
    }
}

impl Default for UiStackInfo {
    fn default() -> (info: UiStackInfo)
        ensures
            info == (UiStackInfo { kind: None }),
    {
        UiStackInfo { kind: None }
    }
}

/// One level of the stack: a `Ui`'s identity, layout direction and info.
#[derive(Clone, Copy, Debug, PartialEq, Eq)]
pub struct UiStackFrame {
    pub id: Id,
    pub layout_direction: Direction,
    pub info: UiStackInfo,
}

} // verus!
