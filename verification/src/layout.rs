//! Layouts: in which direction widgets are placed, and how they are
//! aligned and justified.

use vstd::prelude::*;

verus! {

/// Alignment along one axis.
#[derive(Clone, Copy, Debug, PartialEq, Eq, Structural)]
pub enum Align {
    /// Left or top.
    Min,
    Center,
    /// Right or bottom.
    Max,
}

/// The direction in which new widgets are placed.
#[derive(Clone, Copy, Debug, PartialEq, Eq, Structural)]
pub enum Direction {
    LeftToRight,
    RightToLeft,
    TopDown,
    BottomUp,
}

impl Direction {
    pub open spec fn spec_is_horizontal(self) -> bool {
        self == Direction::LeftToRight || self == Direction::RightToLeft
    }

    pub open spec fn spec_is_vertical(self) -> bool {
        self == Direction::TopDown || self == Direction::BottomUp
    }

    pub fn is_horizontal(self) -> (r: bool)
        ensures
            r == self.spec_is_horizontal(),
    {
        match self {
            Direction::LeftToRight | Direction::RightToLeft => true,
            _ => false,
        }
    }

    pub fn is_vertical(self) -> (r: bool)
        ensures
            r == self.spec_is_vertical(),
    {
        match self {
            Direction::TopDown | Direction::BottomUp => true,
            _ => false,
        }
    }
}

/// How text is laid out when it does not fit.
#[derive(Clone, Copy, Debug, PartialEq, Eq, Structural)]
pub enum TextWrapMode {
    /// The text extends past the available width.
    Extend,
    /// The text wraps onto new rows.
    Wrap,
    /// The text is cut off with an elision character.
    Truncate,
}

/// The layout of a `Ui`: the main direction, wrapping, and the alignment
/// and justification along the main and cross axes.
#[derive(Clone, Copy, Debug, PartialEq, Eq, Structural)]
pub struct Layout {
    pub main_dir: Direction,
    pub main_wrap: bool,
    pub main_align: Align,
    pub main_justify: bool,
    pub cross_align: Align,
    pub cross_justify: bool,
}

impl Layout {
    /// A layout from a main direction and a cross alignment, with the main
    /// alignment centered and nothing wrapped or justified.
    pub open spec fn spec_from_main_dir_and_cross_align(main_dir: Direction, cross_align: Align) -> Layout {
        Layout {
            main_dir,
            main_wrap: false,
            main_align: Align::Center,
            main_justify: false,
            cross_align,
            cross_justify: false,
        }
    }

    pub fn from_main_dir_and_cross_align(main_dir: Direction, cross_align: Align) -> (l: Layout)
        ensures
            l == Layout::spec_from_main_dir_and_cross_align(main_dir, cross_align),
    {
        Layout {
            main_dir,
            main_wrap: false,
            main_align: Align::Center,
            main_justify: false,
            cross_align,
            cross_justify: false,
        }
    }

    /// Place widgets left to right, aligned vertically by `valign`.
    pub fn left_to_right(valign: Align) -> (l: Layout)
        ensures
            l == Layout::spec_from_main_dir_and_cross_align(Direction::LeftToRight, valign),
    {
        Layout::from_main_dir_and_cross_align(Direction::LeftToRight, valign)
    }

    /// Place widgets right to left, aligned vertically by `valign`.
    pub fn right_to_left(valign: Align) -> (l: Layout)
        ensures
            l == Layout::spec_from_main_dir_and_cross_align(Direction::RightToLeft, valign),
    {
        Layout::from_main_dir_and_cross_align(Direction::RightToLeft, valign)
    }

    /// Place widgets top to bottom, aligned horizontally by `halign`.
    pub fn top_down(halign: Align) -> (l: Layout)
        ensures
            l == Layout::spec_from_main_dir_and_cross_align(Direction::TopDown, halign),
    {
        Layout::from_main_dir_and_cross_align(Direction::TopDown, halign)
    }

    /// Top to bottom, and each widget fills the full width.
    pub fn top_down_justified(halign: Align) -> (l: Layout)
        ensures
            l == Layout::spec_from_main_dir_and_cross_align(Direction::TopDown, halign).spec_with_cross_justify(true),
    {
        Layout::top_down(halign).with_cross_justify(true)
    }

    /// Place widgets bottom to top, aligned horizontally by `halign`.
    pub fn bottom_up(halign: Align) -> (l: Layout)
        ensures
            l == Layout::spec_from_main_dir_and_cross_align(Direction::BottomUp, halign),
    {
        Layout::from_main_dir_and_cross_align(Direction::BottomUp, halign)
    }

    /// The single widget of this layout is centered and fills the space.
    pub open spec fn spec_centered_and_justified(main_dir: Direction) -> Layout {
        Layout {
            main_dir,
            main_wrap: false,
            main_align: Align::Center,
            main_justify: true,
            cross_align: Align::Center,
            cross_justify: true,
        }
    }

    pub fn centered_and_justified(main_dir: Direction) -> (l: Layout)
        ensures
            l == Layout::spec_centered_and_justified(main_dir),
    {
        Layout {
            main_dir,
            main_wrap: false,
            main_align: Align::Center,
            main_justify: true,
            cross_align: Align::Center,
            cross_justify: true,
        }
    }

    /// The default layout: top to bottom, left aligned.
    pub open spec fn spec_default() -> Layout {
        Layout::spec_from_main_dir_and_cross_align(Direction::TopDown, Align::Min)
    }

    pub open spec fn spec_with_main_wrap(self, main_wrap: bool) -> Layout {
        Layout { main_wrap, ..self }
    }

    pub open spec fn spec_with_cross_align(self, cross_align: Align) -> Layout {
        Layout { cross_align, ..self }
    }

    pub open spec fn spec_with_cross_justify(self, cross_justify: bool) -> Layout {
        Layout { cross_justify, ..self }
    }

    pub fn with_main_wrap(self, main_wrap: bool) -> (l: Layout)
        ensures
            l == self.spec_with_main_wrap(main_wrap),
    {
        Layout { main_wrap, ..self }
    }

    pub fn with_cross_align(self, cross_align: Align) -> (l: Layout)
        ensures
            l == self.spec_with_cross_align(cross_align),
    {
        Layout { cross_align, ..self }
    }

    pub fn with_cross_justify(self, cross_justify: bool) -> (l: Layout)
        ensures
            l == self.spec_with_cross_justify(cross_justify),
    {
        Layout { cross_justify, ..self }
    }

    pub fn main_dir(&self) -> (d: Direction)
        ensures
            d == self.main_dir,
    {
        self.main_dir
    }

    pub fn main_wrap(&self) -> (w: bool)
        ensures
            w == self.main_wrap,
    {
        self.main_wrap
    }

    pub fn is_horizontal(&self) -> (r: bool)
        ensures
            r == self.main_dir.spec_is_horizontal(),
    {
        self.main_dir.is_horizontal()
    }

    pub fn is_vertical(&self) -> (r: bool)
        ensures
            r == self.main_dir.spec_is_vertical(),
    {
        self.main_dir.is_vertical()
    }

    /// Whether new widgets are rather put at the right: a right-to-left
    /// layout, or a vertical one aligned to the right.
    pub open spec fn spec_prefer_right_to_left(self) -> bool {
        self.main_dir == Direction::RightToLeft || (self.main_dir.spec_is_vertical()
            && self.cross_align == Align::Max)
    }

    pub fn prefer_right_to_left(&self) -> (r: bool)
        ensures
            r == self.spec_prefer_right_to_left(),
    {
        let rtl = match self.main_dir {
            Direction::RightToLeft => true,
            _ => false,
        };
        let right_aligned = match self.cross_align {
            Align::Max => true,
            _ => false,
        };
        rtl || (self.is_vertical() && right_aligned)
    }
}

impl Default for Layout {
    fn default() -> (l: Layout)
        ensures
            l == Layout::spec_default(),
    {
        Layout::top_down(Align::Min)
    }
}

} // verus!
