//! Interface pieces: geometry, text input, lists, tables, popups, toasts and help.
pub mod area;
pub mod help;
pub mod input;
pub mod list;
pub mod margin;
pub mod popup;
pub mod style_config;
pub mod table;
pub mod toast;

use vstd::prelude::*;
use crate::ui::area::Rect;

verus! {

/// Where a box sits inside an area; the default is the top-left corner.
#[derive(Clone, Copy, Debug, PartialEq, Eq, Structural)]
pub enum Position {
    LeftTop,
    Top,
    RightTop,
    LeftCenter,
    Center,
    RightCenter,
    LeftBottom,
    Bottom,
    RightBottom,
}

impl Default for Position {
    fn default() -> (p: Self)
        ensures
            p == Position::LeftTop,
    {
        Position::LeftTop
    }
}

impl Position {
    /// The same placement as an `area::Position`.
    pub open spec fn as_area(self) -> area::Position {
        match self {
            Position::LeftTop => area::Position::LeftTop,
            Position::Top => area::Position::Top,
            Position::RightTop => area::Position::RightTop,
            Position::LeftCenter => area::Position::LeftCenter,
            Position::Center => area::Position::Center,
            Position::RightCenter => area::Position::RightCenter,
            Position::LeftBottom => area::Position::LeftBottom,
            Position::Bottom => area::Position::Bottom,
            Position::RightBottom => area::Position::RightBottom,
        }
    }

    fn to_area(self) -> (p: area::Position)
        ensures
            p == self.as_area(),
    {
        match self {
            Position::LeftTop => area::Position::LeftTop,
            Position::Top => area::Position::Top,
            Position::RightTop => area::Position::RightTop,
            Position::LeftCenter => area::Position::LeftCenter,
            Position::Center => area::Position::Center,
            Position::RightCenter => area::Position::RightCenter,
            Position::LeftBottom => area::Position::LeftBottom,
            Position::Bottom => area::Position::Bottom,
            Position::RightBottom => area::Position::RightBottom,
        }
    }
}

/// Space kept free on each side of a box; its sides are set through the builder methods.
#[derive(Clone, Copy, Debug)]
pub struct Margin {
    top: u16,
    bottom: u16,
    left: u16,
    right: u16,
}

impl View for Margin {
    type V = margin::Margin;

    closed spec fn view(&self) -> margin::Margin {
        margin::Margin { top: self.top, bottom: self.bottom, left: self.left, right: self.right }
    }
}

impl Default for Margin {
    fn default() -> (m: Self)
        ensures
            m@ == (margin::Margin { top: 0, bottom: 0, left: 0, right: 0 }),
    {
        Margin { top: 0, bottom: 0, left: 0, right: 0 }
    }
}

impl Margin {
    /// The same margin on all four sides.
    pub fn new(value: u16) -> (m: Self)
        ensures
            m@ == (margin::Margin { top: value, bottom: value, left: value, right: value }),
    {
        Self { top: value, bottom: value, left: value, right: value }
    }

    /// Sets the left and the right margin.
    pub fn horizontal(self, value: u16) -> (m: Self)
        ensures
            m@ == (margin::Margin { left: value, right: value, ..self@ }),
    {
        let mut m = self;
        m.left = value;
        m.right = value;
        m
    }

    /// Sets the top and the bottom margin.
    pub fn vertical(self, value: u16) -> (m: Self)
        ensures
            m@ == (margin::Margin { top: value, bottom: value, ..self@ }),
    {
        let mut m = self;
        m.top = value;
        m.bottom = value;
        m
    }

    /// Sets the top margin.
    pub fn top(self, value: u16) -> (m: Self)
        ensures
            m@ == (margin::Margin { top: value, ..self@ }),
    {
        let mut m = self;
        m.top = value;
        m
    }

    /// Sets the bottom margin.
    pub fn bottom(self, value: u16) -> (m: Self)
        ensures
            m@ == (margin::Margin { bottom: value, ..self@ }),
    {
        let mut m = self;
        m.bottom = value;
        m
    }

    /// Sets the left margin.
    pub fn left(self, value: u16) -> (m: Self)
        ensures
            m@ == (margin::Margin { left: value, ..self@ }),
    {
        let mut m = self;
        m.left = value;
        m
    }

    /// Sets the right margin.
    pub fn right(self, value: u16) -> (m: Self)
        ensures
            m@ == (margin::Margin { right: value, ..self@ }),
    {
        let mut m = self;
        m.right = value;
        m
    }

    fn sides(self) -> (m: margin::Margin)
        ensures
            m == self@,
    {
        margin::Margin { top: self.top, bottom: self.bottom, left: self.left, right: self.right }
    }
}

/// Calculates where a box of `width` x `height` lands in `area`.
pub fn anchor_rect(area: Rect, width: u16, height: u16, position: Position, margin: Margin) -> (r: Rect)
    ensures
        r == area::spec_anchor_rect(area, width, height, position.as_area(), margin@),
{
    area::anchor_rect(area, width, height, position.to_area(), margin.sides())
}

/// Shrinks `area` by the margin.
pub fn fill_rect(area: Rect, margin: Margin) -> (r: Rect)
    ensures
        r == area::spec_fill_rect(area, margin@),
{
    area::fill_rect(area, margin.sides())
}

} // verus!
