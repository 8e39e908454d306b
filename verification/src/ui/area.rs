//! Placing rectangles on the screen: anchoring a box inside an area and shrinking an area by
//! a margin.
use vstd::prelude::*;
use crate::ui::margin::Margin;
use crate::ui::style_config::StyleConfig;

verus! {

/// A rectangle of terminal cells.
#[derive(Clone, Copy, Debug, PartialEq, Eq, Structural)]
pub struct Rect {
    pub x: u16,
    pub y: u16,
    pub width: u16,
    pub height: u16,
}

/// The smaller of two `u16`.
pub open spec fn min_u16(a: u16, b: u16) -> u16 {
    if a <= b { a } else { b }
}

/// The rectangle that ratatui's `Rect::new` builds: width and height are cut so that the
/// rectangle ends at or before the last cell coordinate.
pub open spec fn spec_rect(x: u16, y: u16, width: u16, height: u16) -> Rect {
    Rect { x, y, width: min_u16(width, (u16::MAX - x) as u16), height: min_u16(height, (u16::MAX - y) as u16) }
}

/// Builds a rectangle with ratatui's `Rect::new`.
/// Claimed, as its source shows: `x` and `y` are kept, and `width` and `height` are cut to
/// `u16::MAX - x` and `u16::MAX - y`.
#[verifier::external_body]
pub(crate) fn rect_new(x: u16, y: u16, width: u16, height: u16) -> (r: Rect)
    ensures
        r == spec_rect(x, y, width, height),
{
    let r = ratatui::layout::Rect::new(x, y, width, height);
    Rect { x: r.x, y: r.y, width: r.width, height: r.height }
}

/// Where a box sits inside the area it is anchored to.
#[derive(Clone, Copy, Debug, PartialEq, Eq, Structural)]
pub enum Position {
    LeftTop,
    Top,
    RightTop,
    LeftCenter,
    Center,
    RightCenter,
    LeftBottom,
    Bottom,
    RightBottom,
}

impl Default for Position {
    fn default() -> (p: Self)
        ensures
            p == Position::Center,
    {
        Position::Center
    }
}

/// Column of a box of width `width` (already cut to the area) anchored at `position`.
pub open spec fn anchor_x(area: Rect, width: u16, position: Position, margin: Margin) -> u16 {
    let base: u16 = match position {
        Position::LeftTop | Position::LeftCenter | Position::LeftBottom => 0u16,
        Position::Top | Position::Center | Position::Bottom => ((area.width - width) / 2) as u16,
        _ => (area.width - width) as u16,
    };
    base.saturating_add(margin.left).saturating_sub(margin.right)
}

/// Row of a box of height `height` (already cut to the area) anchored at `position`.
pub open spec fn anchor_y(area: Rect, height: u16, position: Position, margin: Margin) -> u16 {
    let base: u16 = match position {
        Position::LeftTop | Position::Top | Position::RightTop => 0u16,
        Position::LeftCenter | Position::Center | Position::RightCenter => ((area.height - height) / 2) as u16,
        _ => (area.height - height) as u16,
    };
    base.saturating_add(margin.top).saturating_sub(margin.bottom)
}

/// The box of the given size anchored in `area`: the size is first cut to the area's size,
/// then placed by `position` and shifted by the margin (left and top push, right and bottom
/// pull), saturating at the screen's edges.
pub open spec fn spec_anchor_rect(area: Rect, width: u16, height: u16, position: Position, margin: Margin) -> Rect {
    let w = min_u16(width, area.width);
    let h = min_u16(height, area.height);
    spec_rect(anchor_x(area, w, position, margin), anchor_y(area, h, position, margin), w, h)
}

/// Calculates where a box of `width` x `height` lands in `area`.
pub fn anchor_rect(area: Rect, width: u16, height: u16, position: Position, margin: Margin) -> (r: Rect)
    ensures
        r == spec_anchor_rect(area, width, height, position, margin),
        r.width <= area.width,
        r.height <= area.height,
{
    // Make sure that it does not pass the area width and height to prevent crash.
    let width = if width < area.width { width } else { area.width };
    let height = if height < area.height { height } else { area.height };

    let x = match position {
        Position::LeftTop | Position::LeftCenter | Position::LeftBottom => 0u16.saturating_add(
            margin.left,
        ).saturating_sub(margin.right),
        Position::Top | Position::Center | Position::Bottom => ((area.width - width) / 2).saturating_add(
            margin.left,
        ).saturating_sub(margin.right),
        Position::RightTop | Position::RightCenter | Position::RightBottom => (area.width
            - width).saturating_add(margin.left).saturating_sub(margin.right),
    };

    let y = match position {
        Position::LeftTop | Position::Top | Position::RightTop => 0u16.saturating_add(
            margin.top,
        ).saturating_sub(margin.bottom),
        Position::LeftCenter | Position::Center | Position::RightCenter => ((area.height - height)
            / 2).saturating_add(margin.top).saturating_sub(margin.bottom),
        Position::LeftBottom | Position::Bottom | Position::RightBottom => (area.height
            - height).saturating_add(margin.top).saturating_sub(margin.bottom),
    };

    rect_new(x, y, width, height)
}

/// `area` shrunk by the margin on each side (saturating at zero size).
pub open spec fn spec_fill_rect(area: Rect, margin: Margin) -> Rect {
    spec_rect(
        area.x.saturating_add(margin.left),
        area.y.saturating_add(margin.top),
        area.width.saturating_sub(margin.left).saturating_sub(margin.right),
        area.height.saturating_sub(margin.top).saturating_sub(margin.bottom),
    )
}

/// Shrinks `area` by the margin.
pub fn fill_rect(area: Rect, margin: Margin) -> (r: Rect)
    ensures
        r == spec_fill_rect(area, margin),
{
    rect_new(
        area.x.saturating_add(margin.left),
        area.y.saturating_add(margin.top),
        area.width.saturating_sub(margin.left).saturating_sub(margin.right),
        area.height.saturating_sub(margin.top).saturating_sub(margin.bottom),
    )
}

/// ratatui's kinds of border line; carried through unchanged.
#[verifier::external_type_specification]
#[verifier::external_body]
pub struct ExBorderType(ratatui::widgets::BorderType);

/// How a framed box draws its border, when inactive and when active.
pub struct Border {
    pub style_normal: StyleConfig,
    pub style_active: StyleConfig,
    pub type_normal: ratatui::widgets::BorderType,
    pub type_active: ratatui::widgets::BorderType,
}

impl Border {
    /// The border style for an active or an inactive box.
    pub open spec fn style_spec(self, active: bool) -> StyleConfig {
        if active { self.style_active } else { self.style_normal }
    }

    /// The border line kind for an active or an inactive box.
    pub open spec fn line_spec(self, active: bool) -> ratatui::widgets::BorderType {
        if active { self.type_active } else { self.type_normal }
    }

    /// The border style for an active or an inactive box.
    pub fn style(&self, active: bool) -> (r: &StyleConfig)
        ensures
            *r == if active { self.style_active } else { self.style_normal },
    {
        if active { &self.style_active } else { &self.style_normal }
    }

    /// The border line kind for an active or an inactive box.
    pub fn line(&self, active: bool) -> (r: ratatui::widgets::BorderType)
        ensures
            r == if active { self.type_active } else { self.type_normal },
    {
        if active { self.type_active } else { self.type_normal }
    }
}

/// `base` pushed by `plus` and pulled by `minus`, stopping at the edges of the `u16` range.
pub open spec fn shifted(base: int, plus: u16, minus: u16) -> int {
    let pushed = if base + plus > u16::MAX { u16::MAX as int } else { base + plus };
    if pushed - minus < 0 { 0 } else { pushed - minus }
}

/// Where an anchored box lands: its column depends only on the horizontal part of the
/// position (left: 0; top, center, bottom: half the free width; right: all the free width,
/// each then shifted by the left and right margins), its row only on the vertical part, and
/// its size is the requested size cut to the area (and to the last cell).
pub proof fn lemma_anchor_rect_follows_position(area: Rect, width: u16, height: u16, position: Position, margin: Margin)
    ensures
        ({
            let r = spec_anchor_rect(area, width, height, position, margin);
            let w: int = if width <= area.width { width as int } else { area.width as int };
            let h: int = if height <= area.height { height as int } else { area.height as int };
            &&& r.x == match position {
                Position::LeftTop | Position::LeftCenter | Position::LeftBottom => shifted(0, margin.left, margin.right),
                Position::Top | Position::Center | Position::Bottom => shifted(
                    (area.width - w) / 2,
                    margin.left,
                    margin.right,
                ),
                Position::RightTop | Position::RightCenter | Position::RightBottom => shifted(
                    area.width - w,
                    margin.left,
                    margin.right,
                ),
            }
            &&& r.y == match position {
                Position::LeftTop | Position::Top | Position::RightTop => shifted(0, margin.top, margin.bottom),
                Position::LeftCenter | Position::Center | Position::RightCenter => shifted(
                    (area.height - h) / 2,
                    margin.top,
                    margin.bottom,
                ),
                Position::LeftBottom | Position::Bottom | Position::RightBottom => shifted(
                    area.height - h,
                    margin.top,
                    margin.bottom,
                ),
            }
            &&& r.width == if w <= u16::MAX - r.x { w } else { u16::MAX - r.x }
            &&& r.height == if h <= u16::MAX - r.y { h } else { u16::MAX - r.y }
        }),
{
}

/// The column of an anchored box depends only on the horizontal part of the position: the
/// three positions of a column land at the same `x`; the three positions of a row land at the
/// same `y`.
pub proof fn lemma_anchor_column_and_row(area: Rect, width: u16, height: u16, margin: Margin)
    ensures
        spec_anchor_rect(area, width, height, Position::Top, margin).x == spec_anchor_rect(area, width, height, Position::Center, margin).x,
        spec_anchor_rect(area, width, height, Position::Center, margin).x == spec_anchor_rect(area, width, height, Position::Bottom, margin).x,
        spec_anchor_rect(area, width, height, Position::LeftTop, margin).x == spec_anchor_rect(area, width, height, Position::LeftBottom, margin).x,
        spec_anchor_rect(area, width, height, Position::RightTop, margin).x == spec_anchor_rect(area, width, height, Position::RightBottom, margin).x,
        spec_anchor_rect(area, width, height, Position::LeftCenter, margin).y == spec_anchor_rect(area, width, height, Position::RightCenter, margin).y,
        spec_anchor_rect(area, width, height, Position::LeftBottom, margin).y == spec_anchor_rect(area, width, height, Position::Bottom, margin).y,
        spec_anchor_rect(area, width, height, Position::Top, margin).y == spec_anchor_rect(area, width, height, Position::RightTop, margin).y,
{
    lemma_anchor_rect_follows_position(area, width, height, Position::Top, margin);
    lemma_anchor_rect_follows_position(area, width, height, Position::Center, margin);
    lemma_anchor_rect_follows_position(area, width, height, Position::Bottom, margin);
}

} // verus!
