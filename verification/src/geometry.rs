//! Rectangles of the terminal.
use vstd::prelude::*;

use crate::text::{at_most, monus};

verus! {

/// A rectangle in character cells.
#[derive(Clone, Copy, Debug, PartialEq, Eq, Structural)]
pub struct Rect {
    pub x: u16,
    pub y: u16,
    pub width: u16,
    pub height: u16,
}

impl Rect {
    /// The rectangle ends within the coordinates of a terminal.
    pub open spec fn wf(self) -> bool {
        self.x + self.width <= u16::MAX && self.y + self.height <= u16::MAX
    }

    /// The cell at `column`, `row` belongs to the rectangle.
    pub open spec fn has(self, column: int, row: int) -> bool {
        self.x <= column < self.x + self.width && self.y <= row < self.y + self.height
    }

    /// Every cell of `self` belongs to `other`.
    pub open spec fn within(self, other: Rect) -> bool {
        other.x <= self.x && self.x + self.width <= other.x + other.width && other.y <= self.y
            && self.y + self.height <= other.y + other.height
    }
}

/// The part of `area` that centres content of `content` columns.
pub open spec fn centered(area: Rect, content: int) -> Rect {
    let width = at_most(content, area.width as int);
    Rect {
        x: (area.x + (area.width - width) / 2) as u16,
        y: area.y,
        width: width as u16,
        height: area.height,
    }
}

/// The part of `area` below its first line; all of it where it has but one.
pub open spec fn below_rule(area: Rect) -> Rect {
    if area.height > 1 {
        Rect { y: (area.y + 1) as u16, height: (area.height - 1) as u16, ..area }
    } else {
        area
    }
}

/// The part of `area` below its first line; all of it where it has but one.
pub fn footer_area(area: Rect) -> (r: Rect)
    requires
        area.wf(),
    ensures
        r == below_rule(area),
        r.wf(),
{
    if area.height > 1 {
        Rect { x: area.x, y: area.y + 1, width: area.width, height: area.height - 1 }
    } else {
        area
    }
}

/// The number of blank lines above `lines` lines that centres them.
pub open spec fn centering_lines(height: int, lines: int) -> int {
    monus(height, lines) as int / 2
}

/// The part of `area` that centres content of `content` columns.
pub fn center_columns(area: Rect, content: u16) -> (r: Rect)
    requires
        area.wf(),
    ensures
        r == centered(area, content as int),
        r.within(area),
{
    let width = if content < area.width {
        content
    } else {
        area.width
    };
    Rect { x: area.x + (area.width - width) / 2, y: area.y, width, height: area.height }
}

/// The number of blank lines above `lines` lines that centres them.
pub fn center_lines(height: u16, lines: usize) -> (r: usize)
    ensures
        r == centering_lines(height as int, lines as int),
{
    (height as usize).saturating_sub(lines) / 2
}

/// Centred content leaves the same margin at both sides, up to one column.
pub proof fn centered_is_central(area: Rect, content: int)
    requires
        area.wf(),
        0 <= content,
    ensures
        ({
            let c = centered(area, content);
            let left = c.x - area.x;
            let right = area.x + area.width - c.x - c.width;
            left <= right <= left + 1
        }),
{
}

} // verus!
