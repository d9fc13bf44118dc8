//! Placing a pop-up in the middle of an area, with ratatui's layout solver.
use vstd::prelude::*;
use ratatui::layout::{Constraint, Direction, Layout, Rect};

verus! {

/// A rectangle of terminal cells.
#[derive(Debug, Clone, Copy, PartialEq, Eq, Structural)]
pub struct Area {
    pub x: u16,
    pub y: u16,
    pub width: u16,
    pub height: u16,
}

/// The direction in which an area is cut.
#[derive(Debug, Clone, Copy, PartialEq, Eq, Structural)]
pub enum Axis {
    Horizontal,
    Vertical,
}

/// The share, in percent, of the parts before part `i` of a cut into
/// `p0`, `p1` and `p2` percent.
pub open spec fn share_before(p0: u16, p1: u16, p2: u16, i: int) -> int {
    if i <= 0 {
        0
    } else if i == 1 {
        p0 as int
    } else if i == 2 {
        p0 + p1
    } else {
        p0 + p1 + p2
    }
}

/// Where a cut falls `share` percent into `extent` cells: at the nearest
/// cell, halves rounded up.
pub open spec fn cut_offset(extent: u16, share: int) -> int {
    (extent * share + 50) / 100
}

/// Part `i` of the cut of `[start, start + extent)` into `p0`, `p1`, `p2`
/// percent runs from `start + first` for `size` cells, as `(first, size)`.
pub open spec fn part_along(extent: u16, p0: u16, p1: u16, p2: u16, i: int) -> (int, int) {
    let a = cut_offset(extent, share_before(p0, p1, p2, i));
    let b = cut_offset(extent, share_before(p0, p1, p2, i + 1));
    (a, b - a)
}

/// Calls ratatui's `Layout::split` on `area` with the default layout (no
/// margin, no spacing, flex from the start) and three
/// `Constraint::Percentage` constraints that sum to at most 100, where the
/// solver meets each percentage exactly; above that its optimum is not unique
/// and the call is left out. The contract claims what the source shows: one
/// part per constraint, each keeping the position and extent of `area` across
/// the axis and lying within `area` along it; and, for an area that ends
/// within the `u16` range, each part starts and ends where its cumulative
/// percentage of the extent falls, rounded to the nearest cell.
#[verifier::external_body]
fn split_percentages(area: Area, axis: Axis, p0: u16, p1: u16, p2: u16) -> (parts: Vec<Area>)
    requires
        p0 + p1 + p2 <= 100,
    ensures
        parts@.len() == 3,
        axis == Axis::Vertical ==> forall|i: int|
            0 <= i < 3 ==> {
                &&& (#[trigger] parts@[i]).x == area.x
                &&& parts@[i].width == area.width
                &&& area.y <= parts@[i].y
                &&& parts@[i].y + parts@[i].height <= area.y + area.height
                &&& area.y + area.height <= u16::MAX ==> {
                    &&& parts@[i].y == area.y + part_along(area.height, p0, p1, p2, i).0
                    &&& parts@[i].height == part_along(area.height, p0, p1, p2, i).1
                }
            },
        axis == Axis::Horizontal ==> forall|i: int|
            0 <= i < 3 ==> {
                &&& (#[trigger] parts@[i]).y == area.y
                &&& parts@[i].height == area.height
                &&& area.x <= parts@[i].x
                &&& parts@[i].x + parts@[i].width <= area.x + area.width
                &&& area.x + area.width <= u16::MAX ==> {
                    &&& parts@[i].x == area.x + part_along(area.width, p0, p1, p2, i).0
                    &&& parts@[i].width == part_along(area.width, p0, p1, p2, i).1
                }
            },
{
    let direction = match axis {
        Axis::Horizontal => Direction::Horizontal,
        Axis::Vertical => Direction::Vertical,
    };
    let rect = Rect { x: area.x, y: area.y, width: area.width, height: area.height };
    let constraints = [Constraint::Percentage(p0), Constraint::Percentage(p1), Constraint::Percentage(p2)];
    let parts = Layout::default().direction(direction).constraints(constraints).split(rect);
    parts.iter().map(|r| Area { x: r.x, y: r.y, width: r.width, height: r.height }).collect()
}

/// The three percentages that center a part of `percent` percent: an equal
/// margin, rounded down, on each side.
pub fn centering_percentages(percent: u16) -> (p: (u16, u16, u16))
    requires
        percent <= 100,
    ensures
        p == ((100 - percent) as u16 / 2, percent, (100 - percent) as u16 / 2),
{
    let side = (100 - percent) / 2;
    (side, percent, side)
}

/// The area ends within the `u16` range on both axes, as every area that
/// ratatui hands out does.
pub open spec fn fits(r: Area) -> bool {
    r.x + r.width <= u16::MAX && r.y + r.height <= u16::MAX
}

/// The area that `centered_rect` gives for an area that fits: the middle
/// `percent_x` percent of the width and `percent_y` percent of the height, with
/// equal margins, rounded down, on each side, each edge at the nearest cell.
pub open spec fn centered(percent_x: u16, percent_y: u16, r: Area) -> (int, int, int, int) {
    let sx = (100 - percent_x) as u16 / 2;
    let sy = (100 - percent_y) as u16 / 2;
    let (fx, w) = part_along(r.width, sx, percent_x, sx, 1);
    let (fy, h) = part_along(r.height, sy, percent_y, sy, 1);
    (r.x + fx, r.y + fy, w, h)
}

/// The area `c` lies within the area `r`.
pub open spec fn within(c: Area, r: Area) -> bool {
    &&& r.x <= c.x
    &&& r.y <= c.y
    &&& c.x + c.width <= r.x + r.width
    &&& c.y + c.height <= r.y + r.height
}

/// A pop-up area in the middle of `r`, `percent_x` percent of its width and
/// `percent_y` percent of its height; it lies within `r`.
pub fn centered_rect(percent_x: u16, percent_y: u16, r: Area) -> (c: Area)
    requires
        percent_x <= 100,
        percent_y <= 100,
    ensures
        fits(r) ==> (c.x as int, c.y as int, c.width as int, c.height as int) == centered(
            percent_x,
            percent_y,
            r,
        ),
        within(c, r),
{
    let (top, middle, bottom) = centering_percentages(percent_y);
    let rows = split_percentages(r, Axis::Vertical, top, middle, bottom);
    let band = rows[1];
    let (left, center, right) = centering_percentages(percent_x);
    let columns = split_percentages(band, Axis::Horizontal, left, center, right);
    columns[1]
}

} // verus!
