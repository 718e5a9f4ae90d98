//! Rectangles of character cells, and the two operations on them that are
//! left to the terminal toolkit.

use vstd::prelude::*;

use tui::layout::{Constraint, Direction, Layout, Rect};

verus! {

/// A rectangle of character cells on the drawing surface.
#[derive(Copy, Clone, Debug, PartialEq, Eq, Structural)]
pub struct Region {
    pub x: u16,
    pub y: u16,
    pub width: u16,
    pub height: u16,
}

/// The direction in which an area is cut into chunks.
#[derive(Copy, Clone, Debug, PartialEq, Eq, Structural)]
pub enum Axis {
    /// Chunks lie side by side.
    Horizontal,
    /// Chunks lie one below the other.
    Vertical,
}

/// The width and height that the toolkit gives a rectangle whose area would
/// not fit in sixteen bits.
pub uninterp spec fn clipped_size(width: u16, height: u16) -> (u16, u16);

/// The rectangle at `(x, y)` that the toolkit makes of a width and a height:
/// the two as they are while their product fits in sixteen bits, and shrunk
/// to `clipped_size` beyond that.
pub open spec fn clipped(x: u16, y: u16, width: u16, height: u16) -> Region {
    if width * height <= u16::MAX {
        Region { x, y, width, height }
    } else {
        Region { x, y, width: clipped_size(width, height).0, height: clipped_size(width, height).1 }
    }
}

/// `tui::layout::Rect::new`, on plain numbers.
///
/// Assumed, not proved: the corner is kept; width and height are kept while
/// their product is at most 65535; beyond that the toolkit shrinks both by a
/// square-root formula that depends on the two numbers alone, and what it
/// arrives at is called `clipped_size`.
#[verifier::external_body]
pub(crate) fn rect_new(x: u16, y: u16, width: u16, height: u16) -> (region: Region)
    ensures
        region.x == x,
        region.y == y,
        width * height <= u16::MAX ==> region.width == width && region.height == height,
        width * height > u16::MAX ==> (region.width, region.height) == clipped_size(width, height),
{
    let rect = Rect::new(x, y, width, height);
    Region { x: rect.x, y: rect.y, width: rect.width, height: rect.height }
}

/// The area ends within the range of sixteen-bit coordinates.
pub open spec fn in_range(area: Region) -> bool {
    area.x + area.width <= u16::MAX && area.y + area.height <= u16::MAX
}

/// The chunk lies inside the area.
pub open spec fn inside(chunk: Region, area: Region) -> bool {
    &&& area.x <= chunk.x
    &&& area.y <= chunk.y
    &&& chunk.x + chunk.width <= area.x + area.width
    &&& chunk.y + chunk.height <= area.y + area.height
}

/// Across the cut the chunk is as long as the area: a row of a vertical cut
/// has the area's left edge and width, a column of a horizontal cut its top
/// edge and height.
pub open spec fn spans(chunk: Region, area: Region, axis: Axis) -> bool {
    match axis {
        Axis::Vertical => chunk.x == area.x && chunk.width == area.width,
        Axis::Horizontal => chunk.y == area.y && chunk.height == area.height,
    }
}

/// The chunks are a cut of the area along an axis: each lies inside the area
/// and spans it across the cut.
pub open spec fn cut_of(chunks: Seq<Region>, area: Region, axis: Axis) -> bool {
    forall|i: int|
        0 <= i < chunks.len() ==> inside(#[trigger] chunks[i], area) && spans(chunks[i], area, axis)
}

/// `tui::layout::Layout::split`, with every constraint a wished-for length and
/// no margin.
///
/// Assumed, not proved: one chunk comes back for each length; every chunk
/// lies inside the area and spans it across the cut. These are the
/// constraints that the toolkit hands its solver as required, and the solver
/// documents that it never violates a required constraint. Nothing is assumed
/// of where along the cut the chunks lie: the solver decides that, and it
/// treats the lengths as wishes.
///
/// An area that ends beyond the sixteen-bit range is left out: on such an
/// area the toolkit's required constraints contradict each other and it does
/// not return.
#[verifier::external_body]
pub(crate) fn split_lengths(axis: Axis, lengths: &Vec<u16>, area: Region) -> (chunks: Vec<Region>)
    requires
        in_range(area),
    ensures
        chunks@.len() == lengths@.len(),
        cut_of(chunks@, area, axis),
{
    let direction = match axis {
        Axis::Horizontal => Direction::Horizontal,
        Axis::Vertical => Direction::Vertical,
    };
    let constraints: Vec<Constraint> = lengths.iter().map(|l| Constraint::Length(*l)).collect();
    let rect = Rect { x: area.x, y: area.y, width: area.width, height: area.height };
    let chunks = Layout::default().direction(direction).constraints(constraints).split(rect);
    chunks.iter().map(|r| Region { x: r.x, y: r.y, width: r.width, height: r.height }).collect()
}

} // verus!
