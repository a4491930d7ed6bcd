//! Screen rectangles and the division of the terminal into its two panels.

use vstd::prelude::*;

verus! {

/// Rows that the input panel occupies at the bottom of the screen.
pub const INPUT_PANEL_HEIGHT: u16 = 6;

/// A rectangle of terminal cells: the column and row of its upper left cell, and its extent.
#[derive(Clone, Copy, Debug, PartialEq, Eq)]
pub struct Rect {
    pub x: u16,
    pub y: u16,
    pub width: u16,
    pub height: u16,
}

impl Rect {
    /// All cells of the rectangle have coordinates that fit in a `u16`.
    pub open spec fn on_grid(self) -> bool {
        self.x + self.width <= u16::MAX && self.y + self.height <= u16::MAX
    }

    /// The part of the rectangle that lies on the grid: the origin stays, the
    /// extent is cut where a coordinate would pass `u16::MAX`.
    pub open spec fn clipped(self) -> Rect {
        Rect {
            x: self.x,
            y: self.y,
            width: if self.x + self.width <= u16::MAX {
                self.width
            } else {
                (u16::MAX - self.x) as u16
            },
            height: if self.y + self.height <= u16::MAX {
                self.height
            } else {
                (u16::MAX - self.y) as u16
            },
        }
    }

    /// Cuts the rectangle to the grid.
    pub fn clip(self) -> (r: Rect)
        ensures
            r == self.clipped(),
            r.on_grid(),
    {
        let room_x: u16 = u16::MAX - self.x;
        let room_y: u16 = u16::MAX - self.y;
        Rect {
            x: self.x,
            y: self.y,
            width: if self.width <= room_x { self.width } else { room_x },
            height: if self.height <= room_y { self.height } else { room_y },
        }
    }
}

/// The rows into which `tui` divides `area` when the upper row asks for at least
/// `top_min` lines and the lower row for exactly `bottom_len` lines.
pub uninterp spec fn vertical_split(area: Rect, top_min: u16, bottom_len: u16) -> Seq<Rect>;

/// The two wishes leave the constraint solver of `tui` a single best answer:
/// either the upper row wishes for nothing, or the area is high enough to
/// grant both.
pub open spec fn split_is_determined(area: Rect, top_min: u16, bottom_len: u16) -> bool {
    top_min == 0 || top_min + bottom_len <= area.height
}

/// Calls `tui::layout::Layout::split` on a vertical layout with the constraints
/// `Min(top_min)` and `Length(bottom_len)`.
///
/// Trusted, not proved: the result is the value that `split` computes for
/// these arguments, and it holds one rectangle per constraint, so two.
/// `split` hands its constraints to a solver that walks hash tables; where
/// `split_is_determined` holds they have one best solution, so that the same
/// arguments give the same rows in every run. `split` panics on an area whose
/// right edge does not fit in a `u16`, which `on_grid` rules out.
#[verifier::external_body]
fn split_rows(area: Rect, top_min: u16, bottom_len: u16) -> (rows: Vec<Rect>)
    requires
        area.on_grid(),
        split_is_determined(area, top_min, bottom_len),
    ensures
        rows@ == vertical_split(area, top_min, bottom_len),
        rows@.len() == 2,
{
    let constraints = [
        tui::layout::Constraint::Min(top_min),
        tui::layout::Constraint::Length(bottom_len),
    ];
    let inside = tui::layout::Rect { x: area.x, y: area.y, width: area.width, height: area.height };
    let chunks = tui::layout::Layout::default()
        .direction(tui::layout::Direction::Vertical)
        .constraints(constraints.as_ref())
        .split(inside);
    chunks.iter().map(|r| Rect { x: r.x, y: r.y, width: r.width, height: r.height }).collect()
}

/// The transcript area above and the input area below it, as `tui` lays them out
/// in the part of `area` that lies on the grid.
pub open spec fn frame_rows(area: Rect) -> (Rect, Rect) {
    let rows = vertical_split(area.clipped(), 0, INPUT_PANEL_HEIGHT);
    (rows[0], rows[1])
}

/// Divides the screen into the transcript area, which takes what height is left,
/// and the input area of `INPUT_PANEL_HEIGHT` rows below it.
pub fn split_frame(area: Rect) -> (rows: (Rect, Rect))
    ensures
        rows == frame_rows(area),
{
    let rows = split_rows(area.clip(), 0, INPUT_PANEL_HEIGHT);
    (rows[0], rows[1])
}

} // verus!
