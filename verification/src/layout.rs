use vstd::prelude::*;
use ratatui::layout::{Constraint, Rect};
use ratatui::style::Style;
use ratatui::widgets::BorderType;
use tui_additions::widgets::{Grid, GridError};

verus! {

#[verifier::external_type_specification]
#[verifier::external_body]
pub struct ExGridError(GridError);

/// A rectangle of terminal cells.
#[derive(Clone, Copy)]
pub struct Area {
    pub x: u16,
    pub y: u16,
    pub width: u16,
    pub height: u16,
}

impl Area {
    /// The rectangle lies within the coordinates a terminal can address.
    pub open spec fn valid(self) -> bool {
        self.x + self.width <= u16::MAX && self.y + self.height <= u16::MAX
    }

    /// The first column to the right of the rectangle, at most `u16::MAX`.
    pub open spec fn right(self) -> int {
        if self.x + self.width <= u16::MAX {
            self.x + self.width
        } else {
            u16::MAX as int
        }
    }

    /// The first row below the rectangle, at most `u16::MAX`.
    pub open spec fn bottom(self) -> int {
        if self.y + self.height <= u16::MAX {
            self.y + self.height
        } else {
            u16::MAX as int
        }
    }

    /// The two rectangles share a cell.
    pub open spec fn meets(self, other: Area) -> bool {
        &&& self.x < other.right()
        &&& self.right() > other.x
        &&& self.y < other.bottom()
        &&& self.bottom() > other.y
    }
}

/// The rectangle that `Rect::new` makes: the width and height shrink so that
/// the right and bottom edges stay within `u16`.
pub open spec fn rect_spec(x: u16, y: u16, width: u16, height: u16) -> Area {
    Area {
        x,
        y,
        width: (if x + width <= u16::MAX { width as int } else { u16::MAX - x }) as u16,
        height: (if y + height <= u16::MAX { height as int } else { u16::MAX - y }) as u16,
    }
}

/// The sum of a sequence of percentages.
pub open spec fn percent_total(s: Seq<u16>) -> int
    decreases s.len(),
{
    if s.len() == 0 {
        0
    } else {
        percent_total(s.drop_last()) + s.last()
    }
}

/// The layout of a grid widget: one row of the given percentage, split into
/// columns of the given percentages.
#[derive(Clone)]
pub struct GridLayout {
    pub columns: Vec<u16>,
    pub rows: Vec<u16>,
}

impl GridLayout {
    /// A layout that the grid widget can split any area by: one row, and
    /// columns that together take no more than the whole width.
    pub open spec fn wf(self) -> bool {
        &&& self.rows@.len() == 1
        &&& 0 < self.columns@.len() <= 100
        &&& percent_total(self.columns@) <= 100
    }

    /// An area that the grid splits: wide enough for every column and its
    /// borders, and high enough for every row and its border.
    pub open spec fn splits(self, area: Area) -> bool {
        area.width >= self.columns@.len() + 2 && area.height >= self.rows@.len() + 1
    }

    /// Makes the layout of a grid, failing as `Grid::new` does when there is
    /// no column or no row.
    pub fn new(columns: Vec<u16>, rows: Vec<u16>) -> (r: Result<GridLayout, GridError>)
        ensures
            r.is_ok() == (columns@.len() > 0 && rows@.len() > 0),
            r matches Ok(g) ==> g.columns@ == columns@ && g.rows@ == rows@,
    {
        match grid_new(&columns, &rows) {
            Ok(()) => Ok(GridLayout { columns, rows }),
            Err(e) => Err(e),
        }
    }
}

/// The cells of a grid: one sequence per row, one area per column, as
/// `Grid::chunks` computes them for a grid of these column and row
/// percentages over this area.
pub uninterp spec fn grid_chunks_of(columns: Seq<u16>, rows: Seq<u16>, area: Area) -> Seq<Seq<Area>>;

/// The views of the rows of a grid's cells.
pub open spec fn cells_view(v: Seq<Vec<Area>>) -> Seq<Seq<Area>> {
    v.map_values(|row: Vec<Area>| row@)
}

/// Checks that a grid of these columns and rows can be made.
///
/// Trusted: calls `Grid::new` with a percentage constraint for each entry and
/// claims what its source does: it fails exactly when there is no column or
/// no row.
#[verifier::external_body]
fn grid_new(columns: &Vec<u16>, rows: &Vec<u16>) -> (r: Result<(), GridError>)
    ensures
        r.is_ok() == (columns@.len() > 0 && rows@.len() > 0),
{
    Grid::new(
        columns.iter().map(|p| Constraint::Percentage(*p)).collect(),
        rows.iter().map(|p| Constraint::Percentage(*p)).collect(),
    ).map(|_| ())
}

/// Splits an area into the cells of a grid.
///
/// Trusted: calls `Grid::chunks` on a grid of these percentage constraints.
/// What it claims, as its source shows: it fails exactly when the area is
/// narrower than the columns and their borders or lower than the rows and
/// their border; otherwise it gives one row of cells per row and one cell per
/// column, each within the addressable coordinates, and the cells are named
/// by `grid_chunks_of`. The inputs on which its arithmetic would overflow
/// (an area of width zero, or out of range; several rows; columns that take
/// more than the whole width) are left out.
#[verifier::external_body]
pub(crate) fn grid_chunks(layout: &GridLayout, area: Area) -> (r: Result<Vec<Vec<Area>>, GridError>)
    requires
        layout.wf(),
        area.valid(),
        area.width >= 1,
    ensures
        r.is_ok() == layout.splits(area),
        r matches Ok(v) ==> cells_view(v@) == grid_chunks_of(layout.columns@, layout.rows@, area),
        r matches Ok(v) ==> v@.len() == layout.rows@.len(),
        r matches Ok(v) ==> forall|i: int|
            0 <= i < v@.len() ==> #[trigger] v@[i]@.len() == layout.columns@.len(),
        r matches Ok(v) ==> forall|i: int, j: int|
            0 <= i < v@.len() && 0 <= j < v@[i]@.len() ==> (#[trigger] v@[i]@[j]).valid(),
{
    let grid = Grid {
        widths: layout.columns.iter().map(|p| Constraint::Percentage(*p)).collect(),
        heights: layout.rows.iter().map(|p| Constraint::Percentage(*p)).collect(),
        border_type: BorderType::Plain,
        border_style: Style::default(),
    };
    let cells = grid.chunks(Rect { x: area.x, y: area.y, width: area.width, height: area.height });
    cells.map(|rows| {
        rows.into_iter().map(|row| {
            row.into_iter().map(|c| Area { x: c.x, y: c.y, width: c.width, height: c.height }).collect()
        }).collect()
    })
}

/// Makes a rectangle.
///
/// Trusted: calls `Rect::new`, which, as its documentation says, shrinks the
/// width and height so that the right and bottom edges stay within `u16`.
#[verifier::external_body]
pub(crate) fn rect_new(x: u16, y: u16, width: u16, height: u16) -> (r: Area)
    ensures
        r == rect_spec(x, y, width, height),
{
    let r = Rect::new(x, y, width, height);
    Area { x: r.x, y: r.y, width: r.width, height: r.height }
}

/// Whether two rectangles share a cell.
///
/// Trusted: calls `Rect::intersects`, whose source compares each rectangle's
/// left and top edges with the other's right and bottom edges, those clamped
/// to `u16::MAX`.
#[verifier::external_body]
pub(crate) fn rect_intersects(a: Area, b: Area) -> (r: bool)
    ensures
        r == a.meets(b),
{
    let a = Rect { x: a.x, y: a.y, width: a.width, height: a.height };
    a.intersects(Rect { x: b.x, y: b.y, width: b.width, height: b.height })
}

} // verus!
