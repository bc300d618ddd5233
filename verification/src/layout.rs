//! Cell rectangles and the two-by-two grid of dashboard panels.

use vstd::prelude::*;

verus! {

/// The share of an area, in percent, that each half of a split is asked for.
pub const HALF: u16 = 50;

/// A rectangle of terminal cells: its top left corner and its size.
#[derive(Clone, Copy, Debug, PartialEq, Eq, Structural)]
pub struct Rect {
    pub x: u16,
    pub y: u16,
    pub width: u16,
    pub height: u16,
}

/// The largest extent that keeps a rectangle starting at `origin` on the grid.
pub open spec fn clamped_extent(origin: u16, extent: u16) -> u16 {
    if extent > u16::MAX - origin {
        (u16::MAX - origin) as u16
    } else {
        extent
    }
}

/// The larger half of `length`: half of it, and the odd cell if there is one.
pub open spec fn larger_half(length: int) -> int {
    (length + 1) / 2
}

impl Rect {
    /// A rectangle at `(x, y)`. A width or height that would carry the right
    /// or bottom edge past the last addressable cell is cut back to it.
    pub fn new(x: u16, y: u16, width: u16, height: u16) -> (rect: Rect)
        ensures
            rect == (Rect {
                x,
                y,
                width: clamped_extent(x, width),
                height: clamped_extent(y, height),
            }),
            rect.on_grid(),
    {
        let max_width = u16::MAX - x;
        let max_height = u16::MAX - y;
        Rect {
            x,
            y,
            width: if width > max_width { max_width } else { width },
            height: if height > max_height { max_height } else { height },
        }
    }

    /// The right edge is an addressable column.
    pub open spec fn columns_on_grid(self) -> bool {
        self.x + self.width <= u16::MAX
    }

    /// The bottom edge is an addressable row.
    pub open spec fn rows_on_grid(self) -> bool {
        self.y + self.height <= u16::MAX
    }

    /// The rectangle ends on the grid of addressable cells.
    pub open spec fn on_grid(self) -> bool {
        self.columns_on_grid() && self.rows_on_grid()
    }

    /// The column just past the right edge, or the last addressable column
    /// where the rectangle would reach further.
    pub open spec fn right(self) -> int {
        if self.x + self.width > u16::MAX {
            u16::MAX as int
        } else {
            self.x + self.width
        }
    }

    /// The row just past the bottom edge, or the last addressable row where
    /// the rectangle would reach further.
    pub open spec fn bottom(self) -> int {
        if self.y + self.height > u16::MAX {
            u16::MAX as int
        } else {
            self.y + self.height
        }
    }

    /// The rectangle begins and ends between the left and the right edge of
    /// `area`.
    pub open spec fn columns_within(self, area: Rect) -> bool {
        area.x <= self.x && self.x + self.width <= area.right()
    }

    /// The rectangle begins and ends between the top and the bottom edge of
    /// `area`.
    pub open spec fn rows_within(self, area: Rect) -> bool {
        area.y <= self.y && self.y + self.height <= area.bottom()
    }

    /// The rectangle lies inside `area`: it has no cell that `area` lacks.
    pub open spec fn within(self, area: Rect) -> bool {
        self.columns_within(area) && self.rows_within(area)
    }

    /// The left half of the rectangle: its rows, and the larger half of its
    /// columns.
    pub open spec fn left_half(self) -> Rect {
        Rect { width: larger_half(self.right() - self.x) as u16, ..self }
    }

    /// The right half of the rectangle: its rows, and the columns that the
    /// left half leaves.
    pub open spec fn right_half(self) -> Rect {
        Rect {
            x: (self.x + self.left_half().width) as u16,
            width: (self.right() - self.x - self.left_half().width) as u16,
            ..self
        }
    }

    /// The upper half of the rectangle: its columns, and the larger half of
    /// its rows.
    pub open spec fn upper_half(self) -> Rect {
        Rect { height: larger_half(self.bottom() - self.y) as u16, ..self }
    }

    /// The lower half of the rectangle: its columns, and the rows that the
    /// upper half leaves.
    pub open spec fn lower_half(self) -> Rect {
        Rect {
            y: (self.y + self.upper_half().height) as u16,
            height: (self.bottom() - self.y - self.upper_half().height) as u16,
            ..self
        }
    }

    /// `left` and `right` stand side by side and fill the columns of the
    /// rectangle: `left` begins at its left edge, `right` begins where `left`
    /// ends, and ends at its right edge.
    pub open spec fn filled_by_columns(self, left: Rect, right: Rect) -> bool {
        &&& left.x == self.x
        &&& right.x == left.x + left.width
        &&& right.x + right.width == self.right()
    }

    /// `upper` and `lower` stand one above the other and fill the rows of the
    /// rectangle: `upper` begins at its top edge, `lower` begins where `upper`
    /// ends, and ends at its bottom edge.
    pub open spec fn filled_by_rows(self, upper: Rect, lower: Rect) -> bool {
        &&& upper.y == self.y
        &&& lower.y == upper.y + upper.height
        &&& lower.y + lower.height == self.bottom()
    }

    /// Both rectangles cover the same rows.
    pub open spec fn same_rows(self, other: Rect) -> bool {
        self.y == other.y && self.height == other.height
    }

    /// Both rectangles cover the same columns.
    pub open spec fn same_columns(self, other: Rect) -> bool {
        self.x == other.x && self.width == other.width
    }
}

/// Splits `area` into a left and a right part with
/// `ratatui::layout::Layout::horizontal` and `Layout::areas`, asking for
/// `first` and `second` percent of the width, with no margin, no spacing and
/// the default flex.
///
/// Believed of the outside crate, not proved:
/// - Each part takes its `y` and its `height` from `area`.
/// - Each part begins and ends between the left and the right edge of `area`.
///   The crate hands its solver, as required constraints, that every edge of
///   a part lies between those two and that no part ends before it begins;
///   the solver's documentation says that a required constraint cannot be
///   violated; the crate then rounds each edge to a whole column.
/// - Where the two shares add up to the whole, the parts fill the columns of
///   `area` side by side. Besides the required constraints the crate asks
///   that the gap before the first part be empty, that the gap between the
///   parts be as wide as the spacing, which is none, and that each part have
///   its share of the width. With shares that add up to the whole all of this
///   can be had at once, so the solver has one answer: the left edge, the cut,
///   the right edge.
/// - Where each share is half, the left part has the larger half. The cut
///   then lies at half the width, and the crate rounds an edge that falls in
///   the middle of a column to the right.
///
/// Nothing is claimed of shares that do not add up to the whole beyond the
/// first two points, nor of the cut between unequal shares.
#[verifier::external_body]
fn split_columns(area: Rect, first: u16, second: u16) -> (parts: (Rect, Rect))
    ensures
        parts.0.same_rows(area),
        parts.1.same_rows(area),
        parts.0.columns_within(area),
        parts.1.columns_within(area),
        first + second == 100 ==> area.filled_by_columns(parts.0, parts.1),
        first == 50 && second == 50 ==> parts.0.width == larger_half(area.right() - area.x),
{
    let whole = ratatui::layout::Rect { x: area.x, y: area.y, width: area.width, height: area.height };
    let shares = ratatui::layout::Constraint::from_percentages([first, second]);
    let [a, b]: [ratatui::layout::Rect; 2] = ratatui::layout::Layout::horizontal(shares).areas(whole);
    (
        Rect { x: a.x, y: a.y, width: a.width, height: a.height },
        Rect { x: b.x, y: b.y, width: b.width, height: b.height },
    )
}

/// Splits `area` into an upper and a lower part with
/// `ratatui::layout::Layout::vertical` and `Layout::areas`, asking for `first`
/// and `second` percent of the height, with no margin, no spacing and the
/// default flex.
///
/// Believed of the outside crate, not proved, each for the reasons given for
/// `split_columns`:
/// - Each part takes its `x` and its `width` from `area`.
/// - Each part begins and ends between the top and the bottom edge of `area`.
/// - Where the two shares add up to the whole, the parts fill the rows of
///   `area` one above the other.
/// - Where each share is half, the upper part has the larger half.
///
/// Nothing is claimed of shares that do not add up to the whole beyond the
/// first two points, nor of the cut between unequal shares.
#[verifier::external_body]
fn split_rows(area: Rect, first: u16, second: u16) -> (parts: (Rect, Rect))
    ensures
        parts.0.same_columns(area),
        parts.1.same_columns(area),
        parts.0.rows_within(area),
        parts.1.rows_within(area),
        first + second == 100 ==> area.filled_by_rows(parts.0, parts.1),
        first == 50 && second == 50 ==> parts.0.height == larger_half(area.bottom() - area.y),
{
    let whole = ratatui::layout::Rect { x: area.x, y: area.y, width: area.width, height: area.height };
    let shares = ratatui::layout::Constraint::from_percentages([first, second]);
    let [a, b]: [ratatui::layout::Rect; 2] = ratatui::layout::Layout::vertical(shares).areas(whole);
    (
        Rect { x: a.x, y: a.y, width: a.width, height: a.height },
        Rect { x: b.x, y: b.y, width: b.width, height: b.height },
    )
}

/// The four panels of the dashboard.
#[derive(Clone, Copy, Debug, PartialEq, Eq, Structural)]
pub struct PanelAreas {
    pub top_left: Rect,
    pub top_right: Rect,
    pub bottom_left: Rect,
    pub bottom_right: Rect,
}

impl PanelAreas {
    /// The panels form two columns: in each, the upper and the lower panel
    /// cover the same columns of cells.
    pub open spec fn in_two_columns(self) -> bool {
        &&& self.top_left.same_columns(self.bottom_left)
        &&& self.top_right.same_columns(self.bottom_right)
    }

    /// The four quarters of `area`: its left and its right half, each cut
    /// into its upper and its lower half.
    pub open spec fn quarters(area: Rect) -> PanelAreas {
        PanelAreas {
            top_left: area.left_half().upper_half(),
            top_right: area.right_half().upper_half(),
            bottom_left: area.left_half().lower_half(),
            bottom_right: area.right_half().lower_half(),
        }
    }

    /// The panels tile `area`: the two upper panels fill its columns side by
    /// side from its top edge, and in each column the lower panel fills the
    /// rows down to its bottom edge.
    pub open spec fn tiles(self, area: Rect) -> bool {
        &&& area.filled_by_columns(self.top_left, self.top_right)
        &&& self.in_two_columns()
        &&& area.filled_by_rows(self.top_left, self.bottom_left)
        &&& area.filled_by_rows(self.top_right, self.bottom_right)
    }

    /// Every panel lies inside `area`.
    pub open spec fn within(self, area: Rect) -> bool {
        &&& self.top_left.within(area)
        &&& self.top_right.within(area)
        &&& self.bottom_left.within(area)
        &&& self.bottom_right.within(area)
    }

    /// Every panel ends on the grid of addressable cells.
    pub open spec fn on_grid(self) -> bool {
        &&& self.top_left.on_grid()
        &&& self.top_right.on_grid()
        &&& self.bottom_left.on_grid()
        &&& self.bottom_right.on_grid()
    }

    /// The grid whose left column was cut into `left` and whose right column
    /// into `right`, each given as upper part, then lower part.
    pub fn from_columns(left: (Rect, Rect), right: (Rect, Rect)) -> (panels: PanelAreas)
        ensures
            panels == (PanelAreas {
                top_left: left.0,
                top_right: right.0,
                bottom_left: left.1,
                bottom_right: right.1,
            }),
    {
        PanelAreas { top_left: left.0, top_right: right.0, bottom_left: left.1, bottom_right: right.1 }
    }

    /// Cuts `area` into two columns of equal share, then each column into two
    /// rows of equal share: the result is the four quarters of `area`, the
    /// larger half of an odd width to the left and of an odd height on top.
    /// So the panels tile `area`, lie inside it, stand in two columns and end
    /// on the grid.
    pub fn grid(area: Rect) -> (panels: PanelAreas)
        ensures
            panels == PanelAreas::quarters(area),
            panels.tiles(area),
            panels.within(area),
            panels.in_two_columns(),
            panels.on_grid(),
    {
        let (left, right) = split_columns(area, HALF, HALF);
        let left_rows = split_rows(left, HALF, HALF);
        let right_rows = split_rows(right, HALF, HALF);
        PanelAreas::from_columns(left_rows, right_rows)
    }
}

} // verus!
