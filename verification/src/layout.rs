//! Placing the help popup on the screen.
use vstd::prelude::*;
use ratatui::layout::{Constraint, Direction, Layout, Rect};

verus! {

/// A rectangle of terminal cells: its top left corner and its size.
#[derive(Clone, Copy, PartialEq, Eq, Structural, Debug)]
pub struct Area {
    pub x: u16,
    pub y: u16,
    pub width: u16,
    pub height: u16,
}

/// The direction in which an area is cut into parts.
#[derive(Clone, Copy, PartialEq, Eq, Structural, Debug)]
pub enum Split {
    /// Parts stacked from top to bottom.
    Vertical,
    /// Parts side by side from left to right.
    Horizontal,
}

/// What one part of a split asks for.
#[derive(Clone, Copy, PartialEq, Eq, Structural, Debug)]
pub enum Portion {
    /// Exactly this many cells.
    Length(u16),
    /// At least this many cells, and whatever is left over.
    Min(u16),
    /// This percentage of the area.
    Percentage(u16),
}

/// The parts that ratatui's layout solver cuts `area` into, in `direction`,
/// when each part asks for the corresponding portion.
pub uninterp spec fn area_split(direction: Split, portions: Seq<Portion>, area: Area) -> Seq<Area>;

/// Whether `part` is a slice of `area` across `direction`: it spans the whole
/// area in the other direction and lies inside the area in this one.
pub open spec fn slice_of(direction: Split, part: Area, area: Area) -> bool {
    match direction {
        Split::Vertical => {
            &&& part.x == area.x
            &&& part.width == area.width
            &&& area.y <= part.y
            &&& part.y + part.height <= area.y + area.height
        },
        Split::Horizontal => {
            &&& part.y == area.y
            &&& part.height == area.height
            &&& area.x <= part.x
            &&& part.x + part.width <= area.x + area.width
        },
    }
}

/// Whether `inner` lies inside `outer`.
pub open spec fn inside(inner: Area, outer: Area) -> bool {
    &&& outer.x <= inner.x
    &&& inner.x + inner.width <= outer.x + outer.width
    &&& outer.y <= inner.y
    &&& inner.y + inner.height <= outer.y + outer.height
}

/// Cuts `area` into one part per portion.
///
/// Calls `ratatui::layout::Layout::split` on a default layout (no margin, no
/// spacing, flex `Start`) with the given direction and constraints. The
/// contract names the result and states what the source shows plainly: there
/// is one part per constraint, and each part keeps the area's extent across the
/// direction (`changes_to_rects`) and lies inside the area along it (every
/// solver variable is held between the area's start and end by required
/// constraints, and the end is the area's saturated far edge). Where exactly the
/// parts fall is the solver's business and left unsaid.
#[verifier::external_body]
fn split_area(direction: Split, portions: &Vec<Portion>, area: Area) -> (parts: Vec<Area>)
    ensures
        parts@ == area_split(direction, portions@, area),
        parts@.len() == portions@.len(),
        forall|i: int| 0 <= i < parts@.len() ==> slice_of(direction, #[trigger] parts@[i], area),
{
    let direction = match direction {
        Split::Vertical => Direction::Vertical,
        Split::Horizontal => Direction::Horizontal,
    };
    let constraints = portions.iter().map(|p| match *p {
        Portion::Length(n) => Constraint::Length(n),
        Portion::Min(n) => Constraint::Min(n),
        Portion::Percentage(n) => Constraint::Percentage(n),
    });
    let rect = Rect { x: area.x, y: area.y, width: area.width, height: area.height };
    let rects = Layout::default().direction(direction).constraints(constraints).split(rect);
    rects.iter().map(|r| Area { x: r.x, y: r.y, width: r.width, height: r.height }).collect()
}

/// The portions that put a part of `percent` per cent in the middle, with
/// equal margins around it.
pub open spec fn centered_portions(percent: u16) -> Seq<Portion> {
    let margin = ((100 - percent) / 2) as u16;
    seq![Portion::Percentage(margin), Portion::Percentage(percent), Portion::Percentage(margin)]
}

/// The three portions that centre a part of `percent` per cent.
pub fn centered_constraints(percent: u16) -> (portions: Vec<Portion>)
    requires
        percent <= 100,
    ensures
        portions@ == centered_portions(percent),
{
    let margin = (100 - percent) / 2;
    let mut portions: Vec<Portion> = Vec::new();
    portions.push(Portion::Percentage(margin));
    portions.push(Portion::Percentage(percent));
    portions.push(Portion::Percentage(margin));
    assert(portions@ =~= centered_portions(percent));
    portions
}

proof fn lemma_slice_inside(direction: Split, part: Area, area: Area, outer: Area)
    requires
        slice_of(direction, part, area),
        inside(area, outer),
    ensures
        inside(part, outer),
{
}

/// The rectangle centred in `r` that takes `percent_x` per cent of its width
/// and `percent_y` per cent of its height: the middle row of `r`, then the
/// middle column of that row. It lies inside `r`.
pub fn centered_rect(percent_x: u16, percent_y: u16, r: Area) -> (popup: Area)
    requires
        percent_x <= 100,
        percent_y <= 100,
    ensures
        popup == area_split(
            Split::Horizontal,
            centered_portions(percent_x),
            area_split(Split::Vertical, centered_portions(percent_y), r)[1],
        )[1],
        inside(popup, r),
{
    let rows = split_area(Split::Vertical, &centered_constraints(percent_y), r);
    let columns = split_area(Split::Horizontal, &centered_constraints(percent_x), rows[1]);
    proof {
        lemma_slice_inside(Split::Vertical, rows@[1], r, r);
        lemma_slice_inside(Split::Horizontal, columns@[1], rows@[1], r);
    }
    columns[1]
}

/// The panes of the screen.
pub struct ScreenAreas {
    pub search: Area,
    pub list: Area,
    pub details: Area,
    pub status: Area,
}

/// The screen's rows: the search box and the status line three cells high,
/// the rest for the panes between them.
pub open spec fn row_portions() -> Seq<Portion> {
    seq![Portion::Length(3), Portion::Min(0), Portion::Length(3)]
}

/// The middle row's columns: 40 per cent for the list, 60 for the details.
pub open spec fn column_portions() -> Seq<Portion> {
    seq![Portion::Percentage(40), Portion::Percentage(60)]
}

/// Where each pane of the screen goes; every pane lies inside the screen.
pub fn screen_areas(screen: Area) -> (panes: ScreenAreas)
    ensures
        ({
            let rows = area_split(Split::Vertical, row_portions(), screen);
            let columns = area_split(Split::Horizontal, column_portions(), rows[1]);
            &&& panes.search == rows[0]
            &&& panes.list == columns[0]
            &&& panes.details == columns[1]
            &&& panes.status == rows[2]
        }),
        inside(panes.search, screen),
        inside(panes.list, screen),
        inside(panes.details, screen),
        inside(panes.status, screen),
{
    let mut rows_wanted: Vec<Portion> = Vec::new();
    rows_wanted.push(Portion::Length(3));
    rows_wanted.push(Portion::Min(0));
    rows_wanted.push(Portion::Length(3));
    assert(rows_wanted@ =~= row_portions());
    let rows = split_area(Split::Vertical, &rows_wanted, screen);
    let mut columns_wanted: Vec<Portion> = Vec::new();
    columns_wanted.push(Portion::Percentage(40));
    columns_wanted.push(Portion::Percentage(60));
    assert(columns_wanted@ =~= column_portions());
    let columns = split_area(Split::Horizontal, &columns_wanted, rows[1]);
    proof {
        lemma_slice_inside(Split::Vertical, rows@[0], screen, screen);
        lemma_slice_inside(Split::Vertical, rows@[1], screen, screen);
        lemma_slice_inside(Split::Vertical, rows@[2], screen, screen);
        lemma_slice_inside(Split::Horizontal, columns@[0], rows@[1], screen);
        lemma_slice_inside(Split::Horizontal, columns@[1], rows@[1], screen);
    }
    ScreenAreas { search: rows[0], list: columns[0], details: columns[1], status: rows[2] }
}

} // verus!
