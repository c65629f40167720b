//! Where the panels and the buttons stand on the screen.

use ratatui::layout as tui;
use vstd::prelude::*;

verus! {

/// A rectangle of terminal cells.
#[derive(Debug, Clone, Copy, PartialEq, Eq, Structural)]
pub struct Area {
    pub x: u16,
    pub y: u16,
    pub width: u16,
    pub height: u16,
}

/// The axis along which an area is split.
#[derive(Debug, Clone, Copy, PartialEq, Eq, Structural)]
pub enum Direction {
    Horizontal,
    Vertical,
}

/// What a part of a split area asks for.
#[derive(Debug, Clone, Copy, PartialEq, Eq, Structural)]
pub enum Constraint {
    /// So many cells.
    Length(u16),
    /// So many hundredths of the whole.
    Percentage(u16),
    /// So many cells at least.
    Min(u16),
}

/// The four panels of the screen, from top to bottom.
#[derive(Debug, Clone, Copy, PartialEq, Eq, Structural)]
pub struct Rows {
    pub status: Area,
    pub list: Area,
    pub details: Area,
    pub bar: Area,
}

/// The buttons of the bar, from left to right, and the room for a hint behind them.
#[derive(Debug, Clone, Copy, PartialEq, Eq, Structural)]
pub struct Buttons {
    pub start: Area,
    pub pause: Area,
    pub stop: Area,
    pub clear: Area,
    pub export: Area,
    pub quit: Area,
    pub tip: Area,
}

/// All that `Layout::split` of ratatui may answer for a direction, constraints and an area,
/// over all runs of the program. There can be more than one answer where the constraints
/// contradict each other.
pub uninterp spec fn possible_splits(
    direction: Direction,
    constraints: Seq<Constraint>,
    area: Area,
) -> Set<Seq<Area>>;

/// The first cell of an area along an axis.
pub open spec fn first_cell(direction: Direction, area: Area) -> int {
    match direction {
        Direction::Vertical => area.y as int,
        Direction::Horizontal => area.x as int,
    }
}

/// The first cell behind an area along an axis.
pub open spec fn end_cell(direction: Direction, area: Area) -> int {
    match direction {
        Direction::Vertical => area.y + area.height,
        Direction::Horizontal => area.x + area.width,
    }
}

/// Whether `part` spans `area` across the axis of the split, and lies inside it along that axis,
/// where it ends at a 16-bit coordinate.
pub open spec fn spans(direction: Direction, area: Area, part: Area) -> bool {
    &&& match direction {
        Direction::Vertical => part.x == area.x && part.width == area.width,
        Direction::Horizontal => part.y == area.y && part.height == area.height,
    }
    &&& first_cell(direction, area) <= first_cell(direction, part)
    &&& end_cell(direction, part) <= end_cell(direction, area)
    &&& end_cell(direction, part) <= u16::MAX
}

/// Whether each part ends at or before the first cell of every later one.
pub open spec fn in_order(direction: Direction, parts: Seq<Area>) -> bool {
    forall|i: int, j: int|
        0 <= i < j < parts.len() ==> end_cell(direction, #[trigger] parts[i]) <= first_cell(
            direction,
            #[trigger] parts[j],
        )
}

/// The heights of the panels.
pub open spec fn row_constraints() -> Seq<Constraint> {
    seq![
        Constraint::Length(3),
        Constraint::Percentage(50),
        Constraint::Percentage(35),
        Constraint::Length(3),
    ]
}

/// The widths of the buttons and of the gaps between them, and the rest of the bar.
pub open spec fn button_constraints() -> Seq<Constraint> {
    seq![
        Constraint::Length(16),
        Constraint::Length(1),
        Constraint::Length(16),
        Constraint::Length(1),
        Constraint::Length(16),
        Constraint::Length(1),
        Constraint::Length(16),
        Constraint::Length(1),
        Constraint::Length(16),
        Constraint::Length(1),
        Constraint::Length(16),
        Constraint::Min(0),
    ]
}

/// Whether `rows` are the panels that some answer to the split of `area` gives.
pub open spec fn lays_out_rows(area: Area, rows: Rows) -> bool {
    &&& possible_splits(Direction::Vertical, row_constraints(), area).contains(
        seq![rows.status, rows.list, rows.details, rows.bar],
    )
    &&& spans(Direction::Vertical, area, rows.status)
    &&& spans(Direction::Vertical, area, rows.list)
    &&& spans(Direction::Vertical, area, rows.details)
    &&& spans(Direction::Vertical, area, rows.bar)
    &&& in_order(Direction::Vertical, seq![rows.status, rows.list, rows.details, rows.bar])
}

/// Whether `parts` are what some answer to the split of the bar gives.
pub open spec fn splits_bar(bar: Area, parts: Seq<Area>) -> bool {
    &&& possible_splits(Direction::Horizontal, button_constraints(), bar).contains(parts)
    &&& parts.len() == 12
    &&& forall|i: int|
        0 <= i < 12 ==> spans(Direction::Horizontal, bar, #[trigger] parts[i])
    &&& in_order(Direction::Horizontal, parts)
}

/// The buttons among the parts of a split bar: every second part, and the last one.
pub open spec fn buttons_of(parts: Seq<Area>) -> Buttons {
    Buttons {
        start: parts[0],
        pause: parts[2],
        stop: parts[4],
        clear: parts[6],
        export: parts[8],
        quit: parts[10],
        tip: parts[11],
    }
}

/// Whether `buttons` are those that some answer to the split of `bar` gives.
pub open spec fn lays_out_buttons(bar: Area, buttons: Buttons) -> bool {
    exists|parts: Seq<Area>| #[trigger] splits_bar(bar, parts) && buttons == buttons_of(parts)
}

/// Calls `Layout::split` of ratatui, with the default margin, flex and spacing.
///
/// Believed of it, for the two lists of constraints of this module: the answer is among the
/// possible ones, which is no more than that direction, constraints and area are all that is
/// handed over; it has one part for each constraint; each part spans the area across the axis
/// of the split; along the axis the parts lie inside the area and in order. The solver requires
/// the last of every solution, and the rounding to cells keeps it: with these lists the ends of
/// the parts stay far from the values at which two equal ends could be rounded apart. An end is
/// a 16-bit number. How large the parts are is left unsaid: a floating-point solver decides it,
/// which walks hash maps in an order that differs between runs. The call panics where what it
/// requires cannot be met, and parts in order inside the area can always be had.
#[verifier::external_body]
fn split(direction: Direction, constraints: &[Constraint], area: Area) -> (parts: Vec<Area>)
    requires
        constraints@ == row_constraints() || constraints@ == button_constraints(),
    ensures
        possible_splits(direction, constraints@, area).contains(parts@),
        parts@.len() == constraints@.len(),
        forall|i: int| 0 <= i < parts@.len() ==> spans(direction, area, #[trigger] parts@[i]),
        in_order(direction, parts@),
{
    let axis = match direction {
        Direction::Horizontal => tui::Direction::Horizontal,
        Direction::Vertical => tui::Direction::Vertical,
    };
    let wishes = constraints.iter().map(|c| match *c {
        Constraint::Length(n) => tui::Constraint::Length(n),
        Constraint::Percentage(n) => tui::Constraint::Percentage(n),
        Constraint::Min(n) => tui::Constraint::Min(n),
    });
    let whole = tui::Rect { x: area.x, y: area.y, width: area.width, height: area.height };
    let parts = tui::Layout::default().direction(axis).constraints(wishes).split(whole);
    parts.iter().map(|r| Area { x: r.x, y: r.y, width: r.width, height: r.height }).collect()
}

/// Splits the screen into its panels.
pub fn screen_rows(area: Area) -> (rows: Rows)
    ensures
        lays_out_rows(area, rows),
{
    let constraints: [Constraint; 4] = [
        Constraint::Length(3),
        Constraint::Percentage(50),
        Constraint::Percentage(35),
        Constraint::Length(3),
    ];
    assert(constraints@ =~= row_constraints());
    let parts = split(Direction::Vertical, &constraints, area);
    let rows = Rows { status: parts[0], list: parts[1], details: parts[2], bar: parts[3] };
    assert(parts@ =~= seq![rows.status, rows.list, rows.details, rows.bar]);
    rows
}

/// Splits the bar into its buttons.
pub fn bar_buttons(bar: Area) -> (buttons: Buttons)
    ensures
        lays_out_buttons(bar, buttons),
{
    let constraints: [Constraint; 12] = [
        Constraint::Length(16),
        Constraint::Length(1),
        Constraint::Length(16),
        Constraint::Length(1),
        Constraint::Length(16),
        Constraint::Length(1),
        Constraint::Length(16),
        Constraint::Length(1),
        Constraint::Length(16),
        Constraint::Length(1),
        Constraint::Length(16),
        Constraint::Min(0),
    ];
    assert(constraints@ =~= button_constraints());
    let parts = split(Direction::Horizontal, &constraints, bar);
    assert(splits_bar(bar, parts@));
    Buttons {
        start: parts[0],
        pause: parts[2],
        stop: parts[4],
        clear: parts[6],
        export: parts[8],
        quit: parts[10],
        tip: parts[11],
    }
}

} // verus!
