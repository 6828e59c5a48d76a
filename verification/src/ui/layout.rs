//! How the screen is divided.
use super::input;
use super::input::{cursor_position, input_height, Area, Position};
use crate::app::model::AppView;
use crate::app::state::App;
use ratatui::layout::{Constraint, Direction, Layout, Rect};
use vstd::prelude::*;

verus! {

/// Which way an area is divided.
#[derive(Debug, Clone, Copy, PartialEq, Eq, Structural)]
pub enum Axis {
    /// Side by side.
    Across,
    /// One below the other.
    Down,
}

/// How much of an area a part takes.
#[derive(Debug, Clone, Copy, PartialEq, Eq, Structural)]
pub enum Share {
    Percentage(u16),
    Length(u16),
    Min(u16),
}

/// The area does not reach past the last row or column that can be numbered.
pub open spec fn fits(area: Area) -> bool {
    area.x + area.width <= u16::MAX && area.y + area.height <= u16::MAX
}

/// `part` lies in `area`.
pub open spec fn inside(part: Area, area: Area) -> bool {
    &&& area.x <= part.x && part.x + part.width <= area.x + area.width
    &&& area.y <= part.y && part.y + part.height <= area.y + area.height
}

/// `part` is as high as `area` where it is divided across, and as wide where it
/// is divided down.
pub open spec fn spans(part: Area, area: Area, axis: Axis) -> bool {
    match axis {
        Axis::Across => part.y == area.y && part.height == area.height,
        Axis::Down => part.x == area.x && part.width == area.width,
    }
}

/// The lengths among the shares, together.
pub open spec fn lengths(shares: Seq<Share>) -> nat
    decreases shares.len(),
{
    if shares.len() == 0 {
        0
    } else {
        lengths(shares.drop_last()) + match shares.last() {
            Share::Length(n) => n as nat,
            _ => 0,
        }
    }
}

/// The percentages among the shares, together.
pub open spec fn percentages(shares: Seq<Share>) -> nat
    decreases shares.len(),
{
    if shares.len() == 0 {
        0
    } else {
        percentages(shares.drop_last()) + match shares.last() {
            Share::Percentage(n) => n as nat,
            _ => 0,
        }
    }
}

/// All shares are percentages, of the whole together.
pub open spec fn portions(shares: Seq<Share>) -> bool {
    &&& forall|i: int| 0 <= i < shares.len() ==> #[trigger] shares[i] is Percentage
    &&& percentages(shares) == 100
}

/// All shares but the one at `rest` are lengths, and there is room for them and
/// for its minimum.
pub open spec fn roomy(shares: Seq<Share>, rest: int, room: int) -> bool {
    &&& 0 <= rest < shares.len()
    &&& forall|i: int|
        0 <= i < shares.len() && i != rest ==> #[trigger] shares[i] is Length
    &&& match shares[rest] {
        Share::Min(n) => lengths(shares) + n <= room,
        _ => false,
    }
}

/// Where the part after the first `n` begins, when the share at `rest` takes
/// what the lengths leave.
pub open spec fn edge(shares: Seq<Share>, rest: int, n: int, room: int) -> int {
    lengths(shares.take(n)) + if rest < n {
        room - lengths(shares)
    } else {
        0
    }
}

/// Where the part after the first `n` begins, when the shares are percentages:
/// at the nearest row or column.
pub open spec fn portion_edge(shares: Seq<Share>, n: int, room: int) -> int {
    (room * percentages(shares.take(n)) + 50) / 100
}

/// Where `part` begins in `area`.
pub open spec fn offset(part: Area, area: Area, axis: Axis) -> int {
    match axis {
        Axis::Across => part.x - area.x,
        Axis::Down => part.y - area.y,
    }
}

/// How long an area is along the axis.
pub open spec fn extent(area: Area, axis: Axis) -> int {
    match axis {
        Axis::Across => area.width as int,
        Axis::Down => area.height as int,
    }
}

/// `part` reaches from one place in `area` to another.
pub open spec fn reaches(part: Area, area: Area, axis: Axis, from: int, to: int) -> bool {
    offset(part, area, axis) == from && extent(part, axis) == to - from
}

/// Divides an area with `ratatui::layout::Layout::split`, without margins. There
/// is a part for each share, each spans the area in the other direction, and
/// each lies in the area. Percentages that make up the whole are rounded to the
/// nearest row or column. Lengths that fit beside the minimum of one other part
/// are kept, and that part takes the rest. The parts then follow each other
/// without a gap. What other shares, or ones that do not fit, are given is left
/// to the solver, and not said here.
#[verifier::external_body]
fn split(area: Area, axis: Axis, shares: &Vec<Share>) -> (parts: Vec<Area>)
    requires
        fits(area),
    ensures
        parts@.len() == shares@.len(),
        forall|i: int| 0 <= i < parts@.len() ==> spans(#[trigger] parts@[i], area, axis),
        forall|i: int| 0 <= i < parts@.len() ==> inside(#[trigger] parts@[i], area),
        portions(shares@) ==> forall|i: int|
            0 <= i < parts@.len() ==> reaches(
                #[trigger] parts@[i],
                area,
                axis,
                portion_edge(shares@, i, extent(area, axis)),
                portion_edge(shares@, i + 1, extent(area, axis)),
            ),
        forall|rest: int, i: int|
            #![trigger roomy(shares@, rest, extent(area, axis)), parts@[i]]
            roomy(shares@, rest, extent(area, axis)) && 0 <= i < parts@.len() ==> reaches(
                parts@[i],
                area,
                axis,
                edge(shares@, rest, i, extent(area, axis)),
                edge(shares@, rest, i + 1, extent(area, axis)),
            ),
{
    let direction = match axis {
        Axis::Across => Direction::Horizontal,
        Axis::Down => Direction::Vertical,
    };
    let constraints = shares.iter().map(|share| match share {
        Share::Percentage(n) => Constraint::Percentage(*n),
        Share::Length(n) => Constraint::Length(*n),
        Share::Min(n) => Constraint::Min(*n),
    });
    let whole = Rect::new(area.x, area.y, area.width, area.height);
    let parts = Layout::new(direction, constraints).split(whole);
    parts.iter().map(|r| Area { x: r.x, y: r.y, width: r.width, height: r.height }).collect()
}

/// The shares of the chat and of the debug panel beside it.
pub open spec fn column_shares() -> Seq<Share> {
    seq![Share::Percentage(60), Share::Percentage(40)]
}

/// The shares of the status bar, the recommendations, the chat and the input,
/// from top to bottom.
pub open spec fn row_shares(recommends_something: bool, input_rows: u16) -> Seq<Share> {
    seq![
        Share::Length(1),
        Share::Length(
            if recommends_something {
                8
            } else {
                0
            },
        ),
        Share::Min(1),
        Share::Length(input_rows),
    ]
}

/// The shares of the chat and of the debug panel beside it.
pub fn columns() -> (shares: Vec<Share>)
    ensures
        shares@ == column_shares(),
{
    let mut shares: Vec<Share> = Vec::new();
    shares.push(Share::Percentage(60));
    shares.push(Share::Percentage(40));
    assert(shares@ =~= column_shares());
    shares
}

/// The shares of the rows of the screen, for an input box of `input_rows` rows.
pub fn rows(recommends_something: bool, input_rows: u16) -> (shares: Vec<Share>)
    ensures
        shares@ == row_shares(recommends_something, input_rows),
{
    let cards: u16 = if recommends_something {
        8
    } else {
        0
    };
    let mut shares: Vec<Share> = Vec::new();
    shares.push(Share::Length(1));
    shares.push(Share::Length(cards));
    shares.push(Share::Min(1));
    shares.push(Share::Length(input_rows));
    assert(shares@ =~= row_shares(recommends_something, input_rows));
    shares
}

/// The areas of the screen.
#[derive(Debug, Clone, Copy, PartialEq, Eq, Structural)]
pub struct ScreenAreas {
    pub status_bar: Area,
    pub recommendations: Area,
    pub chat: Area,
    pub input: Area,
    /// The debug panel, where it is shown.
    pub debug: Option<Area>,
}

/// The area is this one.
pub open spec fn stands(area: Area, x: int, y: int, width: int, height: int) -> bool {
    area.x == x && area.y == y && area.width == width && area.height == height
}

/// `part` lies in `area`, in its first `width` columns.
pub open spec fn takes_columns(part: Area, area: Area, width: int) -> bool {
    inside(part, area) && part.x == area.x && part.width == width
}

/// The columns that are left of the debug panel, of `width`.
pub open spec fn main_width(width: int, debug: bool) -> int {
    if debug {
        (width * 60 + 50) / 100
    } else {
        width
    }
}

/// The rows of the recommendations.
pub open spec fn card_rows(recommends_something: bool) -> int {
    if recommends_something {
        8
    } else {
        0
    }
}

impl ScreenAreas {
    /// The areas are parts of `area`, and all but the debug panel have the
    /// columns left of it.
    pub open spec fn divide(self, area: Area) -> bool {
        let width = main_width(area.width as int, self.debug is Some);
        &&& takes_columns(self.status_bar, area, width)
        &&& takes_columns(self.recommendations, area, width)
        &&& takes_columns(self.chat, area, width)
        &&& takes_columns(self.input, area, width)
        &&& match self.debug {
            Some(debug) => stands(
                debug,
                area.x + width,
                area.y as int,
                area.width - width,
                area.height as int,
            ),
            None => true,
        }
    }

    /// From top to bottom stand a row for the status bar, `cards` rows for the
    /// recommendations, what is left for the chat, and `input` rows for the
    /// input.
    pub open spec fn stacked(self, area: Area, cards: int, input: int) -> bool {
        let width = main_width(area.width as int, self.debug is Some);
        let x = area.x as int;
        let y = area.y as int;
        &&& stands(self.status_bar, x, y, width, 1)
        &&& stands(self.recommendations, x, y + 1, width, cards)
        &&& stands(self.chat, x, y + 1 + cards, width, area.height - 1 - cards - input)
        &&& stands(self.input, x, y + area.height - input, width, input)
    }
}

impl AppView {
    /// The screen is divided like this: the debug panel is there where it is
    /// shown, and the rows have their heights where a row of chat is left. On a
    /// lower screen the heights are left open.
    pub open spec fn laid_out(self, area: Area, areas: ScreenAreas) -> bool {
        let width = main_width(area.width as int, self.show_debug_panel);
        let cards = card_rows(self.recommendations is Some);
        let rows = input::box_height(self.input, width as u16);
        &&& (areas.debug is Some) == self.show_debug_panel
        &&& areas.divide(area)
        &&& 2 + cards + rows <= area.height ==> areas.stacked(area, cards, rows)
    }
}

proof fn lemma_columns(width: int)
    ensures
        portions(column_shares()),
        portion_edge(column_shares(), 0, width) == 0,
        portion_edge(column_shares(), 1, width) == (width * 60 + 50) / 100,
        portion_edge(column_shares(), 2, width) == width,
{
    reveal_with_fuel(percentages, 3);
    let shares = column_shares();
    assert(shares.drop_last() =~= seq![Share::Percentage(60)]);
    assert(shares.drop_last().drop_last() =~= Seq::empty());
    assert(shares.take(0) =~= Seq::empty());
    assert(shares.take(1) =~= seq![Share::Percentage(60)]);
    assert(shares.take(2) =~= shares);
    let none = percentages(shares.take(0));
    let some = percentages(shares.take(1));
    let all = percentages(shares.take(2));
    assert(none == 0 && some == 60 && all == 100);
    assert(width * none == 0 && width * some == width * 60 && width * all == width * 100)
        by (nonlinear_arith)
        requires
            none == 0,
            some == 60,
            all == 100,
    ;
}

proof fn lemma_rows(recommends_something: bool, input_rows: u16, height: int)
    ensures
        ({
            let shares = row_shares(recommends_something, input_rows);
            let cards = card_rows(recommends_something);
            &&& roomy(shares, 2, height) == (2 + cards + input_rows <= height)
            &&& edge(shares, 2, 0, height) == 0
            &&& edge(shares, 2, 1, height) == 1
            &&& edge(shares, 2, 2, height) == 1 + cards
            &&& edge(shares, 2, 3, height) == height - input_rows
            &&& edge(shares, 2, 4, height) == height
        }),
{
    reveal_with_fuel(lengths, 5);
    let shares = row_shares(recommends_something, input_rows);
    assert(shares.take(0) =~= Seq::empty());
    assert(shares.take(1).drop_last() =~= shares.take(0));
    assert(shares.take(2).drop_last() =~= shares.take(1));
    assert(shares.take(3).drop_last() =~= shares.take(2));
    assert(shares.take(4).drop_last() =~= shares.take(3));
    assert(shares.take(4) =~= shares);
    assert(shares[2] == Share::Min(1));
}

impl App {
    /// Divides the screen: the debug panel, where it is shown, takes the right
    /// part, and what is left goes from top to bottom to the status bar, the
    /// recommendations, the chat and the input.
    pub fn screen_areas(&self, area: Area) -> (areas: ScreenAreas)
        requires
            fits(area),
        ensures
            self@.laid_out(area, areas),
    {
        let (main, debug): (Area, Option<Area>) = if self.show_debug_panel {
            let parts = split(area, Axis::Across, &columns());
            proof {
                lemma_columns(area.width as int);
            }
            (parts[0], Some(parts[1]))
        } else {
            (area, None)
        };
        let height: u16 = input_height(self.input.as_str(), self.cursor_pos, main.width);
        let shown: bool = self.recommendations.is_some();
        let parts = split(main, Axis::Down, &rows(shown, height));
        proof {
            lemma_rows(shown, height, main.height as int);
        }
        let areas = ScreenAreas {
            status_bar: parts[0],
            recommendations: parts[1],
            chat: parts[2],
            input: parts[3],
            debug,
        };
        proof {
            let shares = row_shares(shown, height);
            let room = extent(main, Axis::Down);
            assert forall|i: int| roomy(shares, 2, room) && 0 <= i < 4 implies reaches(
                #[trigger] parts@[i],
                main,
                Axis::Down,
                edge(shares, 2, i, room),
                edge(shares, 2, i + 1, room),
            ) by {}
        }
        areas
    }

    /// The cell of the cursor in the input box.
    pub fn input_cursor_position(&self, area: Area) -> (cell: Option<Position>)
        requires
            fits(area),
            area.y + area.height + 3 <= u16::MAX,
        ensures
            exists|areas: ScreenAreas|
                {
                    &&& #[trigger] self@.laid_out(area, areas)
                    &&& match cell {
                        Some(cell) => input::cursor_cell(
                            self@.input,
                            self@.cursor_pos as int,
                            areas.input,
                        ) == Some((cell.x as int, cell.y as int)),
                        None => input::cursor_cell(
                            self@.input,
                            self@.cursor_pos as int,
                            areas.input,
                        ) is None,
                    }
                },
    {
        let areas = self.screen_areas(area);
        cursor_position(self.input.as_str(), self.cursor_pos, areas.input)
    }
}

} // verus!
