//! The input box: how the input wraps, which of its rows are shown, and where
//! the cursor is.
use crate::editing;
use crate::editing::clamp_cursor_to_boundary;
use crate::text;
use crate::text::{chars_of, len_utf8};
use unicode_width::UnicodeWidthChar;
use vstd::prelude::*;

verus! {

pub const INPUT_MIN_HEIGHT: u16 = 3;

pub const INPUT_MAX_HEIGHT: u16 = 8;

pub const INPUT_MIN_INNER_ROWS: usize = 1;

pub const INPUT_MAX_INNER_ROWS: usize = 6;

/// A rectangle of the screen.
#[derive(Debug, Clone, Copy, PartialEq, Eq, Structural)]
pub struct Area {
    pub x: u16,
    pub y: u16,
    pub width: u16,
    pub height: u16,
}

/// A cell of the screen.
#[derive(Debug, Clone, Copy, PartialEq, Eq, Structural)]
pub struct Position {
    pub x: u16,
    pub y: u16,
}

/// The rows of the input that are shown, and the cursor among them.
#[derive(Debug, PartialEq, Eq)]
pub struct InputViewport {
    pub visible_lines: Vec<String>,
    pub cursor_row: usize,
    pub cursor_col: usize,
    pub scroll_row: usize,
}

/// The input in rows, and the cursor among them.
#[derive(Debug, PartialEq, Eq)]
pub struct WrappedInput {
    pub lines: Vec<String>,
    pub cursor_row: usize,
    pub cursor_col: usize,
}

/// The columns that `c` takes, as the crate unicode-width has them.
pub uninterp spec fn unicode_columns(c: char) -> Option<usize>;

/// `unicode_width::UnicodeWidthChar::width`: the columns that `c` takes, none
/// where it is a control character. They depend on the character alone, are at
/// most three, and one for the printable ASCII characters. The columns of other
/// characters are left to the crate's tables.
#[verifier::external_body]
fn unicode_width(c: char) -> (columns: Option<usize>)
    ensures
        columns == unicode_columns(c),
        columns matches Some(n) ==> n <= 3,
        0x20 <= (c as u32) < 0x7f ==> columns == Some(1usize),
        (c as u32) < 0x20 || 0x7f <= (c as u32) < 0xa0 ==> columns is None,
{
    UnicodeWidthChar::width(c)
}

/// The columns that `c` takes in the input box: four for a tab, and one for
/// every other character up to the end of the control characters, which ASCII
/// is part of. Past these it is the width that Unicode gives, but at least one.
pub open spec fn columns(c: char) -> nat {
    if c == '\t' {
        4
    } else if (c as u32) < 0xa0 {
        1
    } else {
        match unicode_columns(c) {
            Some(n) => if n >= 1 {
                n as nat
            } else {
                1
            },
            None => 1,
        }
    }
}

/// The columns that `ch` takes in the input box.
pub fn char_display_width(ch: char) -> (n: usize)
    ensures
        n == columns(ch),
        1 <= n <= 4,
        0x20 <= (ch as u32) < 0x7f ==> n == 1,
{
    if ch == '\t' {
        4
    } else {
        match unicode_width(ch) {
            Some(n) => if n >= 1 {
                n
            } else {
                1
            },
            None => 1,
        }
    }
}

/// Input in rows: the rows, and the columns taken in the last one.
pub ghost struct Wrapped {
    pub lines: Seq<Seq<char>>,
    pub col: nat,
}

/// `s` in rows of `width` columns: a line break starts a new row, and so does a
/// character that no longer fits behind others.
pub open spec fn wrap(s: Seq<char>, width: nat) -> Wrapped
    decreases s.len(),
{
    if s.len() == 0 {
        Wrapped { lines: seq![Seq::empty()], col: 0 }
    } else {
        let before = wrap(s.drop_last(), width);
        let c = s.last();
        if c == '\n' {
            Wrapped { lines: before.lines.push(Seq::empty()), col: 0 }
        } else if before.col > 0 && before.col + columns(c) > width {
            Wrapped { lines: before.lines.push(seq![c]), col: columns(c) }
        } else {
            Wrapped {
                lines: before.lines.drop_last().push(before.lines.last().push(c)),
                col: before.col + columns(c),
            }
        }
    }
}

/// The row of the cursor behind the character before `pos`.
pub open spec fn cursor_row(s: Seq<char>, pos: int, width: nat) -> int {
    wrap(s.take(editing::chars_before(s, pos)), width).lines.len() - 1
}

/// The column of the cursor behind the character before `pos`.
pub open spec fn cursor_col(s: Seq<char>, pos: int, width: nat) -> int {
    wrap(s.take(editing::chars_before(s, pos)), width).col as int
}

proof fn lemma_wrap_bounds(s: Seq<char>, width: nat)
    ensures
        wrap(s, width).lines.len() >= 1,
        wrap(s, width).lines.len() <= s.len() + 1,
    decreases s.len(),
{
    if s.len() > 0 {
        lemma_wrap_bounds(s.drop_last(), width);
    }
}

proof fn lemma_wrap_grows(s: Seq<char>, width: nat, i: int)
    requires
        0 <= i <= s.len(),
    ensures
        wrap(s.take(i), width).lines.len() <= wrap(s, width).lines.len(),
    decreases s.len() - i,
{
    if i == s.len() {
        assert(s.take(i) =~= s);
    } else {
        lemma_wrap_grows(s, width, i + 1);
        assert(s.take(i + 1).drop_last() =~= s.take(i));
        lemma_wrap_bounds(s.take(i), width);
    }
}

/// Adds `c` to the last row.
fn extend_last(lines: &mut Vec<String>, c: char)
    requires
        old(lines)@.len() > 0,
    ensures
        text::texts(final(lines)@) == text::texts(old(lines)@).drop_last().push(
            text::texts(old(lines)@).last().push(c),
        ),
{
    let ghost earlier = lines@;
    match lines.pop() {
        Some(mut line) => {
            line.push(c);
            lines.push(line);
        },
        None => {},
    }
    assert(text::texts(lines@) =~= text::texts(earlier).drop_last().push(
        text::texts(earlier).last().push(c),
    ));
}

/// The input in rows of `max_width` columns, and the cursor at the byte
/// `cursor_pos` among them.
#[verifier::loop_isolation(false)]
pub fn wrap_input(input: &str, cursor_pos: usize, max_width: usize) -> (wrapped: WrappedInput)
    ensures
        ({
            let width: nat = if max_width >= 1 {
                max_width as nat
            } else {
                1
            };
            &&& text::texts(wrapped.lines@) == wrap(input@, width).lines
            &&& wrapped.cursor_row == cursor_row(input@, cursor_pos as int, width)
            &&& wrapped.cursor_col == cursor_col(input@, cursor_pos as int, width)
        }),
        wrapped.lines@.len() >= 1,
        wrapped.cursor_row < wrapped.lines@.len(),
{
    let cursor_pos: usize = {
        let clamped: usize = clamp_cursor_to_boundary(input, cursor_pos);
        proof {
            editing::lemma_clamped(input@, cursor_pos as int);
            editing::lemma_boundary(input@, editing::chars_before(input@, cursor_pos as int));
        }
        clamped
    };
    let max_width: usize = if max_width >= 1 {
        max_width
    } else {
        1
    };
    let chars = chars_of(input);
    let ghost target = editing::chars_before(input@, cursor_pos as int);
    let ghost width = max_width as nat;
    let mut lines: Vec<String> = Vec::new();
    lines.push(String::new());
    let mut col: usize = 0;
    let mut row: usize = 0;
    let mut cursor_row: usize = 0;
    let mut cursor_col: usize = 0;
    let mut offset: usize = 0;
    let mut i: usize = 0;
    proof {
        editing::lemma_clamped(input@, cursor_pos as int);
        assert(input@.take(0) =~= Seq::<char>::empty());
        assert(text::texts(lines@) =~= wrap(input@.take(0), width).lines);
    }
    while i < chars.len()
        invariant
            i <= chars@.len(),
            chars@ == input@,
            text::texts(lines@) == wrap(input@.take(i as int), width).lines,
            col == wrap(input@.take(i as int), width).col,
            col <= max_width || col <= 4,
            row + 1 == lines@.len(),
            offset == editing::byte_at(input@, i as int),
            offset <= text::byte_len(input@) <= usize::MAX,
            target <= i ==> cursor_row == wrap(input@.take(target), width).lines.len() - 1
                && cursor_col == wrap(input@.take(target), width).col,
        decreases chars@.len() - i,
    {
        let ch = chars[i];
        proof {
            assert(input@.take(i + 1).drop_last() =~= input@.take(i as int));
            assert(input@.take(i + 1).last() == ch);
            lemma_wrap_bounds(input@.take(i as int), width);
            text::lemma_byte_len_take(input@, i + 1, input@.len() as int);
        }
        if ch == '\n' {
            let ghost earlier = lines@;
            lines.push(String::new());
            assert(text::texts(lines@) =~= text::texts(earlier).push(Seq::empty()));
            col = 0;
        } else {
            let char_width: usize = char_display_width(ch);
            if col > 0 && (col > max_width || char_width > max_width - col) {
                let ghost earlier = lines@;
                let mut line = String::new();
                line.push(ch);
                lines.push(line);
                assert(line@ =~= seq![ch]);
                assert(text::texts(lines@) =~= text::texts(earlier).push(seq![ch]));
                col = char_width;
            } else {
                extend_last(&mut lines, ch);
                col = col + char_width;
            }
        }
        proof {
            lemma_wrap_bounds(input@.take(i + 1), width);
            assert(text::texts(lines@).len() == lines@.len());
        }
        row = lines.len() - 1;
        offset = offset + len_utf8(ch);
        i += 1;
        if offset == cursor_pos {
            cursor_row = row;
            cursor_col = col;
            proof {
                editing::lemma_boundary(input@, i as int);
            }
        } else {
            proof {
                if target == i {
                    assert(editing::byte_at(input@, target) == cursor_pos);
                }
            }
        }
    }
    proof {
        assert(input@.take(i as int) =~= input@);
        lemma_wrap_grows(input@, width, target);
        lemma_wrap_bounds(input@.take(target), width);
    }
    WrappedInput { lines, cursor_row, cursor_col }
}

/// How many rows of the input are shown.
pub open spec fn shown_rows(lines: int) -> int {
    if lines > INPUT_MAX_INNER_ROWS {
        INPUT_MAX_INNER_ROWS as int
    } else if lines < INPUT_MIN_INNER_ROWS {
        INPUT_MIN_INNER_ROWS as int
    } else {
        lines
    }
}

/// The first row that is shown when the cursor is in the row `cursor` and
/// `rows` rows are shown.
pub open spec fn first_row(cursor: int, rows: int) -> int {
    if cursor + 1 > rows {
        cursor + 1 - rows
    } else {
        0
    }
}

/// The columns of the input in a box of `total_width` columns.
pub open spec fn inner_width(total_width: u16) -> nat {
    if total_width >= 3 {
        (total_width - 2) as nat
    } else {
        1
    }
}

/// What the input box shows: as many rows as fit, the one with the cursor among
/// them.
pub open spec fn shows(viewport: InputViewport, s: Seq<char>, pos: int, total_width: u16) -> bool {
    let width = inner_width(total_width);
    let lines = wrap(s, width).lines;
    let row = cursor_row(s, pos, width);
    let rows = shown_rows(lines.len() as int);
    let first = first_row(row, rows);
    &&& viewport.scroll_row == first
    &&& text::texts(viewport.visible_lines@) == lines.subrange(first, first + rows)
    &&& viewport.cursor_row == row - first
    &&& viewport.cursor_col == cursor_col(s, pos, width)
}

/// The rows of the input that a box of `total_width` columns shows.
pub fn input_viewport(input: &str, cursor_pos: usize, total_width: u16) -> (viewport: InputViewport)
    ensures
        shows(viewport, input@, cursor_pos as int, total_width),
        INPUT_MIN_INNER_ROWS <= viewport.visible_lines@.len() <= INPUT_MAX_INNER_ROWS,
        viewport.cursor_row < viewport.visible_lines@.len(),
{
    let inner: usize = if total_width >= 3 {
        (total_width - 2) as usize
    } else {
        1
    };
    let wrapped = wrap_input(input, cursor_pos, inner);
    let total: usize = wrapped.lines.len();
    let visible_rows: usize = if total > INPUT_MAX_INNER_ROWS {
        INPUT_MAX_INNER_ROWS
    } else if total < INPUT_MIN_INNER_ROWS {
        INPUT_MIN_INNER_ROWS
    } else {
        total
    };
    let scroll_row: usize = if wrapped.cursor_row + 1 > visible_rows {
        wrapped.cursor_row + 1 - visible_rows
    } else {
        0
    };
    let ghost all = text::texts(wrapped.lines@);
    let mut visible_lines: Vec<String> = Vec::new();
    let mut i: usize = 0;
    while i < visible_rows
        invariant
            i <= visible_rows,
            all == text::texts(wrapped.lines@),
            scroll_row + visible_rows <= total == wrapped.lines@.len(),
            text::texts(visible_lines@) == all.subrange(scroll_row as int, scroll_row + i),
            visible_lines@.len() == i,
        decreases visible_rows - i,
    {
        let ghost earlier = visible_lines@;
        visible_lines.push(wrapped.lines[scroll_row + i].clone());
        i += 1;
        assert(text::texts(visible_lines@) =~= text::texts(earlier).push(all[scroll_row + i - 1]));
        assert(all.subrange(scroll_row as int, scroll_row + i) =~= all.subrange(
            scroll_row as int,
            scroll_row + i - 1,
        ).push(all[scroll_row + i - 1]));
    }
    InputViewport {
        visible_lines,
        cursor_row: wrapped.cursor_row - scroll_row,
        cursor_col: wrapped.cursor_col,
        scroll_row,
    }
}

/// The height of the input box: its rows and its frame.
pub open spec fn box_height(s: Seq<char>, total_width: u16) -> int {
    shown_rows(wrap(s, inner_width(total_width)).lines.len() as int) + 2
}

/// The height of the input box, with its frame.
pub fn input_height(input: &str, cursor_pos: usize, total_width: u16) -> (height: u16)
    ensures
        height == box_height(input@, total_width),
        INPUT_MIN_HEIGHT <= height <= INPUT_MAX_HEIGHT,
{
    let viewport = input_viewport(input, cursor_pos, total_width);
    assert(text::texts(viewport.visible_lines@).len() == viewport.visible_lines@.len());
    proof {
        let width = inner_width(total_width);
        let k = editing::chars_before(input@, cursor_pos as int);
        editing::lemma_clamped(input@, cursor_pos as int);
        lemma_wrap_grows(input@, width, k);
        lemma_wrap_bounds(input@.take(k), width);
        lemma_wrap_bounds(input@, width);
    }
    viewport.visible_lines.len() as u16 + 2
}

/// The cell of the cursor in the box `area`, where the box has room for it.
pub open spec fn cursor_cell(s: Seq<char>, pos: int, area: Area) -> Option<(int, int)> {
    if area.width <= 2 || area.height <= 2 {
        None
    } else {
        let width = inner_width(area.width);
        let row = cursor_row(s, pos, width);
        let rows = shown_rows(wrap(s, width).lines.len() as int);
        let col = cursor_col(s, pos, width);
        Some(
            (
                area.x + 1 + if col < width {
                    col
                } else {
                    width - 1
                },
                area.y + 1 + row - first_row(row, rows),
            ),
        )
    }
}

/// The cell of the cursor in the box `area`.
pub fn cursor_position(input: &str, cursor_pos: usize, area: Area) -> (cell: Option<Position>)
    requires
        area.width > 2 && area.height > 2 ==> area.x + area.width - 2 <= u16::MAX && area.y
            + INPUT_MAX_INNER_ROWS <= u16::MAX,
    ensures
        match cell {
            Some(cell) => cursor_cell(input@, cursor_pos as int, area) == Some(
                (cell.x as int, cell.y as int),
            ),
            None => cursor_cell(input@, cursor_pos as int, area) is None,
        },
{
    if area.width <= 2 || area.height <= 2 {
        return None;
    }
    let viewport = input_viewport(input, cursor_pos, area.width);
    let inner: usize = (area.width - 2) as usize;
    let col: usize = if viewport.cursor_col < inner {
        viewport.cursor_col
    } else {
        inner - 1
    };
    Some(
        Position {
            x: area.x + 1 + col as u16,
            y: area.y + 1 + viewport.cursor_row as u16,
        },
    )
}

/// The rows of `lines` put together.
pub open spec fn flat(lines: Seq<Seq<char>>) -> Seq<char>
    decreases lines.len(),
{
    if lines.len() == 0 {
        Seq::empty()
    } else {
        flat(lines.drop_last()) + lines.last()
    }
}

/// `s` without its line breaks.
pub open spec fn without_breaks(s: Seq<char>) -> Seq<char>
    decreases s.len(),
{
    if s.len() == 0 {
        Seq::empty()
    } else if s.last() == '\n' {
        without_breaks(s.drop_last())
    } else {
        without_breaks(s.drop_last()).push(s.last())
    }
}

/// The columns of a row.
pub open spec fn row_columns(line: Seq<char>) -> nat
    decreases line.len(),
{
    if line.len() == 0 {
        0
    } else {
        row_columns(line.drop_last()) + columns(line.last())
    }
}

/// A row of printable ASCII takes as many columns as it has characters.
pub proof fn law_ascii_takes_one_column_each(line: Seq<char>)
    requires
        forall|i: int| 0 <= i < line.len() ==> 0x20 <= (#[trigger] line[i] as u32) < 0x7f,
    ensures
        row_columns(line) == line.len(),
    decreases line.len(),
{
    if line.len() > 0 {
        let init = line.drop_last();
        assert forall|i: int| 0 <= i < init.len() implies 0x20 <= (#[trigger] init[i] as u32)
            < 0x7f by {
            assert(init[i] == line[i]);
        }
        law_ascii_takes_one_column_each(init);
        assert(line[line.len() - 1] == line.last());
    }
}

/// Wrapping loses nothing but the line breaks: the rows put together are the
/// input.
pub proof fn law_wrapping_keeps_the_input(s: Seq<char>, width: nat)
    ensures
        flat(wrap(s, width).lines) == without_breaks(s),
    decreases s.len(),
{
    if s.len() == 0 {
        assert(wrap(s, width).lines.drop_last() =~= Seq::<Seq<char>>::empty());
        reveal_with_fuel(flat, 2);
    } else {
        let init = s.drop_last();
        law_wrapping_keeps_the_input(init, width);
        lemma_wrap_bounds(init, width);
        let lines = wrap(init, width).lines;
        let after = wrap(s, width).lines;
        if after.len() > lines.len() {
            assert(after.drop_last() =~= lines);
        } else {
            assert(after.drop_last() =~= lines.drop_last());
        }
        assert(flat(after) =~= without_breaks(s));
    }
}

/// No row is wider than the box, but for a row of one character that is.
pub proof fn law_rows_fit(s: Seq<char>, width: nat, i: int)
    requires
        0 <= i < wrap(s, width).lines.len(),
    ensures
        row_columns(wrap(s, width).lines[i]) <= width || wrap(s, width).lines[i].len() == 1,
        i == wrap(s, width).lines.len() - 1 ==> row_columns(wrap(s, width).lines[i]) == wrap(
            s,
            width,
        ).col,
    decreases s.len(),
{
    if s.len() > 0 {
        let init = s.drop_last();
        let before = wrap(init, width);
        let after = wrap(s, width);
        lemma_wrap_bounds(init, width);
        law_rows_fit(init, width, before.lines.len() - 1);
        if i < before.lines.len() {
            law_rows_fit(init, width, i);
        }
        if i == after.lines.len() - 1 {
            let c = s.last();
            let line = after.lines[i];
            if c != '\n' {
                assert(line.len() > 0 && line.last() == c);
                if after.lines.len() > before.lines.len() {
                    assert(line.drop_last() =~= Seq::<char>::empty());
                    assert(row_columns(line.drop_last()) == 0);
                    assert(line.len() == 1);
                } else {
                    let held = before.lines.last();
                    assert(line.drop_last() =~= held);
                    if before.col == 0 {
                        lemma_empty_row(held);
                        assert(line.len() == 1);
                    }
                }
            }
        }
    }
}

/// One character more keeps the rows before the last one. It starts a new row
/// only as a line break, or where it does not fit behind what is in the row.
pub proof fn law_rows_break_only_where_needed(s: Seq<char>, c: char, width: nat)
    ensures
        ({
            let before = wrap(s, width).lines;
            let after = wrap(s.push(c), width).lines;
            &&& after.take(before.len() - 1) == before.drop_last()
            &&& after.len() == before.len() || after.len() == before.len() + 1
            &&& after.len() > before.len() <==> c == '\n' || (before.last().len() > 0
                && row_columns(before.last()) + columns(c) > width)
        }),
{
    assert(s.push(c).drop_last() =~= s);
    lemma_wrap_bounds(s, width);
    let before = wrap(s, width);
    law_rows_fit(s, width, before.lines.len() - 1);
    if before.col == 0 {
        lemma_empty_row(before.lines.last());
    } else {
        assert(before.lines.last().len() > 0);
    }
    let after = wrap(s.push(c), width).lines;
    assert(after.take(before.lines.len() - 1) =~= before.lines.drop_last());
}

proof fn lemma_empty_row(line: Seq<char>)
    requires
        row_columns(line) == 0,
    ensures
        line.len() == 0,
{
    if line.len() > 0 {
        assert(columns(line.last()) >= 1);
    }
}

/// The cursor is always in a row that is shown.
pub proof fn law_cursor_is_shown(s: Seq<char>, pos: int, total_width: u16)
    requires
        pos >= 0,
    ensures
        ({
            let width = inner_width(total_width);
            let lines = wrap(s, width).lines.len() as int;
            let row = cursor_row(s, pos, width);
            let rows = shown_rows(lines);
            let first = first_row(row, rows);
            &&& 0 <= first <= row < first + rows <= lines
            &&& INPUT_MIN_HEIGHT <= box_height(s, total_width) <= INPUT_MAX_HEIGHT
        }),
{
    let width = inner_width(total_width);
    let k = editing::chars_before(s, pos);
    editing::lemma_clamped(s, pos);
    lemma_wrap_grows(s, width, k);
    lemma_wrap_bounds(s.take(k), width);
    lemma_wrap_bounds(s, width);
}

} // verus!
