//! The answers of the terminal as the commands print them.
use crate::app::notifications;
use crate::app::notifications::str_or;
use crate::coordinator;
use crate::coordinator::value_to_string;
use crate::json;
use crate::json::{pretty_text, Json, JsonView};
use crate::text;
use crate::text::{chars_of, number_text, same_text, signed_number_text};
use vstd::prelude::*;

verus! {

/// A member that is a text or a number, as a text; a dash where there is none.
pub open spec fn scalar_or_dash(value: JsonView, key: Seq<char>) -> Seq<char> {
    notifications::text_or(coordinator::scalar_text(value.get(key)), "-"@)
}

/// A member that is a text or a number, as a text; a dash where there is none.
pub fn json_str_or_num(val: &Json, key: &str) -> (text: String)
    ensures
        text@ == scalar_or_dash(val@, key@),
{
    match value_to_string(val.get(key)) {
        Some(text) => text,
        None => "-".to_owned(),
    }
}

/// A text with blanks behind it, up to `width` characters.
pub open spec fn padded(s: Seq<char>, width: int) -> Seq<char> {
    if s.len() < width {
        s + Seq::new((width - s.len()) as nat, |i: int| ' ')
    } else {
        s
    }
}

/// Adds a text with blanks behind it, up to `width` characters, and one more.
fn push_column(line: &mut String, s: &str, width: usize)
    ensures
        final(line)@ == old(line)@ + padded(s@, width as int) + " "@,
{
    let n: usize = chars_of(s).len();
    let ghost before = line@;
    line.append(s);
    let mut i: usize = n;
    assert(line@ =~= before + padded(s@, i as int));
    while i < width
        invariant
            i >= n,
            n == s@.len(),
            line@ == before + padded(s@, i as int),
            n <= width ==> i <= width,
            n > width ==> i == n,
        decreases width - i,
    {
        line.push(' ');
        i += 1;
        assert(line@ =~= before + padded(s@, i as int));
    }
    assert(padded(s@, i as int) =~= padded(s@, width as int));
    line.append(" ");
}

/// The mark of what is in front.
pub open spec fn mark(value: JsonView, key: Seq<char>) -> Seq<char> {
    if value.bool_at(key) == Some(true) {
        "*"@
    } else {
        Seq::empty()
    }
}

fn mark_of(value: &Json, key: &str) -> (text: &'static str)
    ensures
        text@ == mark(value@, key@),
{
    proof {
        reveal_strlit("");
        assert(""@ =~= Seq::<char>::empty());
    }
    match value.bool_at(key) {
        Some(true) => "*",
        _ => "",
    }
}

/// A line of the table of windows or of tabs.
pub open spec fn titled_line(
    value: JsonView,
    id_key: Seq<char>,
    id_width: int,
    mark_key: Seq<char>,
) -> Seq<char> {
    padded(scalar_or_dash(value, id_key), id_width) + " "@ + padded(
        notifications::text_or(value.text_at("title"@), "-"@),
        30,
    ) + " "@ + mark(value, mark_key)
}

fn titled(value: &Json, id_key: &str, id_width: usize, mark_key: &str) -> (line: String)
    ensures
        line@ == titled_line(value@, id_key@, id_width as int, mark_key@),
{
    let mut line = String::new();
    push_column(&mut line, json_str_or_num(value, id_key).as_str(), id_width);
    push_column(&mut line, str_or(value.str_at("title"), "-"), 30);
    line.append(mark_of(value, mark_key));
    assert(line@ =~= titled_line(value@, id_key@, id_width as int, mark_key@));
    line
}

/// A number that may be there, or a dash.
pub open spec fn number_or_dash(n: Option<u64>) -> Seq<char> {
    match n {
        Some(n) => text::decimal(n as nat),
        None => "-"@,
    }
}

fn number_or_dash_text(n: Option<u64>) -> (text: String)
    ensures
        text@ == number_or_dash(n),
{
    match n {
        Some(n) => number_text(n),
        None => "-".to_owned(),
    }
}

/// A side of the size of a pane.
pub open spec fn side(value: JsonView, key: Seq<char>) -> Option<u64> {
    match value.get("size"@) {
        Some(size) => size.u64_at(key),
        None => None,
    }
}

fn side_of(value: &Json, key: &str) -> (n: Option<u64>)
    ensures
        n == side(value@, key@),
{
    match value.get("size") {
        Some(size) => size.u64_at(key),
        None => None,
    }
}

/// A line of the table of panes.
pub open spec fn pane_line(value: JsonView) -> Seq<char> {
    padded(scalar_or_dash(value, "pane_id"@), 10) + " "@ + padded(
        number_or_dash(value.u64_at("pid"@)),
        8,
    ) + " "@ + padded(mark(value, "is_active"@), 8) + " "@ + padded(
        number_or_dash(side(value, "rows"@)),
        10,
    ) + " "@ + number_or_dash(side(value, "columns"@))
}

fn pane_row(value: &Json) -> (line: String)
    ensures
        line@ == pane_line(value@),
{
    let mut line = String::new();
    push_column(&mut line, json_str_or_num(value, "pane_id").as_str(), 10);
    push_column(&mut line, number_or_dash_text(value.u64_at("pid")).as_str(), 8);
    push_column(&mut line, mark_of(value, "is_active"), 8);
    push_column(&mut line, number_or_dash_text(side_of(value, "rows")).as_str(), 10);
    line.append(number_or_dash_text(side_of(value, "columns")).as_str());
    assert(line@ =~= pane_line(value@));
    line
}

/// What a table lists.
#[derive(Debug, Clone, Copy, PartialEq, Eq, Structural)]
pub enum Listing {
    Windows,
    Tabs,
    Panes,
}

/// The member that holds the list.
pub open spec fn list_key(listing: Listing) -> Seq<char> {
    match listing {
        Listing::Windows => "windows"@,
        Listing::Tabs => "tabs"@,
        Listing::Panes => "panes"@,
    }
}

/// The heading of a table.
pub open spec fn heading(listing: Listing) -> Seq<char> {
    match listing {
        Listing::Windows => padded("WINDOW_ID"@, 12) + " "@ + padded("TITLE"@, 30) + " "@
            + "FOCUSED"@,
        Listing::Tabs => padded("TAB_ID"@, 10) + " "@ + padded("TITLE"@, 30) + " "@ + "FOCUSED"@,
        Listing::Panes => padded("PANE_ID"@, 10) + " "@ + padded("PID"@, 8) + " "@ + padded(
            "ACTIVE"@,
            8,
        ) + " "@ + padded("ROWS"@, 10) + " "@ + "COLS"@,
    }
}

/// A line of a table.
pub open spec fn table_line(listing: Listing, value: JsonView) -> Seq<char> {
    match listing {
        Listing::Windows => titled_line(value, "window_id"@, 12, "is_focused"@),
        Listing::Tabs => titled_line(value, "tab_id"@, 10, "is_active"@),
        Listing::Panes => pane_line(value),
    }
}

/// What is said where there is nothing to list.
pub open spec fn nothing_found(listing: Listing) -> Seq<char> {
    match listing {
        Listing::Windows => "No windows found."@,
        Listing::Tabs => "No tabs found."@,
        Listing::Panes => "No panes found."@,
    }
}

/// The heading and the first `n` lines of a table.
pub open spec fn table(listing: Listing, items: Seq<JsonView>, n: int) -> Seq<char>
    decreases n,
{
    if n <= 0 || n > items.len() {
        heading(listing)
    } else {
        table(listing, items, n - 1) + "\n"@ + table_line(listing, items[n - 1])
    }
}

/// What is printed for people: a table, or the answer itself where it holds no
/// list.
pub open spec fn listing_text(listing: Listing, value: JsonView) -> Seq<char> {
    match value.array_at(list_key(listing)) {
        Some(items) => if items.len() == 0 {
            nothing_found(listing)
        } else {
            table(listing, items, items.len() as int)
        },
        None => json::pretty_json(value),
    }
}

fn heading_text(listing: Listing) -> (line: String)
    ensures
        line@ == heading(listing),
{
    let mut line = String::new();
    match listing {
        Listing::Windows => {
            push_column(&mut line, "WINDOW_ID", 12);
            push_column(&mut line, "TITLE", 30);
            line.append("FOCUSED");
        },
        Listing::Tabs => {
            push_column(&mut line, "TAB_ID", 10);
            push_column(&mut line, "TITLE", 30);
            line.append("FOCUSED");
        },
        Listing::Panes => {
            push_column(&mut line, "PANE_ID", 10);
            push_column(&mut line, "PID", 8);
            push_column(&mut line, "ACTIVE", 8);
            push_column(&mut line, "ROWS", 10);
            line.append("COLS");
        },
    }
    assert(line@ =~= heading(listing));
    line
}

fn row_text(listing: Listing, value: &Json) -> (line: String)
    ensures
        line@ == table_line(listing, value@),
{
    match listing {
        Listing::Windows => titled(value, "window_id", 12, "is_focused"),
        Listing::Tabs => titled(value, "tab_id", 10, "is_active"),
        Listing::Panes => pane_row(value),
    }
}

fn format_list(listing: Listing, val: &Json, key: &str, nothing: &str) -> (text: String)
    requires
        key@ == list_key(listing),
        nothing@ == nothing_found(listing),
    ensures
        text@ == listing_text(listing, val@),
{
    let items = match val.array_at(key) {
        Some(items) => items,
        None => return pretty_text(val),
    };
    if items.len() == 0 {
        return nothing.to_owned();
    }
    let ghost seen = val@.array_at(key@)->0;
    let mut text = heading_text(listing);
    let mut i: usize = 0;
    while i < items.len()
        invariant
            i <= items@.len(),
            seen.len() == items@.len(),
            forall|j: int| 0 <= j < items@.len() ==> #[trigger] seen[j] == items@[j]@,
            text@ == table(listing, seen, i as int),
        decreases items@.len() - i,
    {
        text.append("\n");
        text.append(row_text(listing, &items[i]).as_str());
        i += 1;
    }
    text
}

/// The windows, for people.
pub fn format_windows_human(val: &Json) -> (text: String)
    ensures
        text@ == listing_text(Listing::Windows, val@),
{
    format_list(Listing::Windows, val, "windows", "No windows found.")
}

/// The tabs of a window, for people.
pub fn format_tabs_human(val: &Json) -> (text: String)
    ensures
        text@ == listing_text(Listing::Tabs, val@),
{
    format_list(Listing::Tabs, val, "tabs", "No tabs found.")
}

/// The panes of a tab, for people.
pub fn format_panes_human(val: &Json) -> (text: String)
    ensures
        text@ == listing_text(Listing::Panes, val@),
{
    format_list(Listing::Panes, val, "panes", "No panes found.")
}

/// The pane in front.
pub open spec fn active_pane_text(value: JsonView) -> Seq<char> {
    "Active pane: "@ + scalar_or_dash(value, "pane_id"@) + " (tab: "@ + scalar_or_dash(
        value,
        "tab_id"@,
    ) + ", window: "@ + scalar_or_dash(value, "window_id"@) + ")"@
}

/// The pane in front, for people.
pub fn format_active_pane(val: &Json) -> (text: String)
    ensures
        text@ == active_pane_text(val@),
{
    let mut text = "Active pane: ".to_owned();
    text.append(json_str_or_num(val, "pane_id").as_str());
    text.append(" (tab: ");
    text.append(json_str_or_num(val, "tab_id").as_str());
    text.append(", window: ");
    text.append(json_str_or_num(val, "window_id").as_str());
    text.append(")");
    text
}

/// The process of the pane is running.
pub open spec fn is_running(value: JsonView) -> bool {
    value.text_at("state"@) == Some("running"@)
}

/// Whether the process of the pane is running.
pub fn running(val: &Json) -> (yes: bool)
    ensures
        yes == is_running(val@),
{
    match val.str_at("state") {
        Some(state) => same_text(state, "running"),
        None => false,
    }
}

/// The process of a pane.
pub open spec fn status_text(value: JsonView) -> Seq<char> {
    let pid = number_or_dash(value.u64_at("pid"@));
    let code = match value.i64_at("exit_code"@) {
        Some(code) => text::signed_decimal(code as int),
        None => "-"@,
    };
    if is_running(value) {
        "Running (PID: "@ + pid + ")"@
    } else {
        "Exited (code: "@ + code + ", PID: "@ + pid + ")"@
    }
}

/// The process of a pane, for people.
pub fn format_pane_status(val: &Json) -> (text: String)
    ensures
        text@ == status_text(val@),
{
    let pid = number_or_dash_text(val.u64_at("pid"));
    if running(val) {
        let mut text = "Running (PID: ".to_owned();
        text.append(pid.as_str());
        text.append(")");
        return text;
    }
    let code = match val.i64_at("exit_code") {
        Some(code) => signed_number_text(code),
        None => "-".to_owned(),
    };
    let mut text = "Exited (code: ".to_owned();
    text.append(code.as_str());
    text.append(", PID: ");
    text.append(pid.as_str());
    text.append(")");
    text
}

/// A tab that was opened.
pub open spec fn created_tab_text(value: JsonView) -> Seq<char> {
    "Created tab "@ + scalar_or_dash(value, "tab_id"@) + " (pane "@ + scalar_or_dash(
        value,
        "pane_id"@,
    ) + ")"@
}

/// A tab that was opened, for people.
pub fn format_created_tab(val: &Json) -> (text: String)
    ensures
        text@ == created_tab_text(val@),
{
    let mut text = "Created tab ".to_owned();
    text.append(json_str_or_num(val, "tab_id").as_str());
    text.append(" (pane ");
    text.append(json_str_or_num(val, "pane_id").as_str());
    text.append(")");
    text
}

/// A pane that was opened.
pub open spec fn created_pane_text(value: JsonView) -> Seq<char> {
    "Created pane "@ + scalar_or_dash(value, "pane_id"@)
}

/// A pane that was opened, for people.
pub fn format_created_pane(val: &Json) -> (text: String)
    ensures
        text@ == created_pane_text(val@),
{
    let mut text = "Created pane ".to_owned();
    text.append(json_str_or_num(val, "pane_id").as_str());
    text
}

/// How an answer is shown to people.
#[derive(Debug, Clone, Copy, PartialEq, Eq, Structural)]
pub enum Format {
    Table(Listing),
    ActivePane,
    PaneStatus,
    CreatedTab,
    CreatedPane,
}

/// What is printed for an answer: indented JSON where that is asked for.
pub open spec fn printed(value: JsonView, json_mode: bool, format: Format) -> Seq<char> {
    if json_mode {
        json::pretty_json(value)
    } else {
        match format {
            Format::Table(listing) => listing_text(listing, value),
            Format::ActivePane => active_pane_text(value),
            Format::PaneStatus => status_text(value),
            Format::CreatedTab => created_tab_text(value),
            Format::CreatedPane => created_pane_text(value),
        }
    }
}

/// What is printed for an answer.
pub fn print_output(val: &Json, json_mode: bool, format: Format) -> (text: String)
    ensures
        text@ == printed(val@, json_mode, format),
{
    if json_mode {
        return pretty_text(val);
    }
    match format {
        Format::Table(Listing::Windows) => format_windows_human(val),
        Format::Table(Listing::Tabs) => format_tabs_human(val),
        Format::Table(Listing::Panes) => format_panes_human(val),
        Format::ActivePane => format_active_pane(val),
        Format::PaneStatus => format_pane_status(val),
        Format::CreatedTab => format_created_tab(val),
        Format::CreatedPane => format_created_pane(val),
    }
}

} // verus!
