//! A walk through the windows, tabs and panes of the terminal in search of the
//! pane of a process.
use super::commands;
use crate::coordinator;
use crate::coordinator::value_to_string;
use crate::json;
use crate::json::{add_member, object, text_value, Json, JsonView};
use crate::text;
use crate::text::number_text;
use vstd::prelude::*;

verus! {

/// What a walk waits for.
#[derive(Debug, Clone, Copy, PartialEq, Eq, Structural)]
pub enum Awaiting {
    Windows,
    Tabs,
    Panes,
    /// Nothing: the walk is over.
    Nothing,
}

/// Where a pane is.
#[derive(Debug)]
pub struct PaneIdentity {
    pub pane_id: String,
    pub tab_id: String,
    pub window_id: String,
}

pub ghost struct IdentityView {
    pub pane_id: Seq<char>,
    pub tab_id: Seq<char>,
    pub window_id: Seq<char>,
}

impl View for PaneIdentity {
    type V = IdentityView;

    open spec fn view(&self) -> IdentityView {
        IdentityView {
            pane_id: self.pane_id@,
            tab_id: self.tab_id@,
            window_id: self.window_id@,
        }
    }
}

pub open spec fn identity_seen(identity: Option<PaneIdentity>) -> Option<IdentityView> {
    match identity {
        Some(identity) => Some(identity@),
        None => None,
    }
}

/// A walk through the terminal. A thorough one visits every pane, passes over
/// what it cannot read, and counts; another one ends with the first pane that it
/// looks for, or with the first answer that it cannot read.
#[derive(Debug)]
pub struct PaneWalk {
    pub thorough: bool,
    pub pid: u32,
    pub awaiting: Awaiting,
    /// The answer with the windows, and the window that comes next.
    pub windows: Json,
    pub next_window: usize,
    pub window_id: String,
    /// The answer with the tabs of that window, and the tab that comes next.
    pub tabs: Json,
    pub next_tab: usize,
    pub tab_id: String,
    pub found: Option<PaneIdentity>,
    pub total_windows: u32,
    pub total_tabs: u32,
    pub total_panes: u32,
}

pub ghost struct WalkView {
    pub thorough: bool,
    pub pid: u32,
    pub awaiting: Awaiting,
    pub windows: JsonView,
    pub next_window: int,
    pub window_id: Seq<char>,
    pub tabs: JsonView,
    pub next_tab: int,
    pub tab_id: Seq<char>,
    pub found: Option<IdentityView>,
    pub total_windows: u32,
    pub total_tabs: u32,
    pub total_panes: u32,
}

impl View for PaneWalk {
    type V = WalkView;

    open spec fn view(&self) -> WalkView {
        WalkView {
            thorough: self.thorough,
            pid: self.pid,
            awaiting: self.awaiting,
            windows: self.windows@,
            next_window: self.next_window as int,
            window_id: self.window_id@,
            tabs: self.tabs@,
            next_tab: self.next_tab as int,
            tab_id: self.tab_id@,
            found: identity_seen(self.found),
            total_windows: self.total_windows,
            total_tabs: self.total_tabs,
            total_panes: self.total_panes,
        }
    }
}

/// The list in an answer; an answer without one holds nothing.
pub open spec fn items(value: JsonView, key: Seq<char>) -> Seq<JsonView> {
    match value.array_at(key) {
        Some(items) => items,
        None => Seq::empty(),
    }
}

/// The first window from `from` on whose id is known. Only a thorough walk passes
/// over others.
pub open spec fn window_from(windows: Seq<JsonView>, from: int, thorough: bool) -> Option<
    (int, Seq<char>),
>
    decreases windows.len() - from,
{
    if from < 0 || from >= windows.len() {
        None
    } else {
        match windows[from].text_at("window_id"@) {
            Some(id) => Some((from, id)),
            None => if thorough {
                window_from(windows, from + 1, thorough)
            } else {
                None
            },
        }
    }
}

/// The first tab from `from` on whose id is known.
pub open spec fn tab_from(tabs: Seq<JsonView>, from: int) -> Option<(int, Seq<char>)>
    decreases tabs.len() - from,
{
    if from < 0 || from >= tabs.len() {
        None
    } else {
        match coordinator::scalar_text(tabs[from].get("tab_id"@)) {
            Some(id) => Some((from, id)),
            None => tab_from(tabs, from + 1),
        }
    }
}

/// The pane belongs to the process.
pub open spec fn belongs(pane: JsonView, pid: u32) -> bool {
    pane.u64_at("pid"@) == Some(pid as u64)
}

/// The first pane of the process whose id is known.
pub open spec fn own_pane(panes: Seq<JsonView>, pid: u32, from: int) -> Option<Seq<char>>
    decreases panes.len() - from,
{
    if from < 0 || from >= panes.len() {
        None
    } else if belongs(panes[from], pid) && coordinator::scalar_text(
        panes[from].get("pane_id"@),
    ) is Some {
        coordinator::scalar_text(panes[from].get("pane_id"@))
    } else {
        own_pane(panes, pid, from + 1)
    }
}

/// The last of the first `n` panes that belongs to the process, by its id or a
/// question mark.
pub open spec fn latest_own_pane(panes: Seq<JsonView>, pid: u32, n: int) -> Option<Seq<char>>
    decreases n,
{
    if n <= 0 || n > panes.len() {
        None
    } else if belongs(panes[n - 1], pid) {
        match coordinator::scalar_text(panes[n - 1].get("pane_id"@)) {
            Some(id) => Some(id),
            None => Some("?"@),
        }
    } else {
        latest_own_pane(panes, pid, n - 1)
    }
}

/// The total with `n` more, as far as its type goes.
pub open spec fn counted(total: u32, n: nat) -> u32 {
    if total + n > u32::MAX {
        u32::MAX
    } else {
        (total + n) as u32
    }
}

impl WalkView {
    /// A walk that has not begun.
    pub open spec fn begun(thorough: bool, pid: u32) -> WalkView {
        WalkView {
            thorough,
            pid,
            awaiting: Awaiting::Windows,
            windows: JsonView::Null,
            next_window: 0,
            window_id: Seq::empty(),
            tabs: JsonView::Null,
            next_tab: 0,
            tab_id: Seq::empty(),
            found: None,
            total_windows: 0,
            total_tabs: 0,
            total_panes: 0,
        }
    }

    pub open spec fn ended(self) -> WalkView {
        WalkView { awaiting: Awaiting::Nothing, ..self }
    }

    /// The walk goes on to the next window.
    pub open spec fn to_window(self) -> WalkView {
        match window_from(items(self.windows, "windows"@), self.next_window, self.thorough) {
            Some((i, id)) => WalkView {
                awaiting: Awaiting::Tabs,
                next_window: i + 1,
                window_id: id,
                ..self
            },
            None => self.ended(),
        }
    }

    /// The walk goes on to the next tab, or to the next window after the last.
    pub open spec fn to_tab(self) -> WalkView {
        match tab_from(items(self.tabs, "tabs"@), self.next_tab) {
            Some((i, id)) => WalkView {
                awaiting: Awaiting::Panes,
                next_tab: i + 1,
                tab_id: id,
                ..self
            },
            None => self.to_window(),
        }
    }

    /// The windows are there.
    pub open spec fn with_windows(self, value: JsonView) -> WalkView {
        WalkView {
            windows: value,
            next_window: 0,
            total_windows: counted(0, items(value, "windows"@).len()),
            ..self
        }
    }

    /// The tabs of the window are there.
    pub open spec fn with_tabs(self, value: JsonView) -> WalkView {
        WalkView {
            tabs: value,
            next_tab: 0,
            total_tabs: counted(self.total_tabs, items(value, "tabs"@).len()),
            ..self
        }
    }

    /// A pane of the process is found.
    pub open spec fn with_pane(self, pane: Option<Seq<char>>) -> WalkView {
        match pane {
            Some(pane_id) => WalkView {
                found: Some(
                    IdentityView { pane_id, tab_id: self.tab_id, window_id: self.window_id },
                ),
                ..self
            },
            None => self,
        }
    }

    pub open spec fn with_panes_counted(self, panes: Seq<JsonView>) -> WalkView {
        WalkView { total_panes: counted(self.total_panes, panes.len()), ..self }
    }

    /// The panes of the tab are there.
    pub open spec fn with_panes(self, value: JsonView) -> WalkView {
        let panes = items(value, "panes"@);
        let counted = self.with_panes_counted(panes);
        if self.thorough {
            counted.with_pane(latest_own_pane(panes, self.pid, panes.len() as int)).to_tab()
        } else {
            match own_pane(panes, self.pid, 0) {
                Some(pane) => counted.with_pane(Some(pane)).ended(),
                None => counted.to_tab(),
            }
        }
    }

    /// An answer arrives, or none where the request failed.
    pub open spec fn with_answer(self, reply: Option<JsonView>) -> WalkView {
        match self.awaiting {
            Awaiting::Windows => match reply {
                Some(value) => if value.array_at("windows"@) is Some {
                    self.with_windows(value).to_window()
                } else {
                    self.ended()
                },
                None => self.ended(),
            },
            Awaiting::Tabs => {
                let readable = reply matches Some(value) && value.array_at("tabs"@) is Some;
                if readable {
                    self.with_tabs(reply->0).to_tab()
                } else if self.thorough {
                    self.to_window()
                } else {
                    self.ended()
                }
            },
            Awaiting::Panes => {
                let readable = reply matches Some(value) && value.array_at("panes"@) is Some;
                if readable {
                    self.with_panes(reply->0)
                } else if self.thorough {
                    self.to_tab()
                } else {
                    self.ended()
                }
            },
            Awaiting::Nothing => self,
        }
    }

    /// What the walk asks next.
    pub open spec fn question(self) -> Option<(Seq<char>, JsonView)> {
        match self.awaiting {
            Awaiting::Windows => Some(("list_windows"@, commands::nothing())),
            Awaiting::Tabs => Some(
                (
                    "list_tabs"@,
                    JsonView::Object(commands::naming("window_id"@, self.window_id)),
                ),
            ),
            Awaiting::Panes => Some(
                ("list_panes"@, JsonView::Object(commands::naming("tab_id"@, self.tab_id))),
            ),
            Awaiting::Nothing => None,
        }
    }
}

fn count(total: u32, n: usize) -> (r: u32)
    ensures
        r == counted(total, n as nat),
{
    if n > u32::MAX as usize {
        u32::MAX
    } else {
        total.saturating_add(n as u32)
    }
}

/// The next window whose id is known.
#[verifier::loop_isolation(false)]
fn find_window(windows: &Json, from: usize, thorough: bool) -> (r: Option<(usize, String)>)
    ensures
        match r {
            Some(r) => window_from(items(windows@, "windows"@), from as int, thorough) == Some(
                (r.0 as int, r.1@),
            ) && r.0 < usize::MAX,
            None => window_from(items(windows@, "windows"@), from as int, thorough) is None,
        },
{
    let list = match windows.array_at("windows") {
        Some(list) => list,
        None => return None,
    };
    let ghost seen = items(windows@, "windows"@);
    let n: usize = list.len();
    let mut i: usize = from;
    while i < n
        invariant
            n == list@.len(),
            seen.len() == n,
            forall|j: int| 0 <= j < n ==> #[trigger] seen[j] == list@[j]@,
            window_from(seen, from as int, thorough) == window_from(seen, i as int, thorough),
        decreases n - i,
    {
        assert(seen[i as int] == list@[i as int]@);
        if let Some(id) = list[i].str_at("window_id") {
            return Some((i, id.to_owned()));
        }
        if !thorough {
            return None;
        }
        i += 1;
    }
    None
}

/// The next tab whose id is known.
#[verifier::loop_isolation(false)]
fn find_tab(tabs: &Json, from: usize) -> (r: Option<(usize, String)>)
    ensures
        match r {
            Some(r) => tab_from(items(tabs@, "tabs"@), from as int) == Some((r.0 as int, r.1@))
                && r.0 < usize::MAX,
            None => tab_from(items(tabs@, "tabs"@), from as int) is None,
        },
{
    let list = match tabs.array_at("tabs") {
        Some(list) => list,
        None => return None,
    };
    let ghost seen = items(tabs@, "tabs"@);
    let n: usize = list.len();
    let mut i: usize = from;
    while i < n
        invariant
            n == list@.len(),
            seen.len() == n,
            forall|j: int| 0 <= j < n ==> #[trigger] seen[j] == list@[j]@,
            tab_from(seen, from as int) == tab_from(seen, i as int),
        decreases n - i,
    {
        assert(seen[i as int] == list@[i as int]@);
        if let Some(id) = value_to_string(list[i].get("tab_id")) {
            return Some((i, id));
        }
        i += 1;
    }
    None
}

fn is_own(pane: &Json, pid: u32) -> (yes: bool)
    ensures
        yes == belongs(pane@, pid),
{
    match pane.u64_at("pid") {
        Some(n) => n == pid as u64,
        None => false,
    }
}

/// The first pane of the process whose id is known.
#[verifier::loop_isolation(false)]
fn find_pane(list: &Vec<Json>, pid: u32) -> (id: Option<String>)
    ensures
        coordinator::seen(id) == own_pane(json::items_view(list@), pid, 0),
{
    let ghost seen = json::items_view(list@);
    let n: usize = list.len();
    let mut i: usize = 0;
    while i < n
        invariant
            i <= n,
            n == list@.len(),
            seen.len() == n,
            own_pane(seen, pid, 0) == own_pane(seen, pid, i as int),
        decreases n - i,
    {
        assert(seen[i as int] == list@[i as int]@);
        if is_own(&list[i], pid) {
            if let Some(id) = value_to_string(list[i].get("pane_id")) {
                return Some(id);
            }
        }
        i += 1;
    }
    None
}

/// The last pane of the process.
#[verifier::loop_isolation(false)]
fn find_latest_pane(list: &Vec<Json>, pid: u32) -> (id: Option<String>)
    ensures
        coordinator::seen(id) == latest_own_pane(json::items_view(list@), pid, list@.len() as int),
{
    let ghost seen = json::items_view(list@);
    let mut i: usize = list.len();
    while i > 0
        invariant
            i <= list@.len(),
            seen.len() == list@.len(),
            latest_own_pane(seen, pid, list@.len() as int) == latest_own_pane(
                seen,
                pid,
                i as int,
            ),
        decreases i,
    {
        assert(seen[i - 1] == list@[i - 1]@);
        if is_own(&list[i - 1], pid) {
            return match value_to_string(list[i - 1].get("pane_id")) {
                Some(id) => Some(id),
                None => Some("?".to_owned()),
            };
        }
        i -= 1;
    }
    None
}

impl PaneWalk {
    /// A walk that looks for the pane of the process `pid`.
    pub fn new(thorough: bool, pid: u32) -> (walk: Self)
        ensures
            walk@ == WalkView::begun(thorough, pid),
    {
        PaneWalk {
            thorough,
            pid,
            awaiting: Awaiting::Windows,
            windows: Json::Null,
            next_window: 0,
            window_id: String::new(),
            tabs: Json::Null,
            next_tab: 0,
            tab_id: String::new(),
            found: None,
            total_windows: 0,
            total_tabs: 0,
            total_panes: 0,
        }
    }

    fn end(&mut self)
        ensures
            final(self)@ == old(self)@.ended(),
    {
        self.awaiting = Awaiting::Nothing;
    }

    fn go_to_window(&mut self)
        ensures
            final(self)@ == old(self)@.to_window(),
    {
        match find_window(&self.windows, self.next_window, self.thorough) {
            Some((i, id)) => {
                self.awaiting = Awaiting::Tabs;
                self.next_window = i + 1;
                self.window_id = id;
            },
            None => self.end(),
        }
    }

    fn go_to_tab(&mut self)
        ensures
            final(self)@ == old(self)@.to_tab(),
    {
        match find_tab(&self.tabs, self.next_tab) {
            Some((i, id)) => {
                self.awaiting = Awaiting::Panes;
                self.next_tab = i + 1;
                self.tab_id = id;
            },
            None => self.go_to_window(),
        }
    }

    fn take_pane(&mut self, pane: Option<String>)
        ensures
            final(self)@ == old(self)@.with_pane(coordinator::seen(pane)),
    {
        if let Some(pane_id) = pane {
            self.found = Some(
                PaneIdentity {
                    pane_id,
                    tab_id: self.tab_id.clone(),
                    window_id: self.window_id.clone(),
                },
            );
        }
    }

    fn count_panes(&mut self, n: usize)
        ensures
            final(self)@ == (WalkView {
                total_panes: counted(old(self)@.total_panes, n as nat),
                ..old(self)@
            }),
    {
        self.total_panes = count(self.total_panes, n);
    }

    fn take_panes(&mut self, value: &Json)
        requires
            value@.array_at("panes"@) is Some,
        ensures
            final(self)@ == old(self)@.with_panes(value@),
    {
        if let Some(panes) = value.array_at("panes") {
            self.count_panes(panes.len());
            if self.thorough {
                let pane = find_latest_pane(panes, self.pid);
                self.take_pane(pane);
                self.go_to_tab();
            } else {
                match find_pane(panes, self.pid) {
                    Some(pane) => {
                        self.take_pane(Some(pane));
                        self.end();
                    },
                    None => self.go_to_tab(),
                }
            }
        }
    }

    fn take_windows(&mut self, value: Json)
        ensures
            final(self)@ == old(self)@.with_windows(value@),
    {
        let n: usize = match value.array_at("windows") {
            Some(list) => list.len(),
            None => 0,
        };
        self.total_windows = count(0, n);
        self.windows = value;
        self.next_window = 0;
    }

    fn take_tabs(&mut self, value: Json)
        ensures
            final(self)@ == old(self)@.with_tabs(value@),
    {
        let n: usize = match value.array_at("tabs") {
            Some(list) => list.len(),
            None => 0,
        };
        self.total_tabs = count(self.total_tabs, n);
        self.tabs = value;
        self.next_tab = 0;
    }

    /// Takes an answer, or none where the request failed.
    pub fn answer(&mut self, reply: Option<Json>)
        ensures
            final(self)@ == old(self)@.with_answer(
                match reply {
                    Some(value) => Some(value@),
                    None => None,
                },
            ),
    {
        match self.awaiting {
            Awaiting::Windows => {
                if let Some(value) = reply {
                    if value.array_at("windows").is_some() {
                        self.take_windows(value);
                        self.go_to_window();
                        return;
                    }
                }
                self.end();
            },
            Awaiting::Tabs => {
                if let Some(value) = reply {
                    if value.array_at("tabs").is_some() {
                        self.take_tabs(value);
                        self.go_to_tab();
                        return;
                    }
                }
                if self.thorough {
                    self.go_to_window();
                } else {
                    self.end();
                }
            },
            Awaiting::Panes => {
                if let Some(value) = reply {
                    if value.array_at("panes").is_some() {
                        self.take_panes(&value);
                        return;
                    }
                }
                if self.thorough {
                    self.go_to_tab();
                } else {
                    self.end();
                }
            },
            Awaiting::Nothing => {},
        }
    }

    /// What the walk asks next.
    pub fn question(&self) -> (question: Option<(String, Json)>)
        ensures
            match question {
                Some(question) => self@.question() == Some((question.0@, question.1@)),
                None => self@.question() is None,
            },
    {
        let mut members: Vec<(String, Json)> = Vec::new();
        assert(json::members_view(members@) =~= Seq::<(Seq<char>, JsonView)>::empty());
        match self.awaiting {
            Awaiting::Windows => Some(("list_windows".to_owned(), object(members))),
            Awaiting::Tabs => {
                add_member(&mut members, "window_id", text_value(self.window_id.as_str()));
                assert(json::members_view(members@) =~= commands::naming(
                    "window_id"@,
                    self.window_id@,
                ));
                Some(("list_tabs".to_owned(), object(members)))
            },
            Awaiting::Panes => {
                add_member(&mut members, "tab_id", text_value(self.tab_id.as_str()));
                assert(json::members_view(members@) =~= commands::naming("tab_id"@, self.tab_id@));
                Some(("list_panes".to_owned(), object(members)))
            },
            Awaiting::Nothing => None,
        }
    }
}

/// The lines that `info` prints about the pane and the terminal.
pub open spec fn summary_lines(walk: WalkView) -> Seq<Seq<char>> {
    let pid = text::decimal(walk.pid as nat);
    let pane = match walk.found {
        Some(found) => seq![
            "Current Pane (PID "@ + pid + "):"@,
            "  Window ID: "@ + found.window_id,
            "  Tab ID:    "@ + found.tab_id,
            "  Pane ID:   "@ + found.pane_id,
        ],
        None => seq!["Current Pane (PID "@ + pid + "): not found in WT pane list"@],
    };
    pane + seq![
        Seq::empty(),
        "Summary:"@,
        "  Windows: "@ + text::decimal(walk.total_windows as nat) + ", Tabs: "@ + text::decimal(
            walk.total_tabs as nat,
        ) + ", Panes: "@ + text::decimal(walk.total_panes as nat),
    ]
}

/// The lines that `info` prints about the pane and the terminal.
pub fn walk_summary(walk: &PaneWalk) -> (lines: Vec<String>)
    ensures
        text::texts(lines@) == summary_lines(walk@),
{
    let mut lines: Vec<String> = Vec::new();
    let mut head = "Current Pane (PID ".to_owned();
    head.append(number_text(walk.pid as u64).as_str());
    match &walk.found {
        Some(found) => {
            head.append("):");
            let mut window = "  Window ID: ".to_owned();
            window.append(found.window_id.as_str());
            let mut tab = "  Tab ID:    ".to_owned();
            tab.append(found.tab_id.as_str());
            let mut pane = "  Pane ID:   ".to_owned();
            pane.append(found.pane_id.as_str());
            lines.push(head);
            lines.push(window);
            lines.push(tab);
            lines.push(pane);
        },
        None => {
            head.append("): not found in WT pane list");
            lines.push(head);
        },
    }
    lines.push(String::new());
    lines.push("Summary:".to_owned());
    let mut totals = "  Windows: ".to_owned();
    totals.append(number_text(walk.total_windows as u64).as_str());
    totals.append(", Tabs: ");
    totals.append(number_text(walk.total_tabs as u64).as_str());
    totals.append(", Panes: ");
    totals.append(number_text(walk.total_panes as u64).as_str());
    lines.push(totals);
    assert(text::texts(lines@) =~= summary_lines(walk@));
    lines
}

proof fn lemma_window_found(windows: Seq<JsonView>, from: int, thorough: bool)
    requires
        0 <= from,
    ensures
        window_from(windows, from, thorough) matches Some(found) ==> from <= found.0
            < windows.len(),
    decreases windows.len() - from,
{
    if from < windows.len() && thorough {
        lemma_window_found(windows, from + 1, thorough);
    }
}

proof fn lemma_tab_found(tabs: Seq<JsonView>, from: int)
    requires
        0 <= from,
    ensures
        tab_from(tabs, from) matches Some(found) ==> from <= found.0 < tabs.len(),
    decreases tabs.len() - from,
{
    if from < tabs.len() {
        lemma_tab_found(tabs, from + 1);
    }
}

/// How many windows a walk has not come to yet.
pub open spec fn windows_left(walk: WalkView) -> int {
    items(walk.windows, "windows"@).len() - walk.next_window
}

/// How many tabs of the window a walk has not come to yet.
pub open spec fn tabs_left(walk: WalkView) -> int {
    items(walk.tabs, "tabs"@).len() - walk.next_tab
}

/// A walk is over after as many answers as the terminal has windows and tabs:
/// each answer after the first ends it, or leaves fewer windows, or as many
/// windows and fewer tabs, or leads from a window to its tabs.
pub proof fn law_walks_come_to_an_end(walk: WalkView, reply: Option<JsonView>)
    requires
        walk.next_window >= 0,
        walk.next_tab >= 0,
        walk.awaiting == Awaiting::Tabs || walk.awaiting == Awaiting::Panes,
    ensures
        ({
            let after = walk.with_answer(reply);
            ||| after.awaiting == Awaiting::Nothing
            ||| 0 <= windows_left(after) < windows_left(walk)
            ||| windows_left(after) == windows_left(walk) && walk.awaiting == Awaiting::Tabs
                && after.awaiting == Awaiting::Panes
            ||| windows_left(after) == windows_left(walk) && 0 <= tabs_left(after) < tabs_left(
                walk,
            )
        }),
{
    lemma_window_found(items(walk.windows, "windows"@), walk.next_window, walk.thorough);
    lemma_tab_found(items(walk.tabs, "tabs"@), walk.next_tab);
    if let Some(value) = reply {
        lemma_tab_found(items(value, "tabs"@), 0);
    }
}

proof fn lemma_own_pane(panes: Seq<JsonView>, pid: u32, from: int)
    requires
        0 <= from,
    ensures
        own_pane(panes, pid, from) matches Some(id) ==> exists|i: int|
            from <= i < panes.len() && belongs(#[trigger] panes[i], pid)
                && coordinator::scalar_text(panes[i].get("pane_id"@)) == Some(id),
    decreases panes.len() - from,
{
    if from < panes.len() {
        lemma_own_pane(panes, pid, from + 1);
        if own_pane(panes, pid, from) is Some {
            let id = own_pane(panes, pid, from)->0;
            if !(belongs(panes[from], pid) && coordinator::scalar_text(
                panes[from].get("pane_id"@),
            ) is Some) {
                let i = choose|i: int|
                    from + 1 <= i < panes.len() && belongs(#[trigger] panes[i], pid)
                        && coordinator::scalar_text(panes[i].get("pane_id"@)) == Some(id);
                assert(from <= i < panes.len() && belongs(panes[i], pid));
            } else {
                assert(belongs(panes[from], pid));
            }
        }
    }
}

/// The pane that a quick walk finds is one of the process.
pub proof fn law_found_pane_belongs_to_the_process(walk: WalkView, value: JsonView)
    requires
        !walk.thorough,
        walk.awaiting == Awaiting::Panes,
        walk.found is None,
        value.array_at("panes"@) is Some,
        walk.with_answer(Some(value)).found is Some,
    ensures
        ({
            let found = walk.with_answer(Some(value)).found->0;
            let panes = items(value, "panes"@);
            &&& found.tab_id == walk.tab_id
            &&& found.window_id == walk.window_id
            &&& exists|i: int|
                0 <= i < panes.len() && belongs(#[trigger] panes[i], walk.pid)
                    && coordinator::scalar_text(panes[i].get("pane_id"@)) == Some(found.pane_id)
        }),
{
    lemma_own_pane(items(value, "panes"@), walk.pid, 0);
}

} // verus!
