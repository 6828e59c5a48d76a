//! What the commands ask of the terminal, one request after the other, and what
//! they print in the end.
use super::keys;
use super::keys::translate_keys;
use super::output;
use super::output::{print_output, running, Format, Listing};
use crate::coordinator;
use crate::coordinator::value_to_string;
use crate::json;
use crate::json::{
    add_member, array, object, pretty_text, text_value, Json, JsonNumber, JsonView, NumberView,
};
use crate::text;
use crate::text::number_text;
use vstd::prelude::*;

verus! {

/// Which way a pane is split, by the flags of the command.
#[derive(Debug, Clone, Copy, PartialEq, Eq, Structural)]
pub struct SplitFlags {
    pub horizontal: bool,
    pub vertical: bool,
    pub right: bool,
    pub left: bool,
    pub down: bool,
    pub up: bool,
}

/// A command that controls the terminal. The size of a split is the text of a
/// number.
#[derive(Debug)]
pub enum Command {
    ListWindows,
    ListTabs { window_id: Option<String> },
    ListPanes { tab_id: Option<String>, window_id: Option<String> },
    NewTab { command: Option<String>, cwd: Option<String>, title: Option<String> },
    SplitPane {
        target: Option<String>,
        flags: SplitFlags,
        size: Option<String>,
        command: Option<String>,
    },
    SendKeys { target: Option<String>, keys: Vec<String> },
    CapturePane { target: Option<String>, max_lines: Option<u32> },
    KillPane { target: Option<String> },
    ActivePane,
    PaneStatus { target: Option<String> },
    /// The timeout is in seconds; zero waits forever.
    WaitFor { target: String, timeout: u64 },
    QuickPick { choices: Vec<String>, title: String, free_input: bool },
}

/// What an answer is waited for.
#[derive(Debug)]
pub enum Stage {
    /// The windows, of which the first is taken.
    Windows,
    /// The tabs of a window, of which the first is taken.
    Tabs { window_id: String },
    /// The pane in front.
    ActivePane,
    /// The last answer, about a pane where the command is about one.
    Last { pane_id: String },
}

pub ghost enum StageView {
    Windows,
    Tabs { window_id: Seq<char> },
    ActivePane,
    Last { pane_id: Seq<char> },
}

impl View for Stage {
    type V = StageView;

    open spec fn view(&self) -> StageView {
        match *self {
            Stage::Windows => StageView::Windows,
            Stage::Tabs { window_id } => StageView::Tabs { window_id: window_id@ },
            Stage::ActivePane => StageView::ActivePane,
            Stage::Last { pane_id } => StageView::Last { pane_id: pane_id@ },
        }
    }
}

/// What a command does next.
#[derive(Debug)]
pub enum Step {
    /// Ask the terminal, and go on with the answer.
    Ask { method: String, params: Json, stage: Stage },
    /// Wait a while, and start again.
    Wait,
    /// Print a line, and end.
    Print(String),
    /// Print a text as it is, and end.
    PrintRaw(String),
    /// End without a word.
    Silent,
    /// The user cancelled: end with a failure, without a word.
    Cancelled,
    /// End with a message.
    Fail(String),
}

pub ghost enum StepView {
    Ask { method: Seq<char>, params: JsonView, stage: StageView },
    Wait,
    Print(Seq<char>),
    PrintRaw(Seq<char>),
    Silent,
    Cancelled,
    Fail(Seq<char>),
}

impl View for Step {
    type V = StepView;

    open spec fn view(&self) -> StepView {
        match *self {
            Step::Ask { method, params, stage } => StepView::Ask {
                method: method@,
                params: params@,
                stage: stage@,
            },
            Step::Wait => StepView::Wait,
            Step::Print(text) => StepView::Print(text@),
            Step::PrintRaw(text) => StepView::PrintRaw(text@),
            Step::Silent => StepView::Silent,
            Step::Cancelled => StepView::Cancelled,
            Step::Fail(message) => StepView::Fail(message@),
        }
    }
}

/// The direction of a split: a horizontal divider puts the new pane below, and a
/// vertical one to the right.
pub open spec fn direction_of(flags: SplitFlags) -> Seq<char> {
    if flags.right {
        "right"@
    } else if flags.left {
        "left"@
    } else if flags.down {
        "down"@
    } else if flags.up {
        "up"@
    } else if flags.horizontal {
        "down"@
    } else if flags.vertical {
        "right"@
    } else {
        "automatic"@
    }
}

/// The direction of a split.
pub fn split_direction(flags: SplitFlags) -> (direction: &'static str)
    ensures
        direction@ == direction_of(flags),
{
    if flags.right {
        "right"
    } else if flags.left {
        "left"
    } else if flags.down {
        "down"
    } else if flags.up {
        "up"
    } else if flags.horizontal {
        "down"
    } else if flags.vertical {
        "right"
    } else {
        "automatic"
    }
}

/// The first window of an answer.
pub open spec fn first_window(value: JsonView) -> Option<Seq<char>> {
    match value.array_at("windows"@) {
        Some(items) => if items.len() > 0 {
            items[0].text_at("window_id"@)
        } else {
            None
        },
        None => None,
    }
}

/// The first tab of an answer.
pub open spec fn first_tab(value: JsonView) -> Option<Seq<char>> {
    match value.array_at("tabs"@) {
        Some(items) => if items.len() > 0 {
            coordinator::scalar_text(items[0].get("tab_id"@))
        } else {
            None
        },
        None => None,
    }
}

/// The first window of an answer.
pub fn get_first_window_id(result: &Json) -> (r: Result<String, String>)
    ensures
        match r {
            Ok(id) => first_window(result@) == Some(id@),
            Err(message) => first_window(result@) is None && message@ == "No windows found"@,
        },
{
    if let Some(items) = result.array_at("windows") {
        let ghost seen = result@.array_at("windows"@)->0;
        if items.len() > 0 {
            assert(seen[0] == items@[0]@);
            if let Some(id) = items[0].str_at("window_id") {
                return Ok(id.to_owned());
            }
        }
    }
    Err("No windows found".to_owned())
}

/// The first tab of an answer about a window.
pub fn get_first_tab_id(result: &Json, window_id: &str) -> (r: Result<String, String>)
    ensures
        match r {
            Ok(id) => first_tab(result@) == Some(id@),
            Err(message) => first_tab(result@) is None && message@ == "No tabs found in window "@
                + window_id@,
        },
{
    if let Some(items) = result.array_at("tabs") {
        let ghost seen = result@.array_at("tabs"@)->0;
        if items.len() > 0 {
            assert(seen[0] == items@[0]@);
            if let Some(id) = value_to_string(items[0].get("tab_id")) {
                return Ok(id);
            }
        }
    }
    let mut message = "No tabs found in window ".to_owned();
    message.append(window_id);
    Err(message)
}

/// The pane in front, by the answer to that question.
pub fn resolve_pane_id(result: &Json) -> (r: Result<String, String>)
    ensures
        match r {
            Ok(id) => coordinator::scalar_text(result@.get("pane_id"@)) == Some(id@),
            Err(message) => coordinator::scalar_text(result@.get("pane_id"@)) is None && message@
                == "No active pane found. Use -t to specify a pane ID."@,
        },
{
    match value_to_string(result.get("pane_id")) {
        Some(id) => Ok(id),
        None => Err("No active pane found. Use -t to specify a pane ID.".to_owned()),
    }
}

/// The members with one more text, where there is one.
pub open spec fn with_text(
    members: Seq<(Seq<char>, JsonView)>,
    key: Seq<char>,
    value: Option<Seq<char>>,
) -> Seq<(Seq<char>, JsonView)> {
    match value {
        Some(value) => members.push((key, JsonView::Text(value))),
        None => members,
    }
}

fn add_text(members: &mut Vec<(String, Json)>, key: &str, value: &Option<String>)
    ensures
        json::members_view(final(members)@) == with_text(
            json::members_view(old(members)@),
            key@,
            coordinator::seen(*value),
        ),
{
    if let Some(value) = value {
        add_member(members, key, text_value(value.as_str()));
    }
}

fn no_members() -> (members: Vec<(String, Json)>)
    ensures
        json::members_view(members@) == Seq::<(Seq<char>, JsonView)>::empty(),
{
    let members: Vec<(String, Json)> = Vec::new();
    assert(json::members_view(members@) =~= Seq::<(Seq<char>, JsonView)>::empty());
    members
}

/// The parameters that name one thing.
pub open spec fn naming(key: Seq<char>, value: Seq<char>) -> Seq<(Seq<char>, JsonView)> {
    seq![(key, JsonView::Text(value))]
}

fn name_members(key: &str, value: &str) -> (members: Vec<(String, Json)>)
    ensures
        json::members_view(members@) == naming(key@, value@),
{
    let mut members = no_members();
    add_member(&mut members, key, text_value(value));
    assert(json::members_view(members@) =~= naming(key@, value@));
    members
}

/// No parameters.
pub open spec fn nothing() -> JsonView {
    JsonView::Object(Seq::empty())
}

/// A question that the last answer answers.
pub open spec fn last_question(
    method: Seq<char>,
    members: Seq<(Seq<char>, JsonView)>,
    pane: Seq<char>,
) -> StepView {
    StepView::Ask {
        method,
        params: JsonView::Object(members),
        stage: StageView::Last { pane_id: pane },
    }
}

fn ask_last(method: &str, members: Vec<(String, Json)>, pane: &str) -> (step: Step)
    ensures
        step@ == last_question(method@, json::members_view(members@), pane@),
{
    Step::Ask {
        method: method.to_owned(),
        params: object(members),
        stage: Stage::Last { pane_id: pane.to_owned() },
    }
}

fn ask_nothing(method: &str, stage: Stage) -> (step: Step)
    ensures
        step@ == (StepView::Ask { method: method@, params: nothing(), stage: stage@ }),
{
    Step::Ask { method: method.to_owned(), params: object(no_members()), stage }
}

/// The parameters of a split.
pub open spec fn split_members(
    pane: Seq<char>,
    flags: SplitFlags,
    size: Option<Seq<char>>,
    command: Option<Seq<char>>,
) -> Seq<(Seq<char>, JsonView)> {
    let placed = naming("pane_id"@, pane).push(
        ("direction"@, JsonView::Text(direction_of(flags))),
    );
    let sized = match size {
        Some(size) => placed.push(("size"@, JsonView::Number(NumberView::Decimal(size)))),
        None => placed,
    };
    with_text(sized, "command"@, command)
}

/// The question about a pane.
pub open spec fn pane_question(command: Command, pane: Seq<char>) -> StepView {
    match command {
        Command::SplitPane { flags, size, command, .. } => last_question(
            "split_pane"@,
            split_members(pane, flags, coordinator::seen(size), coordinator::seen(command)),
            pane,
        ),
        Command::SendKeys { keys, .. } => last_question(
            "send_input"@,
            naming("pane_id"@, pane).push(
                (
                    "text"@,
                    JsonView::Text(keys::typed_all(text::texts(keys@), keys@.len() as int)),
                ),
            ),
            pane,
        ),
        Command::CapturePane { max_lines, .. } => last_question(
            "read_pane_output"@,
            match max_lines {
                Some(n) => naming("pane_id"@, pane).push(
                    ("max_lines"@, JsonView::Number(NumberView::Unsigned(n as u64))),
                ),
                None => naming("pane_id"@, pane),
            },
            pane,
        ),
        Command::KillPane { .. } => last_question("close_pane"@, naming("pane_id"@, pane), pane),
        _ => last_question("get_process_status"@, naming("pane_id"@, pane), pane),
    }
}

fn ask_split(
    pane: &str,
    flags: SplitFlags,
    size: &Option<String>,
    command: &Option<String>,
) -> (step: Step)
    ensures
        step@ == last_question(
            "split_pane"@,
            split_members(pane@, flags, coordinator::seen(*size), coordinator::seen(*command)),
            pane@,
        ),
{
    let mut members = name_members("pane_id", pane);
    add_member(&mut members, "direction", text_value(split_direction(flags)));
    if let Some(size) = size {
        add_member(&mut members, "size", Json::Number(JsonNumber::Decimal(size.clone())));
    }
    add_text(&mut members, "command", command);
    ask_last("split_pane", members, pane)
}

fn ask_pane(command: &Command, pane: &str) -> (step: Step)
    ensures
        step@ == pane_question(*command, pane@),
{
    match command {
        Command::SplitPane { flags, size, command, .. } => ask_split(pane, *flags, size, command),
        Command::SendKeys { keys, .. } => {
            let mut members = name_members("pane_id", pane);
            add_member(&mut members, "text", text_value(translate_keys(keys).as_str()));
            ask_last("send_input", members, pane)
        },
        Command::CapturePane { max_lines, .. } => {
            let mut members = name_members("pane_id", pane);
            if let Some(n) = max_lines {
                add_member(
                    &mut members,
                    "max_lines",
                    Json::Number(JsonNumber::Unsigned(*n as u64)),
                );
            }
            ask_last("read_pane_output", members, pane)
        },
        Command::KillPane { .. } => {
            ask_last("close_pane", name_members("pane_id", pane), pane)
        },
        _ => ask_last("get_process_status", name_members("pane_id", pane), pane),
    }
}

/// The first question about the pane of a command: which pane is in front, where
/// none is given.
pub open spec fn pane_start(command: Command, target: Option<Seq<char>>) -> StepView {
    match target {
        Some(pane) => pane_question(command, pane),
        None => StepView::Ask {
            method: "get_active_pane"@,
            params: nothing(),
            stage: StageView::ActivePane,
        },
    }
}

fn start_pane(command: &Command, target: &Option<String>) -> (step: Step)
    ensures
        step@ == pane_start(*command, coordinator::seen(*target)),
{
    match target {
        Some(pane) => ask_pane(command, pane.as_str()),
        None => ask_nothing("get_active_pane", Stage::ActivePane),
    }
}

/// The question for the tabs of a window.
pub open spec fn tabs_question(window: Seq<char>, stage: StageView) -> StepView {
    StepView::Ask {
        method: "list_tabs"@,
        params: JsonView::Object(naming("window_id"@, window)),
        stage,
    }
}

fn ask_tabs(window: &str, stage: Stage) -> (step: Step)
    ensures
        step@ == tabs_question(window@, stage@),
{
    Step::Ask {
        method: "list_tabs".to_owned(),
        params: object(name_members("window_id", window)),
        stage,
    }
}

/// The question for the panes of a tab.
pub open spec fn panes_question(tab: Seq<char>) -> StepView {
    last_question("list_panes"@, naming("tab_id"@, tab), Seq::empty())
}

fn ask_panes(tab: &str) -> (step: Step)
    ensures
        step@ == panes_question(tab@),
{
    proof {
        reveal_strlit("");
        assert(""@ =~= Seq::<char>::empty());
    }
    ask_last("list_panes", name_members("tab_id", tab), "")
}

/// The texts as JSON values.
pub open spec fn text_values(list: Seq<Seq<char>>) -> Seq<JsonView> {
    list.map_values(|text: Seq<char>| JsonView::Text(text))
}

fn text_array(list: &Vec<String>) -> (value: Json)
    ensures
        value@ == JsonView::Array(text_values(text::texts(list@))),
{
    let ghost wanted = text_values(text::texts(list@));
    let mut items: Vec<Json> = Vec::new();
    let mut i: usize = 0;
    while i < list.len()
        invariant
            i <= list@.len(),
            wanted == text_values(text::texts(list@)),
            items@.len() == i,
            forall|j: int| 0 <= j < i ==> (#[trigger] items@[j])@ == wanted[j],
        decreases list@.len() - i,
    {
        assert(text::texts(list@)[i as int] == list@[i as int]@);
        items.push(text_value(list[i].as_str()));
        i += 1;
    }
    assert(items@.map_values(|item: Json| item@) =~= wanted);
    array(items)
}

/// The parameters of a quick pick.
pub open spec fn pick_members(
    title: Seq<char>,
    choices: Seq<Seq<char>>,
    free_input: bool,
) -> Seq<(Seq<char>, JsonView)> {
    seq![
        ("title"@, JsonView::Text(title)),
        ("choices"@, JsonView::Array(text_values(choices))),
        ("allow_free_input"@, JsonView::Bool(free_input)),
    ]
}

/// The first step of a command.
pub open spec fn first_step(command: Command) -> StepView {
    let none = Seq::<char>::empty();
    match command {
        Command::ListWindows => last_question("list_windows"@, Seq::empty(), none),
        Command::ListTabs { window_id } => match window_id {
            Some(id) => tabs_question(id@, StageView::Last { pane_id: none }),
            None => StepView::Ask {
                method: "list_windows"@,
                params: nothing(),
                stage: StageView::Windows,
            },
        },
        Command::ListPanes { tab_id, window_id } => match (tab_id, window_id) {
            (Some(tab), _) => panes_question(tab@),
            (None, Some(window)) => tabs_question(
                window@,
                StageView::Tabs { window_id: window@ },
            ),
            (None, None) => StepView::Ask {
                method: "list_windows"@,
                params: nothing(),
                stage: StageView::Windows,
            },
        },
        Command::NewTab { command, cwd, title } => last_question(
            "create_tab"@,
            with_text(
                with_text(
                    with_text(Seq::empty(), "command"@, coordinator::seen(command)),
                    "cwd"@,
                    coordinator::seen(cwd),
                ),
                "title"@,
                coordinator::seen(title),
            ),
            none,
        ),
        Command::SplitPane { target, .. } => pane_start(command, coordinator::seen(target)),
        Command::SendKeys { target, .. } => pane_start(command, coordinator::seen(target)),
        Command::CapturePane { target, .. } => pane_start(command, coordinator::seen(target)),
        Command::KillPane { target } => pane_start(command, coordinator::seen(target)),
        Command::ActivePane => last_question("get_active_pane"@, Seq::empty(), none),
        Command::PaneStatus { target } => pane_start(command, coordinator::seen(target)),
        Command::WaitFor { target, .. } => last_question(
            "get_process_status"@,
            naming("pane_id"@, target@),
            target@,
        ),
        Command::QuickPick { choices, title, free_input } => last_question(
            "quick_pick"@,
            pick_members(title@, text::texts(choices@), free_input),
            none,
        ),
    }
}

/// Starts a command.
pub fn start_command(command: &Command) -> (step: Step)
    ensures
        step@ == first_step(*command),
{
    proof {
        reveal_strlit("");
        assert(""@ =~= Seq::<char>::empty());
    }
    match command {
        Command::ListWindows => ask_last("list_windows", no_members(), ""),
        Command::ListTabs { window_id } => match window_id {
            Some(id) => ask_tabs(id.as_str(), Stage::Last { pane_id: String::new() }),
            None => ask_nothing("list_windows", Stage::Windows),
        },
        Command::ListPanes { tab_id, window_id } => match (tab_id, window_id) {
            (Some(tab), _) => ask_panes(tab.as_str()),
            (None, Some(window)) => ask_tabs(
                window.as_str(),
                Stage::Tabs { window_id: window.clone() },
            ),
            (None, None) => ask_nothing("list_windows", Stage::Windows),
        },
        Command::NewTab { command, cwd, title } => {
            let mut members = no_members();
            add_text(&mut members, "command", command);
            add_text(&mut members, "cwd", cwd);
            add_text(&mut members, "title", title);
            ask_last("create_tab", members, "")
        },
        Command::SplitPane { target, .. } => start_pane(command, target),
        Command::SendKeys { target, .. } => start_pane(command, target),
        Command::CapturePane { target, .. } => start_pane(command, target),
        Command::KillPane { target } => start_pane(command, target),
        Command::ActivePane => ask_last("get_active_pane", no_members(), ""),
        Command::PaneStatus { target } => start_pane(command, target),
        Command::WaitFor { target, .. } => ask_last(
            "get_process_status",
            name_members("pane_id", target.as_str()),
            target.as_str(),
        ),
        Command::QuickPick { choices, title, free_input } => {
            let mut members = no_members();
            add_member(&mut members, "title", text_value(title.as_str()));
            add_member(&mut members, "choices", text_array(choices));
            add_member(&mut members, "allow_free_input", Json::Bool(*free_input));
            assert(json::members_view(members@) =~= pick_members(
                title@,
                text::texts(choices@),
                *free_input,
            ));
            ask_last("quick_pick", members, "")
        },
    }
}

/// What is said where a pane does not exit in time.
pub open spec fn timeout_text(timeout: u64, target: Seq<char>) -> Seq<char> {
    "Timeout after "@ + text::decimal(timeout as nat) + "s waiting for pane "@ + target
        + " to exit"@
}

/// What a wait for a pane does with the state of its process.
pub open spec fn wait_step(
    value: JsonView,
    json_mode: bool,
    target: Seq<char>,
    timeout: u64,
    elapsed: u64,
) -> StepView {
    if !output::is_running(value) {
        StepView::Print(output::printed(value, json_mode, Format::PaneStatus))
    } else if timeout > 0 && elapsed >= timeout {
        StepView::Fail(timeout_text(timeout, target))
    } else {
        StepView::Wait
    }
}

fn decide_wait(value: &Json, json_mode: bool, target: &str, timeout: u64, elapsed: u64) -> (step:
    Step)
    ensures
        step@ == wait_step(value@, json_mode, target@, timeout, elapsed),
{
    if !running(value) {
        return Step::Print(print_output(value, json_mode, Format::PaneStatus));
    }
    if timeout > 0 && elapsed >= timeout {
        let mut message = "Timeout after ".to_owned();
        message.append(number_text(timeout).as_str());
        message.append("s waiting for pane ");
        message.append(target);
        message.append(" to exit");
        return Step::Fail(message);
    }
    Step::Wait
}

/// What is done with the text of a pane.
pub open spec fn capture_step(value: JsonView, json_mode: bool) -> StepView {
    if json_mode {
        StepView::Print(json::pretty_json(value))
    } else {
        match value.text_at("content"@) {
            Some(content) => StepView::PrintRaw(content),
            None => StepView::Silent,
        }
    }
}

/// What is done with the user's pick.
pub open spec fn pick_step(value: JsonView) -> StepView {
    if value.bool_at("cancelled"@) == Some(true) {
        StepView::Cancelled
    } else {
        match value.text_at("selected"@) {
            Some(selected) => StepView::Print(selected),
            None => StepView::Silent,
        }
    }
}

fn finish_pick(value: &Json) -> (step: Step)
    ensures
        step@ == pick_step(value@),
{
    let cancelled: bool = match value.bool_at("cancelled") {
        Some(cancelled) => cancelled,
        None => false,
    };
    if cancelled {
        return Step::Cancelled;
    }
    match value.str_at("selected") {
        Some(selected) => Step::Print(selected.to_owned()),
        None => Step::Silent,
    }
}

/// The last step of a command.
pub open spec fn last_step(
    command: Command,
    pane: Seq<char>,
    value: JsonView,
    json_mode: bool,
    elapsed: u64,
) -> StepView {
    match command {
        Command::ListWindows => StepView::Print(
            output::printed(value, json_mode, Format::Table(Listing::Windows)),
        ),
        Command::ListTabs { .. } => StepView::Print(
            output::printed(value, json_mode, Format::Table(Listing::Tabs)),
        ),
        Command::ListPanes { .. } => StepView::Print(
            output::printed(value, json_mode, Format::Table(Listing::Panes)),
        ),
        Command::NewTab { .. } => StepView::Print(
            output::printed(value, json_mode, Format::CreatedTab),
        ),
        Command::SplitPane { .. } => StepView::Print(
            output::printed(value, json_mode, Format::CreatedPane),
        ),
        Command::SendKeys { .. } => StepView::Silent,
        Command::CapturePane { .. } => capture_step(value, json_mode),
        Command::KillPane { .. } => if json_mode {
            StepView::Silent
        } else {
            StepView::Print("Pane "@ + pane + " closed."@)
        },
        Command::ActivePane => StepView::Print(
            output::printed(value, json_mode, Format::ActivePane),
        ),
        Command::PaneStatus { .. } => StepView::Print(
            output::printed(value, json_mode, Format::PaneStatus),
        ),
        Command::WaitFor { target, timeout } => wait_step(
            value,
            json_mode,
            target@,
            timeout,
            elapsed,
        ),
        Command::QuickPick { .. } => pick_step(value),
    }
}

fn finish(command: &Command, pane: &str, value: &Json, json_mode: bool, elapsed: u64) -> (step:
    Step)
    ensures
        step@ == last_step(*command, pane@, value@, json_mode, elapsed),
{
    let format = match command {
        Command::ListWindows => Format::Table(Listing::Windows),
        Command::ListTabs { .. } => Format::Table(Listing::Tabs),
        Command::ListPanes { .. } => Format::Table(Listing::Panes),
        Command::NewTab { .. } => Format::CreatedTab,
        Command::SplitPane { .. } => Format::CreatedPane,
        Command::ActivePane => Format::ActivePane,
        Command::PaneStatus { .. } => Format::PaneStatus,
        Command::SendKeys { .. } => return Step::Silent,
        Command::CapturePane { .. } => {
            if json_mode {
                return Step::Print(pretty_text(value));
            }
            return match value.str_at("content") {
                Some(content) => Step::PrintRaw(content.to_owned()),
                None => Step::Silent,
            };
        },
        Command::KillPane { .. } => {
            if json_mode {
                return Step::Silent;
            }
            let mut line = "Pane ".to_owned();
            line.append(pane);
            line.append(" closed.");
            return Step::Print(line);
        },
        Command::WaitFor { target, timeout } => {
            return decide_wait(value, json_mode, target.as_str(), *timeout, elapsed);
        },
        Command::QuickPick { .. } => return finish_pick(value),
    };
    Step::Print(print_output(value, json_mode, format))
}

/// The step after an answer.
pub open spec fn next_step(
    command: Command,
    stage: StageView,
    value: JsonView,
    json_mode: bool,
    elapsed: u64,
) -> StepView {
    match stage {
        StageView::Windows => match first_window(value) {
            None => StepView::Fail("No windows found"@),
            Some(window) => if command is ListPanes {
                tabs_question(window, StageView::Tabs { window_id: window })
            } else {
                tabs_question(window, StageView::Last { pane_id: Seq::empty() })
            },
        },
        StageView::Tabs { window_id } => match first_tab(value) {
            None => StepView::Fail("No tabs found in window "@ + window_id),
            Some(tab) => panes_question(tab),
        },
        StageView::ActivePane => match coordinator::scalar_text(value.get("pane_id"@)) {
            None => StepView::Fail("No active pane found. Use -t to specify a pane ID."@),
            Some(pane) => pane_question(command, pane),
        },
        StageView::Last { pane_id } => last_step(command, pane_id, value, json_mode, elapsed),
    }
}

/// Goes on with a command after an answer. A failed request ends it. `elapsed`
/// is how many seconds the command has been running.
pub fn continue_command(
    command: &Command,
    stage: &Stage,
    reply: Result<Json, String>,
    json_mode: bool,
    elapsed: u64,
) -> (step: Step)
    ensures
        step@ == match reply {
            Ok(value) => next_step(*command, stage@, value@, json_mode, elapsed),
            Err(message) => StepView::Fail(message@),
        },
{
    let value = match reply {
        Ok(value) => value,
        Err(message) => return Step::Fail(message),
    };
    match stage {
        Stage::Windows => match get_first_window_id(&value) {
            Err(message) => Step::Fail(message),
            Ok(window) => match command {
                Command::ListPanes { .. } => ask_tabs(
                    window.as_str(),
                    Stage::Tabs { window_id: window.clone() },
                ),
                _ => ask_tabs(window.as_str(), Stage::Last { pane_id: String::new() }),
            },
        },
        Stage::Tabs { window_id } => match get_first_tab_id(&value, window_id.as_str()) {
            Err(message) => Step::Fail(message),
            Ok(tab) => ask_panes(tab.as_str()),
        },
        Stage::ActivePane => match resolve_pane_id(&value) {
            Err(message) => Step::Fail(message),
            Ok(pane) => ask_pane(command, pane.as_str()),
        },
        Stage::Last { pane_id } => finish(command, pane_id.as_str(), &value, json_mode, elapsed),
    }
}

/// How many answers a command still needs before it can end.
pub open spec fn answers_left(stage: StageView) -> int {
    match stage {
        StageView::Windows => 3,
        StageView::Tabs { .. } => 2,
        StageView::ActivePane => 2,
        StageView::Last { .. } => 1,
    }
}

/// A command comes to its end: each answer brings it nearer, and the last one
/// ends it, unless it waits for a pane that still runs.
pub proof fn law_commands_come_to_an_end(
    command: Command,
    stage: StageView,
    value: JsonView,
    json_mode: bool,
    elapsed: u64,
)
    ensures
        match next_step(command, stage, value, json_mode, elapsed) {
            StepView::Ask { stage: next, .. } => answers_left(next) < answers_left(stage),
            StepView::Wait => command is WaitFor && output::is_running(value),
            _ => true,
        },
{
}

/// A target that is given is used as it is: the terminal is not asked for the
/// pane in front.
pub proof fn law_given_targets_are_used(command: Command, pane: Seq<char>)
    ensures
        pane_start(command, Some(pane)) == pane_question(command, pane),
        pane_start(command, None) matches StepView::Ask { method, .. } && method
            == "get_active_pane"@,
        pane_question(command, pane) matches StepView::Ask { stage, .. } && stage
            == (StageView::Last { pane_id: pane }),
{
}

} // verus!
