//! What the commands ask the terminal, and what they print of the answers.
use crate::cli::commands;
use crate::cli::commands::{
    continue_command, split_direction, start_command, Command, SplitFlags, Stage, StageView, Step,
    StepView,
};
use crate::cli::keys;
use crate::cli::keys::translate_keys;
use crate::cli::output;
use crate::coordinator;
use crate::json;
use crate::json::{Json, JsonView, NumberView};
use crate::laws::execution;
use crate::text;
use vstd::prelude::*;

verus! {

/// The stages that a command goes through.
pub open spec fn may_wait_at(command: Command, stage: StageView) -> bool {
    match command {
        Command::ListTabs { .. } => stage is Windows || stage is Last,
        Command::ListPanes { .. } => stage is Windows || stage is Tabs || stage is Last,
        Command::SplitPane { .. } => stage is ActivePane || stage is Last,
        Command::SendKeys { .. } => stage is ActivePane || stage is Last,
        Command::CapturePane { .. } => stage is ActivePane || stage is Last,
        Command::KillPane { .. } => stage is ActivePane || stage is Last,
        Command::PaneStatus { .. } => stage is ActivePane || stage is Last,
        _ => stage is Last,
    }
}

/// What a command may ask of the terminal: what it is named for, and what it
/// needs to find its target.
pub open spec fn may_ask(command: Command, method: Seq<char>) -> bool {
    match command {
        Command::ListWindows => method == "list_windows"@,
        Command::ListTabs { .. } => method == "list_windows"@ || method == "list_tabs"@,
        Command::ListPanes { .. } => method == "list_windows"@ || method == "list_tabs"@ || method
            == "list_panes"@,
        Command::NewTab { .. } => method == "create_tab"@,
        Command::SplitPane { .. } => method == "get_active_pane"@ || method == "split_pane"@,
        Command::SendKeys { .. } => method == "get_active_pane"@ || method == "send_input"@,
        Command::CapturePane { .. } => method == "get_active_pane"@ || method
            == "read_pane_output"@,
        Command::KillPane { .. } => method == "get_active_pane"@ || method == "close_pane"@,
        Command::ActivePane => method == "get_active_pane"@,
        Command::PaneStatus { .. } => method == "get_active_pane"@ || method
            == "get_process_status"@,
        Command::WaitFor { .. } => method == "get_process_status"@,
        Command::QuickPick { .. } => method == "quick_pick"@,
    }
}

proof fn lemma_methods()
    ensures
        "close_pane"@.len() == 10 && "close_pane"@[0] == 'c',
        "create_tab"@.len() == 10 && "create_tab"@[0] == 'c' && "create_tab"@[1] == 'r'
            && "close_pane"@[1] == 'l',
        "split_pane"@.len() == 10 && "split_pane"@[0] == 's' && "split_pane"@[1] == 'p',
        "send_input"@.len() == 10 && "send_input"@[0] == 's' && "send_input"@[1] == 'e',
        "list_panes"@.len() == 10 && "list_panes"@[0] == 'l',
        "quick_pick"@.len() == 10 && "quick_pick"@[0] == 'q',
        "list_windows"@.len() == 12,
        "list_tabs"@.len() == 9,
        "get_active_pane"@.len() == 15,
        "get_process_status"@.len() == 18,
        "read_pane_output"@.len() == 16,
{
    reveal_strlit("close_pane");
    reveal_strlit("create_tab");
    reveal_strlit("split_pane");
    reveal_strlit("send_input");
    reveal_strlit("list_panes");
    reveal_strlit("quick_pick");
    reveal_strlit("list_windows");
    reveal_strlit("list_tabs");
    reveal_strlit("get_active_pane");
    reveal_strlit("get_process_status");
    reveal_strlit("read_pane_output");
}

/// A command asks only what it is for: nothing is closed, typed, split, opened or
/// picked but by the command of that name.
pub proof fn law_commands_ask_what_they_are_for(
    command: &Command,
    stage: &Stage,
    reply: Result<Json, String>,
    json_mode: bool,
    elapsed: u64,
    first: Step,
    next: Step,
)
    requires
        call_ensures(start_command, (command,), first),
        call_ensures(continue_command, (command, stage, reply, json_mode, elapsed), next),
    ensures
        first@ matches StepView::Ask { method, stage, .. } && may_ask(*command, method)
            && may_wait_at(*command, stage),
        may_wait_at(*command, stage@) ==> (next@ matches StepView::Ask { method, stage, .. }
            ==> may_ask(*command, method) && may_wait_at(*command, stage)),
        forall|method: Seq<char>, params: JsonView, stage: StageView|
            first@ == (StepView::Ask { method, params, stage }) || next@ == (StepView::Ask {
                method,
                params,
                stage,
            }) ==> {
                &&& method == "close_pane"@ ==> command is KillPane
                &&& method == "send_input"@ ==> command is SendKeys
                &&& method == "split_pane"@ ==> command is SplitPane
                &&& method == "create_tab"@ ==> command is NewTab
                &&& method == "quick_pick"@ ==> command is QuickPick
            },
{
    lemma_methods();
}

/// The pane that a command names.
pub open spec fn target_of(command: Command) -> Option<String> {
    match command {
        Command::SplitPane { target, .. } => target,
        Command::SendKeys { target, .. } => target,
        Command::CapturePane { target, .. } => target,
        Command::KillPane { target } => target,
        Command::PaneStatus { target } => target,
        _ => None,
    }
}

/// The command is about a pane, which it may name.
pub open spec fn about_a_pane(command: Command) -> bool {
    command is SplitPane || command is SendKeys || command is CapturePane || command is KillPane
        || command is PaneStatus
}

/// The question that a command about the pane `pane` comes to.
pub open spec fn asks_of_pane(command: Command, pane: Seq<char>, step: StepView) -> bool {
    let this = ("pane_id"@, JsonView::Text(pane));
    &&& step matches StepView::Ask { method, params, stage }
    &&& stage == (StageView::Last { pane_id: pane })
    &&& match command {
        Command::PaneStatus { .. } => method == "get_process_status"@ && params
            == JsonView::Object(seq![this]),
        Command::KillPane { .. } => method == "close_pane"@ && params == JsonView::Object(
            seq![this],
        ),
        Command::CapturePane { max_lines, .. } => method == "read_pane_output"@ && params
            == JsonView::Object(
            match max_lines {
                None => seq![this],
                Some(n) => seq![
                    this,
                    ("max_lines"@, JsonView::Number(NumberView::Unsigned(n as u64))),
                ],
            },
        ),
        Command::SendKeys { keys, .. } => method == "send_input"@ && params == JsonView::Object(
            seq![
                this,
                (
                    "text"@,
                    JsonView::Text(keys::typed_all(text::texts(keys@), keys@.len() as int)),
                ),
            ],
        ),
        Command::SplitPane { flags, size, command, .. } => method == "split_pane"@ && params
            == JsonView::Object(
            seq![this, ("direction"@, JsonView::Text(commands::direction_of(flags)))] + match size {
                Some(size) => seq![("size"@, JsonView::Number(NumberView::Decimal(size@)))],
                None => Seq::empty(),
            } + match command {
                Some(line) => seq![("command"@, JsonView::Text(line@))],
                None => Seq::empty(),
            },
        ),
        _ => true,
    }
}

/// A command that names a pane asks of that pane at once, and one that names none
/// asks which pane is in front and then the same of it.
pub proof fn law_commands_ask_of_their_pane(
    command: &Command,
    first: Step,
    value: Json,
    json_mode: bool,
    elapsed: u64,
    next: Step,
    pane: Seq<char>,
)
    requires
        about_a_pane(*command),
        call_ensures(start_command, (command,), first),
        call_ensures(
            continue_command,
            (command, &Stage::ActivePane, Ok::<Json, String>(value), json_mode, elapsed),
            next,
        ),
    ensures
        match target_of(*command) {
            Some(target) => asks_of_pane(*command, target@, first@),
            None => first@ == (StepView::Ask {
                method: "get_active_pane"@,
                params: JsonView::Object(Seq::empty()),
                stage: StageView::ActivePane,
            }),
        },
        execution::named_pane(value@, pane) ==> asks_of_pane(*command, pane, next@),
        (forall|pane: Seq<char>| !execution::named_pane(value@, pane)) ==> next@ == StepView::Fail(
            "No active pane found. Use -t to specify a pane ID."@,
        ),
{
    assert forall|pane: Seq<char>| asks_of_pane(
        *command,
        pane,
        commands::pane_question(*command, pane),
    ) by {
        lemma_pane_question(*command, pane);
    }
    if let Some(found) = coordinator::scalar_text(value@.get("pane_id"@)) {
        assert(execution::named_pane(value@, found));
    }
}

proof fn lemma_pane_question(command: Command, pane: Seq<char>)
    ensures
        about_a_pane(command) ==> asks_of_pane(
            command,
            pane,
            commands::pane_question(command, pane),
        ),
        commands::pane_question(command, pane) matches StepView::Ask { stage, .. } && stage == (
        StageView::Last { pane_id: pane }),
{
    let this = ("pane_id"@, JsonView::Text(pane));
    if let StepView::Ask { method, params, stage } = commands::pane_question(command, pane) {
        if let JsonView::Object(members) = params {
            match command {
                Command::CapturePane { max_lines: Some(n), .. } => {
                    assert(members =~= seq![
                        this,
                        ("max_lines"@, JsonView::Number(NumberView::Unsigned(n as u64))),
                    ]);
                },
                Command::SendKeys { keys, .. } => {
                    assert(members =~= seq![
                        this,
                        (
                            "text"@,
                            JsonView::Text(keys::typed_all(text::texts(keys@), keys@.len() as int)),
                        ),
                    ]);
                },
                Command::SplitPane { flags, size, command, .. } => {
                    assert(members =~= seq![
                        this,
                        ("direction"@, JsonView::Text(commands::direction_of(flags))),
                    ] + match size {
                        Some(size) => seq![("size"@, JsonView::Number(NumberView::Decimal(size@)))],
                        None => Seq::empty(),
                    } + match command {
                        Some(line) => seq![("command"@, JsonView::Text(line@))],
                        None => Seq::empty(),
                    });
                },
                _ => {},
            }
        }
    }
}

/// The side that a pane is split to: a side that is named counts before an
/// orientation, and without either the terminal chooses.
pub proof fn law_splits_go_to_the_named_side(flags: SplitFlags, direction: &'static str)
    requires
        call_ensures(split_direction, (flags,), direction),
    ensures
        flags.right ==> direction@ == "right"@,
        flags.left && !flags.right ==> direction@ == "left"@,
        flags.down && !flags.right && !flags.left ==> direction@ == "down"@,
        flags.up && !flags.right && !flags.left && !flags.down ==> direction@ == "up"@,
        !flags.right && !flags.left && !flags.down && !flags.up ==> {
            &&& flags.horizontal ==> direction@ == "down"@
            &&& flags.vertical && !flags.horizontal ==> direction@ == "right"@
            &&& !flags.vertical && !flags.horizontal ==> direction@ == "automatic"@
        },
{
}

/// What the listings ask: the target that was named, and else the first window
/// and its first tab.
pub proof fn law_listings_ask_for_what_is_named(
    command: &Command,
    first: Step,
    value: Json,
    json_mode: bool,
    elapsed: u64,
    after_windows: Step,
    window: String,
    after_tabs: Step,
    items: Seq<JsonView>,
    id: Seq<char>,
)
    requires
        call_ensures(start_command, (command,), first),
        call_ensures(
            continue_command,
            (command, &Stage::Windows, Ok::<Json, String>(value), json_mode, elapsed),
            after_windows,
        ),
        call_ensures(
            continue_command,
            (
                command,
                &Stage::Tabs { window_id: window },
                Ok::<Json, String>(value),
                json_mode,
                elapsed,
            ),
            after_tabs,
        ),
    ensures
        command is ListWindows ==> first@ == (StepView::Ask {
            method: "list_windows"@,
            params: JsonView::Object(Seq::empty()),
            stage: StageView::Last { pane_id: Seq::empty() },
        }),
        command matches Command::ListTabs { window_id: Some(id) } ==> first@ == (StepView::Ask {
            method: "list_tabs"@,
            params: JsonView::Object(seq![("window_id"@, JsonView::Text(id@))]),
            stage: StageView::Last { pane_id: Seq::empty() },
        }),
        command matches Command::ListPanes { tab_id: Some(id), .. } ==> first@ == (StepView::Ask {
            method: "list_panes"@,
            params: JsonView::Object(seq![("tab_id"@, JsonView::Text(id@))]),
            stage: StageView::Last { pane_id: Seq::empty() },
        }),
        command matches Command::ListPanes { tab_id: None, window_id: Some(id) } ==> first@ == (
        StepView::Ask {
            method: "list_tabs"@,
            params: JsonView::Object(seq![("window_id"@, JsonView::Text(id@))]),
            stage: StageView::Tabs { window_id: id@ },
        }),
        (command matches Command::ListTabs { window_id: None } || command
            matches Command::ListPanes { tab_id: None, window_id: None }) ==> first@ == (
        StepView::Ask {
            method: "list_windows"@,
            params: JsonView::Object(Seq::empty()),
            stage: StageView::Windows,
        }),
        value@.get("windows"@) == Some(JsonView::Array(items)) && items.len() > 0 && items[0].get(
            "window_id"@,
        ) == Some(JsonView::Text(id)) ==> {
                &&& command is ListTabs ==> after_windows@ == (StepView::Ask {
                    method: "list_tabs"@,
                    params: JsonView::Object(seq![("window_id"@, JsonView::Text(id))]),
                    stage: StageView::Last { pane_id: Seq::empty() },
                })
                &&& command is ListPanes ==> after_windows@ == (StepView::Ask {
                    method: "list_tabs"@,
                    params: JsonView::Object(seq![("window_id"@, JsonView::Text(id))]),
                    stage: StageView::Tabs { window_id: id },
                })
            },
        value@.get("windows"@) == Some(JsonView::Array(Seq::empty())) ==> after_windows@
            == StepView::Fail("No windows found"@),
        value@.get("tabs"@) == Some(JsonView::Array(items)) && items.len() > 0 && items[0].get(
            "tab_id"@,
        ) == Some(JsonView::Text(id)) ==> after_tabs@ == (StepView::Ask {
                method: "list_panes"@,
                params: JsonView::Object(seq![("tab_id"@, JsonView::Text(id))]),
                stage: StageView::Last { pane_id: Seq::empty() },
            }),
        value@.get("tabs"@) == Some(JsonView::Array(Seq::empty())) ==> after_tabs@
            == StepView::Fail("No tabs found in window "@ + window@),
{
}

/// What the commands without a pane ask: each value that was given goes along
/// under its own name, and none that was not.
pub proof fn law_values_go_along(command: &Command, first: Step)
    requires
        call_ensures(start_command, (command,), first),
    ensures
        command matches Command::NewTab { command: line, cwd, title } ==> first@ == (
        StepView::Ask {
            method: "create_tab"@,
            params: JsonView::Object(
                match line {
                    Some(line) => seq![("command"@, JsonView::Text(line@))],
                    None => Seq::empty(),
                } + match cwd {
                    Some(cwd) => seq![("cwd"@, JsonView::Text(cwd@))],
                    None => Seq::empty(),
                } + match title {
                    Some(title) => seq![("title"@, JsonView::Text(title@))],
                    None => Seq::empty(),
                },
            ),
            stage: StageView::Last { pane_id: Seq::empty() },
        }),
        command is ActivePane ==> first@ == (StepView::Ask {
            method: "get_active_pane"@,
            params: JsonView::Object(Seq::empty()),
            stage: StageView::Last { pane_id: Seq::empty() },
        }),
        command matches Command::WaitFor { target, .. } ==> first@ == (StepView::Ask {
            method: "get_process_status"@,
            params: JsonView::Object(seq![("pane_id"@, JsonView::Text(target@))]),
            stage: StageView::Last { pane_id: target@ },
        }),
        command matches Command::QuickPick { choices, title, free_input } ==> first@ == (
        StepView::Ask {
            method: "quick_pick"@,
            params: JsonView::Object(
                seq![
                    ("title"@, JsonView::Text(title@)),
                    (
                        "choices"@,
                        JsonView::Array(
                            choices@.map_values(|choice: String| JsonView::Text(choice@)),
                        ),
                    ),
                    ("allow_free_input"@, JsonView::Bool(*free_input)),
                ],
            ),
            stage: StageView::Last { pane_id: Seq::empty() },
        }),
{
    if let Command::NewTab { command: line, cwd, title } = *command {
        if let StepView::Ask { params: JsonView::Object(members), .. } = first@ {
            assert(members =~= match line {
                Some(line) => seq![("command"@, JsonView::Text(line@))],
                None => Seq::empty(),
            } + match cwd {
                Some(cwd) => seq![("cwd"@, JsonView::Text(cwd@))],
                None => Seq::empty(),
            } + match title {
                Some(title) => seq![("title"@, JsonView::Text(title@))],
                None => Seq::empty(),
            });
        }
    }
    if let Command::QuickPick { choices, title, free_input } = *command {
        assert(commands::text_values(text::texts(choices@)) =~= choices@.map_values(
            |choice: String| JsonView::Text(choice@),
        ));
    }
}

/// What the last answer comes to: what was read is printed as it is, keys are
/// sent without a word, a pane that was closed is named, a pick is printed or was
/// cancelled, and a refusal ends with its reason.
pub proof fn law_last_answers_are_shown(
    command: &Command,
    pane: String,
    value: Json,
    reason: String,
    json_mode: bool,
    elapsed: u64,
    step: Step,
    refused: Step,
)
    requires
        call_ensures(
            continue_command,
            (
                command,
                &Stage::Last { pane_id: pane },
                Ok::<Json, String>(value),
                json_mode,
                elapsed,
            ),
            step,
        ),
        call_ensures(
            continue_command,
            (
                command,
                &Stage::Last { pane_id: pane },
                Err::<Json, String>(reason),
                json_mode,
                elapsed,
            ),
            refused,
        ),
    ensures
        refused@ == StepView::Fail(reason@),
        command is SendKeys ==> step@ is Silent,
        command is KillPane ==> step@ == if json_mode {
            StepView::Silent
        } else {
            StepView::Print("Pane "@ + pane@ + " closed."@)
        },
        command is CapturePane ==> step@ == match (json_mode, value@.get("content"@)) {
            (true, _) => StepView::Print(json::pretty_json(value@)),
            (false, Some(JsonView::Text(content))) => StepView::PrintRaw(content),
            (false, _) => StepView::Silent,
        },
        command is QuickPick ==> step@ == match (
            value@.get("cancelled"@),
            value@.get("selected"@),
        ) {
            (Some(JsonView::Bool(true)), _) => StepView::Cancelled,
            (_, Some(JsonView::Text(selected))) => StepView::Print(selected),
            _ => StepView::Silent,
        },
        json_mode && !(command is SendKeys || command is KillPane || command is QuickPick
            || command is WaitFor) ==> step@ == StepView::Print(json::pretty_json(value@)),
{
}

/// Waiting for a pane ends when its process has ended, or after the time that was
/// given; without a time it goes on as long as the process does.
pub proof fn law_waiting_ends_with_the_process(
    target: String,
    timeout: u64,
    pane: String,
    value: Json,
    json_mode: bool,
    elapsed: u64,
    step: Step,
)
    requires
        call_ensures(
            continue_command,
            (
                &Command::WaitFor { target, timeout },
                &Stage::Last { pane_id: pane },
                Ok::<Json, String>(value),
                json_mode,
                elapsed,
            ),
            step,
        ),
    ensures
        value@.get("state"@) == Some(JsonView::Text("running"@)) ==> step@ == if timeout > 0 && elapsed
            >= timeout {
            StepView::Fail(
                "Timeout after "@ + text::decimal(timeout as nat) + "s waiting for pane "@ + target@
                    + " to exit"@,
            )
        } else {
            StepView::Wait
        },
        value@.get("state"@) != Some(JsonView::Text("running"@)) ==> step@ is Print,
{
}

/// The keys of a name are the characters that they stand for, a control key is
/// the letter's control character, and any other text is typed as it is.
pub proof fn law_named_keys_are_typed(key: Seq<char>, keys: &Vec<String>, out: String, letter: char)
    requires
        call_ensures(translate_keys, (keys,), out),
        text::texts(keys@) == seq![key],
    ensures
        key == "Enter"@ || key == "CR"@ ==> out@ == seq!['\r'],
        key == "Space"@ ==> out@ == seq![' '],
        key == "Escape"@ || key == "Esc"@ ==> out@ == seq!['\x1b'],
        key == "Tab"@ ==> out@ == seq!['\t'],
        key == "BSpace"@ || key == "Backspace"@ ==> out@ == seq!['\x08'],
        key == seq!['C', '-', letter] && 'a' <= letter <= 'z' ==> out@ == seq![
            (letter as u32 - 96) as char,
        ],
        key == seq!['C', '-', letter] && 'A' <= letter <= 'Z' ==> out@ == seq![
            (letter as u32 - 64) as char,
        ],
        key.len() == 1 ==> out@ == key,
        key.len() > 9 ==> out@ == key,
{
    reveal_strlit("Enter");
    reveal_strlit("CR");
    reveal_strlit("Space");
    reveal_strlit("Escape");
    reveal_strlit("Esc");
    reveal_strlit("Tab");
    reveal_strlit("BSpace");
    reveal_strlit("Backspace");
    assert("Enter"@[0] == 'E' && "Space"@[0] == 'S');
    assert("Escape"@[0] == 'E' && "BSpace"@[0] == 'B');
    assert("Esc"@[0] == 'E' && "Tab"@[0] == 'T');
    reveal_with_fuel(keys::typed_all, 2);
    assert(keys::typed_all(seq![key], 1) =~= keys::typed(key));
    if key == seq!['C', '-', letter] && 'a' <= letter <= 'z' {
        assert(key[0] == 'C' && key[1] == '-' && key[2] == letter);
        assert((letter as u32 % 32) == letter as u32 - 96);
    }
    if key == seq!['C', '-', letter] && 'A' <= letter <= 'Z' {
        assert(key[0] == 'C' && key[1] == '-' && key[2] == letter);
        assert(((letter as u32 + 32) as char as u32 % 32) == letter as u32 - 64);
    }
}

} // verus!
