use wta::cli::commands::{
    continue_command, get_first_tab_id, get_first_window_id, resolve_pane_id, split_direction,
    start_command, Command, SplitFlags, Stage, Step,
};
use wta::cli::host::{
    delegate_arguments, host_action, host_arguments, host_mutex_name, host_step, mutex_name,
    non_empty_env_var, pane_context_from_identity, stage_message, HostAction, HostStage, HostStep,
    SourceVariables,
};
use wta::cli::keys::translate_keys;
use wta::cli::output::{
    format_active_pane, format_created_pane, format_created_tab, format_pane_status,
    format_panes_human, format_tabs_human, format_windows_human, json_str_or_num, print_output,
    running, Format, Listing,
};
use wta::cli::pipes::{
    no_discovery_message, no_pipe_message, pipe_info_lines, resolve_pipe_info, run_pipe_id,
    run_set_env, source_name, PipeOverride, TerminalVariables,
};
use wta::cli::walk::{walk_summary, PaneIdentity, PaneWalk};
use wta::json::{Json, JsonNumber};
use wta::wt_channel::discovery::{discover_connection_info, ConnectionInfo, DiscoverySource};

fn from_value(value: &serde_json::Value) -> Json {
    match value {
        serde_json::Value::Null => Json::Null,
        serde_json::Value::Bool(b) => Json::Bool(*b),
        serde_json::Value::Number(n) => Json::Number(match (n.as_u64(), n.as_i64()) {
            (Some(n), _) => JsonNumber::Unsigned(n),
            (None, Some(n)) => JsonNumber::Negative(n),
            (None, None) => JsonNumber::Decimal(n.to_string()),
        }),
        serde_json::Value::String(text) => Json::Text(text.clone()),
        serde_json::Value::Array(items) => Json::Array(items.iter().map(from_value).collect()),
        serde_json::Value::Object(members) => Json::Object(
            members.iter().map(|(key, value)| (key.clone(), from_value(value))).collect(),
        ),
    }
}

fn to_value(value: &Json) -> serde_json::Value {
    match value {
        Json::Null => serde_json::Value::Null,
        Json::Bool(b) => serde_json::Value::Bool(*b),
        Json::Number(JsonNumber::Unsigned(n)) => serde_json::Value::from(*n),
        Json::Number(JsonNumber::Negative(n)) => serde_json::Value::from(*n),
        Json::Number(JsonNumber::Decimal(text)) => {
            serde_json::Value::from(text.parse::<f64>().unwrap())
        }
        Json::Text(text) => serde_json::Value::from(text.as_str()),
        Json::Array(items) => items.iter().map(to_value).collect(),
        Json::Object(members) => {
            members.iter().map(|(key, value)| (key.clone(), to_value(value))).collect()
        }
    }
}

fn json(text: &str) -> Json {
    from_value(&serde_json::from_str(text).unwrap())
}

fn strings(list: &[&str]) -> Vec<String> {
    list.iter().map(|item| item.to_string()).collect()
}

fn some(text: &str) -> Option<String> {
    Some(text.to_string())
}

fn asks(step: Step, wanted_method: &str, wanted_params: &str) -> Stage {
    match step {
        Step::Ask { method, params, stage } => {
            assert_eq!(method, wanted_method);
            let wanted: serde_json::Value = serde_json::from_str(wanted_params).unwrap();
            assert_eq!(to_value(&params), wanted);
            stage
        }
        other => panic!("expected a request, got {:?}", other),
    }
}

fn prints(step: Step) -> String {
    match step {
        Step::Print(text) => text,
        other => panic!("expected an output, got {:?}", other),
    }
}

fn fails(step: Step) -> String {
    match step {
        Step::Fail(message) => message,
        other => panic!("expected a failure, got {:?}", other),
    }
}

fn no_flags() -> SplitFlags {
    SplitFlags { horizontal: false, vertical: false, right: false, left: false, down: false, up: false }
}

#[test]
fn key_names_become_characters() {
    let keys = strings(&[
        "Enter", "CR", "Space", "Escape", "Esc", "Tab", "BSpace", "Backspace", "C-c", "C-d", "C-z",
        "C-l", "C-a", "C-e", "C-k", "C-u", "C-w",
    ]);
    assert_eq!(
        translate_keys(&keys),
        "\r\r \x1b\x1b\t\x08\x08\x03\x04\x1a\x0c\x01\x05\x0b\x15\x17"
    );
    assert_eq!(translate_keys(&strings(&["echo hello", "Enter"])), "echo hello\r");
    assert_eq!(translate_keys(&strings(&["C-B", "C-x"])), "\x02\x18");
    assert_eq!(translate_keys(&strings(&["C-1", "C-é", "C-ab", "enter"])), "C-1C-éC-abenter");
    assert_eq!(translate_keys(&Vec::new()), "");
}

#[test]
fn keys_are_typed_one_after_the_other() {
    let first = translate_keys(&strings(&["ls", "Enter"]));
    let second = translate_keys(&strings(&["C-c"]));
    assert_eq!(translate_keys(&strings(&["ls", "Enter", "C-c"])), first + &second);
}

#[test]
fn windows_are_listed_in_columns() {
    let list = json(
        r#"{"windows": [{"window_id": "w1", "title": "Main", "is_focused": true}, {"window_id": 7}]}"#,
    );
    let wanted = format!(
        "{:<12} {:<30} {}\n{:<12} {:<30} {}\n{:<12} {:<30} {}",
        "WINDOW_ID", "TITLE", "FOCUSED", "w1", "Main", "*", "7", "-", ""
    );
    assert_eq!(format_windows_human(&list), wanted);
    assert_eq!(format_windows_human(&json(r#"{"windows": []}"#)), "No windows found.");
    assert_eq!(format_windows_human(&json(r#"{"a": 1}"#)), "{\n  \"a\": 1\n}");
}

#[test]
fn tabs_are_listed_in_columns() {
    let list = json(r#"{"tabs": [{"tab_id": 3, "title": "Tab", "is_active": true}, {"tab_id": true}]}"#);
    let wanted = format!(
        "{:<10} {:<30} {}\n{:<10} {:<30} {}\n{:<10} {:<30} {}",
        "TAB_ID", "TITLE", "FOCUSED", "3", "Tab", "*", "-", "-", ""
    );
    assert_eq!(format_tabs_human(&list), wanted);
    assert_eq!(format_tabs_human(&json(r#"{"tabs": []}"#)), "No tabs found.");
}

#[test]
fn panes_are_listed_in_columns() {
    let list = json(
        r#"{"panes": [{"pane_id": "p", "pid": 42, "is_active": true, "size": {"rows": 24, "columns": 80}}, {"pane_id": -5, "pid": -1}]}"#,
    );
    let wanted = format!(
        "{:<10} {:<8} {:<8} {:<10} {}\n{:<10} {:<8} {:<8} {:<10} {}\n{:<10} {:<8} {:<8} {:<10} {}",
        "PANE_ID", "PID", "ACTIVE", "ROWS", "COLS", "p", "42", "*", "24", "80", "-5", "-", "", "-", "-"
    );
    assert_eq!(format_panes_human(&list), wanted);
    assert_eq!(format_panes_human(&json(r#"{"panes": []}"#)), "No panes found.");
}

#[test]
fn single_answers_are_told_in_a_line() {
    let pane = json(r#"{"pane_id": "p", "tab_id": 2, "window_id": null}"#);
    assert_eq!(format_active_pane(&pane), "Active pane: p (tab: 2, window: -)");
    assert_eq!(format_created_tab(&pane), "Created tab 2 (pane p)");
    assert_eq!(format_created_pane(&pane), "Created pane p");
    let status = json(r#"{"state": "running", "pid": 9}"#);
    assert!(running(&status));
    assert_eq!(format_pane_status(&status), "Running (PID: 9)");
    let status = json(r#"{"state": "exited", "exit_code": -3}"#);
    assert!(!running(&status));
    assert_eq!(format_pane_status(&status), "Exited (code: -3, PID: -)");
    assert_eq!(json_str_or_num(&json(r#"{"n": 1.5}"#), "n"), "1.5");
    assert_eq!(json_str_or_num(&json(r#"{"n": []}"#), "n"), "-");
}

#[test]
fn output_is_json_where_it_is_asked_for() {
    let value = json(r#"{"windows": []}"#);
    assert_eq!(print_output(&value, true, Format::Table(Listing::Windows)), "{\n  \"windows\": []\n}");
    assert_eq!(print_output(&value, false, Format::Table(Listing::Windows)), "No windows found.");
    assert_eq!(print_output(&value, false, Format::PaneStatus), "Exited (code: -, PID: -)");
}

#[test]
fn a_given_pipe_comes_before_the_discovered_one() {
    let variables = |clsid: Option<&str>, pipe_name: Option<&str>| TerminalVariables {
        clsid: clsid.map(|text| text.to_string()),
        pipe_name: pipe_name.map(|text| text.to_string()),
        token: some("env"),
    };
    let given = PipeOverride { pipe_name: some("pipe"), pipe_token: None };
    let info = resolve_pipe_info(&given, &variables(Some("clsid"), Some("other"))).unwrap();
    assert_eq!((info.pipe_name.as_str(), info.token.as_str()), ("pipe", ""));
    assert_eq!(info.source, DiscoverySource::EnvVar);
    let given = PipeOverride { pipe_name: None, pipe_token: some("t") };
    let info = resolve_pipe_info(&given, &variables(Some("clsid"), Some("other"))).unwrap();
    assert_eq!((info.pipe_name.as_str(), info.token.as_str()), ("clsid", ""));
    assert_eq!(info.source, DiscoverySource::ComClsid);
    let info = resolve_pipe_info(&given, &variables(None, Some("other"))).unwrap();
    assert_eq!((info.pipe_name.as_str(), info.token.as_str()), ("other", "env"));
    assert_eq!(info.source, DiscoverySource::EnvVar);
    assert!(resolve_pipe_info(&given, &variables(None, None)).is_none());
    assert!(discover_connection_info(None).is_none());
}

#[test]
fn the_pipe_is_named_or_described() {
    let info = Some(ConnectionInfo {
        pipe_name: "pipe".to_string(),
        token: "t".to_string(),
        source: DiscoverySource::EnvVar,
    });
    assert_eq!(run_pipe_id(&info, false).unwrap(), "pipe");
    assert_eq!(
        run_pipe_id(&info, true).unwrap(),
        "{\n  \"pipe_name\": \"pipe\",\n  \"source\": \"EnvVar\",\n  \"token_set\": true\n}"
    );
    assert_eq!(run_pipe_id(&None, false).unwrap_err(), no_discovery_message());
    assert_eq!(
        no_discovery_message(),
        "Cannot discover pipe. Use --pipe-name or set WT_PIPE_NAME, or run inside Windows Terminal."
    );
    assert_eq!(
        no_pipe_message(),
        "Cannot find Windows Terminal pipe. Use --pipe-name or set WT_PIPE_NAME."
    );
    assert_eq!(source_name(DiscoverySource::VtOsc), "VtOsc");
    assert_eq!(
        pipe_info_lines(&info),
        strings(&["  Pipe:   pipe", "  Token:  (set)", "  Source: WT_PIPE_NAME env var"])
    );
    assert_eq!(
        pipe_info_lines(&None),
        strings(&[
            "  Status: Not running inside Windows Terminal",
            "  (No VT response, WT_PIPE_NAME not set, no --pipe-name)",
        ])
    );
}

#[test]
fn each_shell_has_its_own_assignments() {
    let info = Some(ConnectionInfo {
        pipe_name: "pipe".to_string(),
        token: "t".to_string(),
        source: DiscoverySource::EnvVar,
    });
    for (shell, first, second, hint) in [
        (
            "zsh",
            "export WT_PIPE_NAME='pipe'",
            "export WT_MCP_TOKEN='t'",
            "# Run: eval \"$(wta set-env)\"",
        ),
        (
            "pwsh",
            "$env:WT_PIPE_NAME = 'pipe'",
            "$env:WT_MCP_TOKEN = 't'",
            "# Run: wta set-env -s powershell | Invoke-Expression",
        ),
        (
            "cmd",
            "set WT_PIPE_NAME=pipe",
            "set WT_MCP_TOKEN=t",
            "REM Run in a for /f loop or copy-paste",
        ),
        (
            "fish",
            "set -gx WT_PIPE_NAME 'pipe'",
            "set -gx WT_MCP_TOKEN 't'",
            "# Run: wta set-env -s fish | source",
        ),
    ] {
        let out = run_set_env(&info, shell).unwrap();
        assert_eq!(out.lines, strings(&[first, second]), "{}", shell);
        assert_eq!(out.hint, hint);
    }
    let bare = Some(ConnectionInfo {
        pipe_name: "pipe".to_string(),
        token: String::new(),
        source: DiscoverySource::EnvVar,
    });
    assert_eq!(run_set_env(&bare, "sh").unwrap().lines, strings(&["export WT_PIPE_NAME='pipe'"]));
    assert_eq!(
        run_set_env(&info, "tcsh").unwrap_err(),
        "Unknown shell type 'tcsh'. Use: bash, powershell, cmd, fish"
    );
    assert_eq!(run_set_env(&None, "bash").unwrap_err(), no_discovery_message());
}

#[test]
fn the_first_window_and_tab_are_found() {
    let windows = json(r#"{"windows": [{"window_id": "w"}, {"window_id": "v"}]}"#);
    assert_eq!(get_first_window_id(&windows), Ok("w".to_string()));
    let numbered = json(r#"{"windows": [{"window_id": 1}]}"#);
    assert_eq!(get_first_window_id(&numbered), Err("No windows found".to_string()));
    let tabs = json(r#"{"tabs": [{"tab_id": 4}]}"#);
    assert_eq!(get_first_tab_id(&tabs, "w"), Ok("4".to_string()));
    let none = json(r#"{"tabs": []}"#);
    assert_eq!(get_first_tab_id(&none, "w"), Err("No tabs found in window w".to_string()));
    assert_eq!(resolve_pane_id(&json(r#"{"pane_id": 8}"#)), Ok("8".to_string()));
    assert_eq!(
        resolve_pane_id(&json(r#"{"pane_id": null}"#)),
        Err("No active pane found. Use -t to specify a pane ID.".to_string())
    );
}

#[test]
fn panes_of_the_first_tab_of_the_first_window_are_listed() {
    let command = Command::ListPanes { tab_id: None, window_id: None };
    let stage = asks(start_command(&command), "list_windows", "{}");
    let reply = Ok(json(r#"{"windows": [{"window_id": "w"}]}"#));
    let step = continue_command(&command, &stage, reply, false, 0);
    let stage = asks(step, "list_tabs", r#"{"window_id": "w"}"#);
    let reply = Ok(json(r#"{"tabs": [{"tab_id": 3}]}"#));
    let step = continue_command(&command, &stage, reply, false, 0);
    let stage = asks(step, "list_panes", r#"{"tab_id": "3"}"#);
    let reply = Ok(json(r#"{"panes": []}"#));
    assert_eq!(prints(continue_command(&command, &stage, reply, false, 0)), "No panes found.");
}

#[test]
fn given_targets_are_asked_for_at_once() {
    let command = Command::ListPanes { tab_id: some("5"), window_id: some("w") };
    asks(start_command(&command), "list_panes", r#"{"tab_id": "5"}"#);
    let command = Command::ListTabs { window_id: some("w") };
    asks(start_command(&command), "list_tabs", r#"{"window_id": "w"}"#);
    let command = Command::KillPane { target: some("p") };
    let stage = asks(start_command(&command), "close_pane", r#"{"pane_id": "p"}"#);
    let step = continue_command(&command, &stage, Ok(Json::Null), false, 0);
    assert_eq!(prints(step), "Pane p closed.");
    let step = continue_command(&command, &stage, Ok(Json::Null), true, 0);
    assert!(matches!(step, Step::Silent));
    let step = continue_command(&command, &stage, Err("gone".to_string()), false, 0);
    assert_eq!(fails(step), "gone");
}

#[test]
fn a_pane_is_split_the_way_the_flags_say() {
    assert_eq!(split_direction(no_flags()), "automatic");
    assert_eq!(split_direction(SplitFlags { horizontal: true, ..no_flags() }), "down");
    assert_eq!(split_direction(SplitFlags { vertical: true, ..no_flags() }), "right");
    assert_eq!(split_direction(SplitFlags { up: true, horizontal: true, ..no_flags() }), "up");
    assert_eq!(split_direction(SplitFlags { left: true, down: true, ..no_flags() }), "left");

    let command = Command::SplitPane {
        target: None,
        flags: SplitFlags { down: true, ..no_flags() },
        size: some("0.5"),
        command: some("pwsh"),
    };
    let stage = asks(start_command(&command), "get_active_pane", "{}");
    let step = continue_command(&command, &stage, Ok(json(r#"{"pane_id": 2}"#)), false, 0);
    let stage = asks(
        step,
        "split_pane",
        r#"{"pane_id": "2", "direction": "down", "size": 0.5, "command": "pwsh"}"#,
    );
    let step = continue_command(&command, &stage, Ok(json(r#"{"pane_id": "n"}"#)), false, 0);
    assert_eq!(prints(step), "Created pane n");
}

#[test]
fn a_tab_is_made_with_what_is_given() {
    let command = Command::NewTab { command: some("c"), cwd: None, title: some("t") };
    let stage = asks(start_command(&command), "create_tab", r#"{"command": "c", "title": "t"}"#);
    let reply = Ok(json(r#"{"tab_id": 1, "pane_id": 2}"#));
    assert_eq!(
        prints(continue_command(&command, &stage, reply, false, 0)),
        "Created tab 1 (pane 2)"
    );
}

#[test]
fn keys_are_sent_and_output_is_read() {
    let command = Command::SendKeys { target: some("p"), keys: strings(&["ls", "Enter"]) };
    let stage = asks(start_command(&command), "send_input", r#"{"pane_id": "p", "text": "ls\r"}"#);
    let step = continue_command(&command, &stage, Ok(Json::Null), false, 0);
    assert!(matches!(step, Step::Silent));

    let command = Command::CapturePane { target: some("p"), max_lines: Some(5) };
    let stage =
        asks(start_command(&command), "read_pane_output", r#"{"pane_id": "p", "max_lines": 5}"#);
    let reply = Ok(json(r#"{"content": "out"}"#));
    let step = continue_command(&command, &stage, reply, false, 0);
    assert!(matches!(step, Step::PrintRaw(text) if text == "out"));
    let reply = Ok(json(r#"{"content": "out"}"#));
    let step = continue_command(&command, &stage, reply, true, 0);
    assert_eq!(prints(step), "{\n  \"content\": \"out\"\n}");
}

#[test]
fn waiting_ends_with_the_process_or_the_time() {
    let command = Command::WaitFor { target: "p".to_string(), timeout: 10 };
    let stage = asks(start_command(&command), "get_process_status", r#"{"pane_id": "p"}"#);
    let busy = || Ok(json(r#"{"state": "running"}"#));
    assert!(matches!(continue_command(&command, &stage, busy(), false, 9), Step::Wait));
    assert_eq!(
        fails(continue_command(&command, &stage, busy(), false, 10)),
        "Timeout after 10s waiting for pane p to exit"
    );
    let over = Ok(json(r#"{"state": "exited", "exit_code": 0, "pid": 4}"#));
    assert_eq!(
        prints(continue_command(&command, &stage, over, false, 99)),
        "Exited (code: 0, PID: 4)"
    );
    let forever = Command::WaitFor { target: "p".to_string(), timeout: 0 };
    assert!(matches!(continue_command(&forever, &stage, busy(), false, 9999), Step::Wait));
}

#[test]
fn a_pick_may_be_cancelled() {
    let command = Command::QuickPick {
        choices: strings(&["a", "b"]),
        title: "Pick".to_string(),
        free_input: true,
    };
    let stage = asks(
        start_command(&command),
        "quick_pick",
        r#"{"title": "Pick", "choices": ["a", "b"], "allow_free_input": true}"#,
    );
    let reply = Ok(json(r#"{"cancelled": true, "selected": "a"}"#));
    assert!(matches!(continue_command(&command, &stage, reply, false, 0), Step::Cancelled));
    let reply = Ok(json(r#"{"selected": "b"}"#));
    assert_eq!(prints(continue_command(&command, &stage, reply, false, 0)), "b");
    let step = continue_command(&command, &stage, Ok(json("{}")), false, 0);
    assert!(matches!(step, Step::Silent));
}

fn walked(thorough: bool, answers: &[Option<&str>]) -> (PaneWalk, Vec<String>) {
    let mut walk = PaneWalk::new(thorough, 42);
    let mut asked = Vec::new();
    let mut answers = answers.iter();
    while let Some((method, params)) = walk.question() {
        asked.push(format!("{} {}", method, to_value(&params)));
        let answer = answers.next().expect("an answer for each question");
        walk.answer(answer.map(json));
    }
    assert!(answers.next().is_none());
    (walk, asked)
}

#[test]
fn the_pane_of_the_process_is_found() {
    let (walk, asked) = walked(
        false,
        &[
            Some(r#"{"windows": [{"window_id": "w"}, {"window_id": "v"}]}"#),
            Some(r#"{"tabs": [{"tab_id": null}, {"tab_id": 1}]}"#),
            Some(r#"{"panes": [{"pid": 41, "pane_id": "a"}, {"pid": 42, "pane_id": 7}]}"#),
        ],
    );
    assert_eq!(
        asked,
        strings(&[
            "list_windows {}",
            "list_tabs {\"window_id\":\"w\"}",
            "list_panes {\"tab_id\":\"1\"}",
        ])
    );
    let found = walk.found.unwrap();
    assert_eq!(
        (found.pane_id.as_str(), found.tab_id.as_str(), found.window_id.as_str()),
        ("7", "1", "w")
    );
}

#[test]
fn a_quick_walk_ends_with_the_first_failure() {
    let (walk, asked) =
        walked(false, &[Some(r#"{"windows": [{"window_id": "w"}, {"window_id": "v"}]}"#), None]);
    assert!(walk.found.is_none());
    assert_eq!(asked.len(), 2);
    let (walk, _) = walked(false, &[Some(r#"{"windows": [{"window_id": 1}]}"#)]);
    assert!(walk.found.is_none());
}

#[test]
fn a_thorough_walk_goes_on_and_counts() {
    let (walk, asked) = walked(
        true,
        &[
            Some(r#"{"windows": [{"window_id": 3}, {"window_id": "w"}, {"window_id": "v"}]}"#),
            None,
            Some(r#"{"tabs": [{"tab_id": "t"}, {"tab_id": 2}]}"#),
            Some(r#"{"panes": [{"pid": 42}, {"pid": 1}]}"#),
            Some(r#"{"panes": [{"pid": 42, "pane_id": "last"}]}"#),
        ],
    );
    assert_eq!(asked.len(), 5);
    assert_eq!(
        walk_summary(&walk),
        strings(&[
            "Current Pane (PID 42):",
            "  Window ID: v",
            "  Tab ID:    2",
            "  Pane ID:   last",
            "",
            "Summary:",
            "  Windows: 3, Tabs: 2, Panes: 3",
        ])
    );
    let (walk, _) = walked(true, &[None]);
    assert_eq!(
        walk_summary(&walk),
        strings(&[
            "Current Pane (PID 42): not found in WT pane list",
            "",
            "Summary:",
            "  Windows: 0, Tabs: 0, Panes: 0",
        ])
    );
}

#[test]
fn the_host_is_told_the_agents_and_the_pipe() {
    let info = |token: &str| {
        Some(ConnectionInfo {
            pipe_name: "pipe".to_string(),
            token: token.to_string(),
            source: DiscoverySource::ComClsid,
        })
    };
    assert_eq!(
        host_arguments("copilot --acp", Some("other"), &info("t")),
        strings(&[
            "host", "--agent", "copilot --acp", "--delegate-agent", "other", "--pipe-name", "pipe",
            "--pipe-token", "t",
        ])
    );
    assert_eq!(
        host_arguments("a", Some("  "), &info("")),
        strings(&["host", "--agent", "a", "--pipe-name", "pipe"])
    );
    assert_eq!(host_arguments("a", None, &None), strings(&["host", "--agent", "a"]));
    assert!(delegate_arguments("do it", &None, &None).contains(&"do it".to_string()));
}

#[test]
fn the_source_of_a_prompt_comes_before_the_own_pane() {
    let identity = Some(PaneIdentity {
        pane_id: "p".to_string(),
        tab_id: "t".to_string(),
        window_id: "w".to_string(),
    });
    let none = SourceVariables { pane_id: None, tab_id: some("  "), window_id: None, cwd: None };
    let context = pane_context_from_identity(&identity, &none, &some("/here"));
    assert_eq!(context.session_id.as_deref(), Some("p"));
    assert_eq!(context.source_session_id.as_deref(), Some("p"));
    assert_eq!(context.tab_id.as_deref(), Some("t"));
    assert_eq!(context.cwd.as_deref(), Some("/here"));
    let source = SourceVariables {
        pane_id: some(" sp "),
        tab_id: some("st"),
        window_id: some("sw"),
        cwd: some("/there"),
    };
    let context = pane_context_from_identity(&identity, &source, &some("/here"));
    assert_eq!(context.session_id.as_deref(), Some("p"));
    assert_eq!(context.source_session_id.as_deref(), Some("sp"));
    assert_eq!(context.tab_id.as_deref(), Some("st"));
    assert_eq!(context.window_id.as_deref(), Some("sw"));
    assert_eq!(context.cwd.as_deref(), Some("/there"));
    let context = pane_context_from_identity(&None, &source, &None);
    assert_eq!(context.session_id, None);
    assert_eq!(context.source_session_id.as_deref(), Some("sp"));
    assert_eq!(non_empty_env_var(&some(" a ")), some("a"));
    assert_eq!(non_empty_env_var(&some(" \t")), None);
}

#[test]
fn the_lock_is_named_after_the_pipe() {
    assert_eq!(mutex_name(0xab), "Local\\wta-shared-host-00000000000000ab");
    assert_eq!(mutex_name(u64::MAX), "Local\\wta-shared-host-ffffffffffffffff");
    let mut hasher = std::collections::hash_map::DefaultHasher::new();
    std::hash::Hash::hash("pipe", &mut hasher);
    let hash = std::hash::Hasher::finish(&hasher);
    assert_eq!(host_mutex_name("pipe"), format!("Local\\wta-shared-host-{:016x}", hash));
    assert_ne!(host_mutex_name("pipe"), host_mutex_name("pipes"));
}

#[test]
fn the_host_is_started_where_none_answers() {
    let mut stage = HostStage::Attaching;
    let mut actions = Vec::new();
    let mut spawned = 0;
    let end = loop {
        let action = host_action(stage);
        actions.push(action);
        let succeeded = match action {
            HostAction::Lock => true,
            HostAction::Spawn => {
                spawned += 1;
                true
            }
            _ => spawned > 0,
        };
        match host_step(stage, succeeded) {
            HostStep::Go(next) => stage = next,
            end => break end,
        }
    };
    assert_eq!(end, HostStep::Ready);
    assert_eq!(spawned, 1);
    assert_eq!(
        actions,
        vec![
            HostAction::WaitReady(75),
            HostAction::Probe(200),
            HostAction::WaitReady(200),
            HostAction::Lock,
            HostAction::WaitReady(200),
            HostAction::Probe(200),
            HostAction::Spawn,
            HostAction::WaitReady(30_000),
        ]
    );
    assert_eq!(host_step(HostStage::Locking, false), HostStep::GiveUp);
    assert_eq!(
        stage_message(HostStage::AttachWaiting),
        Some("Waiting for shared host session...")
    );
    assert_eq!(stage_message(HostStage::Checking), Some("Starting shared host..."));
    assert_eq!(stage_message(HostStage::Probing), None);
}
