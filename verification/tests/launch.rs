use wta::commandline::{
    extract_model_from_args, is_copilot_command, join_windows_commandline,
    quote_windows_commandline_arg, split_windows_commandline,
};
use wta::coordinator::{
    build_delegate_launch_commandline, default_delegate_agent_runtimes,
    default_supported_delegate_agents, delegate_prompt_delivery_label, DelegateAgentRuntime,
    DelegatePromptDelivery, OpenTarget, RecommendationChoice, RecommendedAction,
};
use wta::executor::{
    choice_failure, execute_choice, RunReply, RunRequest, RunState, SETTLE_MILLIS,
};
use wta::json::Json;
use wta::mcp::{
    build_initialize_instructions, create_terminal, format_active_pane_context,
    get_terminal_output, kill_terminal, run_command, terminal_answer, truncate,
    truncate_for_prompt, wait_for_terminal, ActivePaneSnapshot, CommandRun, RunCommandParams,
    TerminalOutput,
};
use wta::preflight::{
    auth_status, check_agent, check_auth, executable_names, extract_agent_id, fresh_path,
    with_auth_status, AcpAuthFlow, AgentProfile, AuthRun, CheckStatus,
};

fn strings(list: &[&str]) -> Vec<String> {
    list.iter().map(|item| item.to_string()).collect()
}

fn some(text: &str) -> Option<String> {
    Some(text.to_string())
}

fn choice(actions: Vec<RecommendedAction>) -> RecommendationChoice {
    RecommendationChoice { choice: 1, title: "t".to_string(), rationale: String::new(), actions }
}

fn send(parent: &str, input: &str) -> RecommendedAction {
    RecommendedAction::Send { parent: parent.to_string(), input: input.to_string() }
}

fn open(target: OpenTarget, parent: Option<&str>, input: &str) -> RecommendedAction {
    RecommendedAction::OpenAndSend {
        target,
        parent: parent.map(|p| p.to_string()),
        input: input.to_string(),
        agent: None,
        cwd: some("/w"),
        title: some("T"),
    }
}

#[test]
fn command_lines_are_split_at_blanks_outside_quotes() {
    assert_eq!(split_windows_commandline("a  b\tc"), strings(&["a", "b", "c"]));
    assert_eq!(split_windows_commandline("\"a b\" c"), strings(&["a b", "c"]));
    assert_eq!(split_windows_commandline("a\"b c\"d e"), strings(&["ab cd", "e"]));
    assert_eq!(split_windows_commandline("\"\" a\\b"), strings(&["a\\b"]));
    assert_eq!(split_windows_commandline("\"open end"), strings(&["open end"]));
    assert_eq!(split_windows_commandline("  "), Vec::<String>::new());
}

#[test]
fn joined_arguments_are_read_back() {
    let args = strings(&["plain", "two words", "back\\slash", "a b\\c d", "tab\there", "你 好"]);
    assert_eq!(split_windows_commandline(&join_windows_commandline(&args)), args);
    assert_eq!(quote_windows_commandline_arg("plain"), "plain");
    assert_eq!(quote_windows_commandline_arg(""), "\"\"");
    assert_eq!(quote_windows_commandline_arg("a b"), "\"a b\"");
    assert_eq!(quote_windows_commandline_arg("a\"b"), "\"a\\\"b\"");
    assert_eq!(quote_windows_commandline_arg("a\\\\\"b"), "\"a\\\\\\\\\\\"b\"");
    assert_eq!(quote_windows_commandline_arg("a b\\"), "\"a b\\\\\"");
}

#[test]
fn arguments_are_escaped_for_the_launched_program() {
    let args = strings(&["C:\\Program Files\\a.exe", "-i", "say \"hi\\\"", "", "end\\"]);
    assert_eq!(
        join_windows_commandline(&args),
        "\"C:\\Program Files\\a.exe\" -i \"say \\\"hi\\\\\\\"\" \"\" end\\"
    );
    assert_eq!(
        split_windows_commandline("\"a b\"c  d\" e\""),
        strings(&["a bc", "d e"])
    );
    for line in ["\"\" a \"b\"\"c\"", "\"open a", "  ", "a\"\"b \"\""] {
        for arg in split_windows_commandline(line) {
            assert!(!arg.is_empty() && !arg.contains('"'), "{}", line);
        }
    }
}

#[test]
fn arguments_after_a_name_that_ends_in_a_backslash_are_kept() {
    let line = join_windows_commandline(&strings(&["C:\\my bin\\", "-i", "say \"hi\""]));
    assert_eq!(line, "\"C:\\my bin\\\\\" -i \"say \\\"hi\\\"\"");
    let runtime = DelegateAgentRuntime {
        commandline: "\"C:\\my bin\\\" --fast".to_string(),
        prompt_delivery: DelegatePromptDelivery::LaunchWithStartupPrompt,
        ..default_delegate_agent_runtimes(None, None).remove(0)
    };
    assert_eq!(
        build_delegate_launch_commandline(&runtime, "go on"),
        Ok("\"C:\\my bin\\\\\" --fast -i \"go on\"".to_string())
    );
}

#[test]
fn the_model_is_found_among_the_arguments() {
    assert_eq!(extract_model_from_args(&strings(&["x", "--model", "m"]), 1), some("m"));
    assert_eq!(extract_model_from_args(&strings(&["x", "--model=m"]), 1), some("m"));
    assert_eq!(extract_model_from_args(&strings(&["x", "--model"]), 1), None);
    assert_eq!(extract_model_from_args(&strings(&["x", "y"]), 0), None);
    assert!(is_copilot_command("copilot"));
    assert!(is_copilot_command("C:\\bin\\Copilot.exe"));
    assert!(!is_copilot_command("copilot.EXE"));
    assert!(!is_copilot_command("copilots"));
}

#[test]
fn input_is_sent_to_its_pane() {
    let choice = choice(vec![send("p", "ls")]);
    let agents = default_delegate_agent_runtimes(None, None);
    let step = execute_choice(&choice, &agents, RunState::Ready(0), RunReply::Start);
    assert_eq!(step.notices, strings(&["Sending input to pane p."]));
    assert!(matches!(
        &step.request,
        RunRequest::SendInput { pane, payload } if pane == "p" && payload == "ls\r"
    ));
    let step = execute_choice(&choice, &agents, step.state, RunReply::Sent(Ok(())));
    assert_eq!(step.notices, strings(&["Sent input to pane p."]));
    assert!(matches!(step.request, RunRequest::Done));
    assert!(matches!(step.state, RunState::Finished));
}

#[test]
fn failures_end_the_execution() {
    let two = choice(vec![send("p", "ls"), send("q", "pwd")]);
    let agents = default_delegate_agent_runtimes(None, None);
    let step = execute_choice(&two, &agents, RunState::Sending(0), RunReply::Sent(Err("gone".to_string())));
    assert!(matches!(
        &step.request,
        RunRequest::Failed(message) if message == "failed to send input to pane p: gone"
    ));
    let step = execute_choice(&two, &agents, RunState::Sending(0), RunReply::Sent(Ok(())));
    assert!(matches!(&step.request, RunRequest::SendInput { pane, .. } if pane == "q"));
    let blank = choice(vec![send(" ", "ls")]);
    let step = execute_choice(&blank, &agents, RunState::Ready(0), RunReply::Start);
    assert!(matches!(&step.request, RunRequest::Failed(message) if message.contains("parent")));
    assert_eq!(choice_failure(2, "gone"), "Choice 2 failed: gone");
}

#[test]
fn a_new_tab_settles_before_it_gets_its_input() {
    let choice = choice(vec![open(OpenTarget::Tab, None, "make")]);
    let agents = default_delegate_agent_runtimes(None, None);
    let step = execute_choice(&choice, &agents, RunState::Ready(0), RunReply::Start);
    assert_eq!(step.notices, strings(&["Opening tab."]));
    assert!(matches!(
        &step.request,
        RunRequest::CreateTab { commandline: None, cwd: Some(cwd), title: Some(title) }
            if cwd == "/w" && title == "T"
    ));
    let reply = Json::Object(vec![("pane_id".to_string(), Json::Text("n".to_string()))]);
    let step = execute_choice(&choice, &agents, step.state, RunReply::Opened(Ok(reply)));
    assert_eq!(step.notices, strings(&["Opened tab pane n.", "Sending input to pane n."]));
    assert!(matches!(step.request, RunRequest::Wait(SETTLE_MILLIS)));
    let step = execute_choice(&choice, &agents, step.state, RunReply::Settled);
    assert!(matches!(
        &step.request,
        RunRequest::SendInput { pane, payload } if pane == "n" && payload == "make\r"
    ));
    let step = execute_choice(&choice, &agents, step.state, RunReply::Sent(Ok(())));
    assert!(matches!(step.request, RunRequest::Done));
}

#[test]
fn a_panel_that_cannot_be_opened_is_reported() {
    let choice = choice(vec![open(OpenTarget::Panel, Some("p"), "make")]);
    let agents = default_delegate_agent_runtimes(None, None);
    let step = execute_choice(&choice, &agents, RunState::Ready(0), RunReply::Start);
    assert!(matches!(&step.request, RunRequest::SplitPane { pane, .. } if pane == "p"));
    let step =
        execute_choice(&choice, &agents, step.state, RunReply::Opened(Err("full".to_string())));
    assert!(matches!(
        &step.request,
        RunRequest::Failed(message) if message == "failed to split pane p: full"
    ));
}

fn profile() -> AgentProfile {
    AgentProfile {
        id: "copilot".to_string(),
        display_name: "GitHub Copilot".to_string(),
        install_hint: "hint".to_string(),
        install_url: "url".to_string(),
        auth_hint: "login".to_string(),
        acp_auth_flow: AcpAuthFlow::External,
        auth_check_command: "copilot auth status".to_string(),
        exe_search_order: strings(&[".exe", ".cmd"]),
    }
}

#[test]
fn the_program_of_the_agent_is_looked_for() {
    assert_eq!(extract_agent_id(" copilot --acp --stdio"), "copilot");
    assert_eq!(extract_agent_id(" "), " ");
    let (found, check) = check_agent("copilot --acp", &profile(), some("/bin/copilot"));
    assert!(matches!(found.cli_status, CheckStatus::Passed));
    assert!(check);
    assert_eq!(found.cli_path, some("/bin/copilot"));
    let done = with_auth_status(found, CheckStatus::Passed);
    assert!(done.all_passed());
    let (missing, check) = check_agent("copilot --acp", &profile(), None);
    assert!(!check);
    assert!(matches!(&missing.cli_status, CheckStatus::Failed(r) if r == "Not found on PATH"));
    assert!(!missing.all_passed());
    assert_eq!(
        executable_names("copilot.cmd", &profile().exe_search_order),
        strings(&["copilot.cmd", "copilot.exe", "copilot.cmd"])
    );
    assert_eq!(executable_names("tool", &Vec::new()), strings(&["tool"]));
}

#[test]
fn the_login_check_says_what_is_wrong() {
    let run = |success, stderr: &str| AuthRun::Finished { success, stderr: stderr.to_string() };
    assert!(matches!(auth_status(run(true, "x")), CheckStatus::Passed));
    assert!(matches!(
        auth_status(run(false, "\n  expired  \nmore")),
        CheckStatus::Failed(reason) if reason == "expired"
    ));
    assert!(matches!(
        auth_status(run(false, " ")),
        CheckStatus::Failed(reason) if reason == "Not authenticated"
    ));
    assert!(matches!(
        auth_status(AuthRun::Broken("pipe".to_string())),
        CheckStatus::Failed(reason) if reason == "Auth check failed: pipe"
    ));
    assert!(matches!(
        auth_status(AuthRun::TimedOut),
        CheckStatus::Failed(reason) if reason == "Auth check timed out"
    ));
    assert!(matches!(
        auth_status(AuthRun::NotStarted),
        CheckStatus::Failed(reason) if reason == "Could not run auth check"
    ));
    assert_eq!(check_auth(" gh  auth status "), Some(strings(&["gh", "auth", "status"])));
    assert_eq!(check_auth("  "), None);
    assert_eq!(fresh_path(some("a"), some("b"), "c".to_string()), "a;b");
    assert_eq!(fresh_path(None, some("b"), "c".to_string()), "b");
    assert_eq!(fresh_path(None, None, "c".to_string()), "c");
}

fn snapshot() -> ActivePaneSnapshot {
    ActivePaneSnapshot {
        window_id: "w".to_string(),
        tab_id: "t".to_string(),
        pane_id: "p".to_string(),
        title: some("T"),
        profile: None,
        line_count: Some(12),
        truncated: true,
        content: some("out"),
    }
}

#[test]
fn an_agent_is_told_of_the_active_pane() {
    assert_eq!(
        format_active_pane_context(&snapshot()),
        "Startup active pane context:\n- window_id=w\n- tab_id=t\n- pane_id=p\n             - \
         title=T\n             - captured_line_count=12\n             - \
         captured_output_truncated=true\n             - recent pane content:\n```text\nout\n```\n"
    );
    let told = build_initialize_instructions(None);
    assert!(told.starts_with("WTA (Windows Terminal Agent)"));
    assert_eq!(
        build_initialize_instructions(Some(&snapshot())),
        format!("{}\n\n{}", told, format_active_pane_context(&snapshot()))
    );
    assert_eq!(truncate_for_prompt("abc", 2), "ab\n...<truncated>");
    assert_eq!(truncate_for_prompt("ab", 2), "ab");
    assert_eq!(truncate("abcd", 3), "abc...");
    assert_eq!(truncate("abc", 3), "abc");
}

#[test]
fn the_tools_answer_in_words() {
    let params = RunCommandParams { command: "ls".to_string(), args: strings(&["-l"]), cwd: None };
    let config = params.config();
    assert_eq!((config.command.as_str(), config.args.len(), config.env.len()), ("ls", 1, 0));
    assert_eq!(
        run_command(&CommandRun::Finished { exit_code: -1, output: "out".to_string() }),
        "Exit code: -1\n\nout"
    );
    assert_eq!(
        run_command(&CommandRun::NotCreated("no".to_string())),
        "Error creating terminal: no"
    );
    assert_eq!(
        run_command(&CommandRun::NotAwaited("no".to_string())),
        "Error waiting for exit: no"
    );
    assert_eq!(run_command(&CommandRun::NoOutput("no".to_string())), "Error getting output: no");
    assert_eq!(create_terminal(&Ok("t1".to_string())), "Terminal created: t1");
    assert_eq!(create_terminal(&Err("no".to_string())), "Error creating terminal: no");
    let output = |exit_status| Ok(TerminalOutput { data: "out".to_string(), exit_status });
    assert_eq!(get_terminal_output("t1", &output(None)), "[t1 (running)]\nout");
    assert_eq!(get_terminal_output("t1", &output(Some(-2))), "[t1 (exited: -2)]\nout");
    assert_eq!(get_terminal_output("t1", &Err("no".to_string())), "Error: no");
    assert_eq!(wait_for_terminal("t1", &Ok(3)), "Terminal t1 exited with code 3");
    assert_eq!(wait_for_terminal("t1", &Err("no".to_string())), "Error: no");
    assert_eq!(kill_terminal("t1", &Ok(())), "Terminal t1 killed");
    assert_eq!(kill_terminal("t1", &Err("no".to_string())), "Error: no");
    assert_eq!(terminal_answer(&Err("no".to_string())), "Error: no");
    assert_eq!(
        terminal_answer(&Ok(Json::Object(vec![("a".to_string(), Json::Bool(true))]))),
        "{\n  \"a\": true\n}"
    );
}

#[test]
fn the_supported_agents_are_named() {
    let agents = default_supported_delegate_agents();
    assert_eq!(agents.len(), 1);
    assert_eq!((agents[0].id.as_str(), agents[0].name.as_str()), ("copilot", "GitHub Copilot"));
    assert_eq!(
        delegate_prompt_delivery_label(DelegatePromptDelivery::LaunchThenSend),
        "launch_then_send"
    );
    assert_eq!(
        delegate_prompt_delivery_label(DelegatePromptDelivery::LaunchWithStartupPrompt),
        "launch_with_startup_prompt"
    );
}
