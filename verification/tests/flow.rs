use wta::app::cards::{
    armed_fix_preview, first_send_input, is_previewable, is_send_choice, rec_card_height,
};
use wta::app::setup::{auth_reason, is_auth_error, profile_id};
use wta::app::state::App;
use wta::app::types::{
    AppEvent, AppMode, AutofixDecision, ChatMessage, ConnectionState, DebugDir, DebugMessage,
    Effect, EventContext, KeyCode, KeyEvent, KeyModifiers, ParsedResponse, PermOption,
    PromptTicket, ResumeProfile,
};
use wta::app::update::{append_thought_preview, event_name};
use wta::coordinator::{OpenTarget, RecommendationChoice, RecommendationSet, RecommendedAction};
use wta::json::Json;
use wta::preflight::{AcpAuthFlow, AgentProfile, CheckStatus, PreflightResult};
use wta::ui::status_bar::IdentityStyle;

fn context() -> EventContext {
    EventContext {
        rows: Vec::new(),
        agent_pane: false,
        session_key: String::new(),
        session_known: false,
        cwd_label: String::new(),
        user_input_tools: Vec::new(),
        profile: AgentProfile {
            id: "copilot".to_string(),
            display_name: "GitHub Copilot".to_string(),
            install_hint: "hint".to_string(),
            install_url: "https://example.com/install".to_string(),
            auth_hint: "copilot login".to_string(),
            acp_auth_flow: AcpAuthFlow::External,
            auth_check_command: String::new(),
            exe_search_order: Vec::new(),
        },
        resume: ResumeProfile {
            id: String::new(),
            resume_flag: String::new(),
            install_hint: String::new(),
            available: false,
            program: String::new(),
        },
        ticket: PromptTicket { id: 3, stamp: 44 },
    }
}

fn app() -> App {
    let mut app = App::new(true, true, false);
    app.state = ConnectionState::Connected;
    app
}

fn press(app: &mut App, code: KeyCode) {
    let modifiers = KeyModifiers { control: false, shift: false, others: false };
    app.handle_key(KeyEvent { code, modifiers }, &context());
}

fn take(app: &mut App, event: AppEvent) {
    app.handle_event(event, &context());
}

fn object(members: &[(&str, &str)]) -> Json {
    Json::Object(
        members.iter().map(|(key, text)| (key.to_string(), Json::Text(text.to_string()))).collect(),
    )
}

fn terminal(app: &mut App, method: &str, session_id: &str, members: &[(&str, &str)]) {
    take(
        app,
        AppEvent::WtEvent {
            method: method.to_string(),
            session_id: session_id.to_string(),
            params: object(members),
        },
    );
}

fn send(parent: &str, input: &str) -> RecommendationChoice {
    RecommendationChoice {
        choice: 1,
        title: "Fix it".to_string(),
        rationale: String::new(),
        actions: vec![RecommendedAction::Send {
            parent: parent.to_string(),
            input: input.to_string(),
        }],
    }
}

fn open(input: &str) -> RecommendationChoice {
    RecommendationChoice {
        choice: 2,
        title: "Open it".to_string(),
        rationale: String::new(),
        actions: vec![RecommendedAction::OpenAndSend {
            target: OpenTarget::Tab,
            parent: None,
            input: input.to_string(),
            agent: None,
            cwd: None,
            title: None,
        }],
    }
}

fn set(choices: Vec<RecommendationChoice>) -> RecommendationSet {
    RecommendationSet { recommended_choice: None, choices }
}

fn published(effects: &[Effect]) -> Vec<serde_json::Value> {
    effects
        .iter()
        .filter_map(|effect| match effect {
            Effect::Publish(text) => Some(serde_json::from_str(text).unwrap()),
            _ => None,
        })
        .collect()
}

fn fail_in(app: &mut App, pane: &str) {
    terminal(app, "vt_sequence", pane, &[("sequence", "osc:133;D;1")]);
}

fn answered(app: &mut App, answer: &str, parsed: ParsedResponse) {
    take(app, AppEvent::AgentMessageChunk(answer.to_string()));
    take(app, AppEvent::AgentMessageEnd(parsed));
}

#[test]
fn recommendations_are_offered_and_a_choice_is_executed() {
    let mut app = app();
    for c in "do".chars() {
        press(&mut app, KeyCode::Char(c));
    }
    press(&mut app, KeyCode::Enter);
    app.take_effects();
    let offered = set(vec![send("p", "ls"), open("make")]);
    answered(&mut app, "answer", ParsedResponse::Recommendations(Ok(offered)));
    assert!(app.recommendations.is_some());
    assert_eq!(app.selected_recommendation, 0);
    assert!(!app.agent_streaming);
    press(&mut app, KeyCode::Down);
    assert_eq!(app.selected_recommendation, 1);
    assert_eq!(app.selected_button, 0);
    press(&mut app, KeyCode::Down);
    assert_eq!(app.selected_recommendation, 1);
    press(&mut app, KeyCode::Up);
    assert_eq!(app.selected_button, 2);
    press(&mut app, KeyCode::Right);
    assert_eq!(app.selected_button, 0);
    press(&mut app, KeyCode::Left);
    assert_eq!(app.selected_button, 2);
    app.take_effects();
    press(&mut app, KeyCode::Enter);
    assert!(app.recommendations.is_none());
    let effects = app.take_effects();
    assert!(effects.iter().any(|effect| matches!(
        effect,
        Effect::ExecuteChoice { choice, insert_only: false } if choice.title == "Fix it"
    )));
    assert_eq!(app.completed_turns.len(), 1);
    assert_eq!(app.completed_turns[0].prompt, "do");
}

#[test]
fn the_first_buttons_copy_and_insert() {
    let mut app = app();
    app.recommendations = Some(set(vec![send("p", "ls -l")]));
    app.selected_button = 0;
    press(&mut app, KeyCode::Enter);
    let effects = app.take_effects();
    assert!(effects.iter().any(|e| matches!(e, Effect::CopyText(text) if text == "ls -l")));
    assert!(app.recommendations.is_none());

    app.recommendations = Some(set(vec![send("p", "ls -l")]));
    app.selected_button = 1;
    press(&mut app, KeyCode::Enter);
    let effects = app.take_effects();
    assert!(effects.iter().any(|e| matches!(e, Effect::ExecuteChoice { insert_only: true, .. })));
}

#[test]
fn a_plain_answer_becomes_a_turn() {
    let mut app = app();
    for c in "hi".chars() {
        press(&mut app, KeyCode::Char(c));
    }
    press(&mut app, KeyCode::Enter);
    answered(
        &mut app,
        "hello",
        ParsedResponse::Recommendations(Err("no recommendation JSON block found".to_string())),
    );
    assert!(app.recommendations.is_none());
    assert!(!app.prompt_in_flight);
    assert_eq!(app.completed_turns.len(), 1);
    assert_eq!(app.completed_turns[0].prompt, "hi");
    assert!(app.completed_turns[0]
        .details
        .contains(&ChatMessage::Agent("hello".to_string())));
}

#[test]
fn an_answer_is_read_for_what_it_is() {
    let mut app = app();
    let decode = |_: &str| Ok(set(vec![send("p", "ls")]));
    let decide = |_: &str| AutofixDecision::Ignore;
    assert!(matches!(app.read_response(decode, decide), ParsedResponse::Nothing));
    take(&mut app, AppEvent::AgentMessageChunk("text ```json\n{}\n``` more".to_string()));
    assert!(matches!(
        app.read_response(decode, decide),
        ParsedResponse::Recommendations(Ok(set)) if set.choices.len() == 1
    ));
    app.pane_session_id = Some("p".to_string());
    assert!(matches!(
        app.read_response(decode, decide),
        ParsedResponse::Recommendations(Err(_))
    ));
    app.autofix_session_id = Some("q".to_string());
    assert!(matches!(
        app.read_response(decode, decide),
        ParsedResponse::Autofix(AutofixDecision::Ignore)
    ));
}

#[test]
fn a_fix_is_announced_armed_and_run_in_its_pane() {
    let mut app = app();
    fail_in(&mut app, "p");
    let events = published(&app.take_effects());
    assert_eq!(events[0]["type"], "event");
    assert_eq!(events[0]["method"], "autofix_state");
    assert_eq!(events[0]["params"]["state"], "pending");
    assert_eq!(events[0]["params"]["session_id"], "p");
    assert_eq!(events[0]["params"]["summary"], "Command failed (exit 1)");

    answered(
        &mut app,
        "fix",
        ParsedResponse::Autofix(AutofixDecision::Fix(set(vec![send("", "git push")]))),
    );
    let events = published(&app.take_effects());
    let armed = events.iter().find(|e| e["params"]["state"] == "armed").unwrap();
    assert_eq!(armed["params"]["hotkey_hint"], "Ctrl+Alt+.");
    assert!(armed["params"]["fix_preview"].as_str().unwrap().contains("git push"));

    // A request for another pane runs nothing.
    terminal(&mut app, "autofix_execute", "q", &[]);
    let effects = app.take_effects();
    assert!(!effects.iter().any(|e| matches!(e, Effect::ExecuteChoice { .. })));
    assert_eq!(app.autofix_session_id.as_deref(), Some("p"));

    terminal(&mut app, "autofix_execute", "p", &[]);
    let effects = app.take_effects();
    assert!(effects.iter().any(|e| matches!(
        e,
        Effect::ExecuteChoice { choice, .. } if matches!(
            &choice.actions[0],
            RecommendedAction::Send { parent, input } if parent == "p" && input == "git push"
        )
    )));
    assert!(app.autofix_session_id.is_none());
}

#[test]
fn an_explanation_is_suggested() {
    let mut app = app();
    fail_in(&mut app, "p");
    app.take_effects();
    answered(
        &mut app,
        "why",
        ParsedResponse::Autofix(AutofixDecision::Explain {
            title: "Typo".to_string(),
            explanation: "You mistyped.".to_string(),
        }),
    );
    let events = published(&app.take_effects());
    let suggested = events.iter().find(|e| e["params"]["state"] == "suggested").unwrap();
    assert_eq!(suggested["params"]["suggestion_title"], "Typo");
    assert_eq!(app.suggested_session_id.as_deref(), Some("p"));
    assert_eq!(app.completed_turns[0].prompt, "Auto-diagnosed error in pane p");
    assert_eq!(app.expanded_history, Some(0));
    app.dismiss_notifications();
    press(&mut app, KeyCode::Esc);
    assert!(app.suggested_session_id.is_none());
    assert_eq!(published(&app.take_effects())[0]["params"]["state"], "cleared");
}

#[test]
fn an_answer_to_an_older_failure_is_dropped() {
    let mut app = app();
    fail_in(&mut app, "p");
    fail_in(&mut app, "q");
    assert_eq!(app.autofix_session_id.as_deref(), Some("q"));
    let said = app.messages.len();
    app.inflight_autofix_generation = Some(app.autofix_generation.wrapping_sub(1));
    app.take_effects();
    answered(
        &mut app,
        "late",
        ParsedResponse::Autofix(AutofixDecision::Fix(set(vec![send("p", "ls")]))),
    );
    assert!(app.recommendations.is_none());
    assert_eq!(app.messages.len(), said);
    assert!(app.take_effects().is_empty());
    assert_eq!(app.pending_agent_response, "");
}

#[test]
fn a_success_takes_the_fix_back() {
    let mut app = app();
    fail_in(&mut app, "p");
    let generation = app.autofix_generation;
    terminal(&mut app, "vt_sequence", "p", &[("sequence", "osc:133;D;0")]);
    assert!(app.autofix_session_id.is_none());
    assert_ne!(app.autofix_generation, generation);
}

#[test]
fn a_declined_fix_is_cleared() {
    let mut app = app();
    fail_in(&mut app, "p");
    app.dismiss_notifications();
    app.take_effects();
    press(&mut app, KeyCode::Esc);
    assert!(app.autofix_session_id.is_none());
    assert!(!app.prompt_in_flight);
    assert_eq!(published(&app.take_effects())[0]["params"]["state"], "cleared");
}

#[test]
fn fixes_can_be_switched_off() {
    let mut app = App::new(true, false, false);
    app.state = ConnectionState::Connected;
    fail_in(&mut app, "p");
    assert!(app.autofix_session_id.is_none());
    assert!(!app.prompt_in_flight);
    assert!(!app.take_effects().iter().any(|e| matches!(e, Effect::SubmitPrompt { .. })));
}

fn options() -> Vec<PermOption> {
    [("1", "Allow", "allow_once"), ("2", "Always", "allow_always"), ("3", "No", "reject_once")]
        .iter()
        .map(|(id, name, kind)| PermOption {
            id: id.to_string(),
            name: name.to_string(),
            kind: kind.to_string(),
        })
        .collect()
}

fn request(direct: bool) -> AppEvent {
    let description = "Run it?".to_string();
    if direct {
        AppEvent::PermissionRequest { description, options: options() }
    } else {
        AppEvent::SharedPermissionRequest { description, options: options() }
    }
}

#[test]
fn a_permission_is_answered_once() {
    for (keys, wanted) in [
        (vec![KeyCode::Enter], "1"),
        (vec![KeyCode::Down, KeyCode::Enter], "2"),
        (vec![KeyCode::Down, KeyCode::Down, KeyCode::Down, KeyCode::Up, KeyCode::Enter], "2"),
        (vec![KeyCode::Char('y')], "1"),
        (vec![KeyCode::Char('N')], "3"),
    ] {
        let mut app = app();
        take(&mut app, request(true));
        assert!(app.permission.is_some());
        for key in keys {
            press(&mut app, key);
        }
        assert!(app.permission.is_none());
        let effects = app.take_effects();
        assert_eq!(effects.len(), 1);
        assert!(matches!(
            &effects[0],
            Effect::ReplyPermission { direct: true, option_id } if option_id == wanted
        ));
    }
    let mut app = app();
    take(&mut app, request(false));
    press(&mut app, KeyCode::Char('x'));
    assert!(app.permission.is_some());
    take(&mut app, AppEvent::PermissionCleared);
    assert!(app.permission.is_none());
}

#[test]
fn conversations_belong_to_their_tabs() {
    let mut app = app();
    app.tab_id = Some("a".to_string());
    take(&mut app, AppEvent::SystemMessage("in a".to_string()));
    terminal(&mut app, "tab_changed", "", &[("tab_id", "b")]);
    assert!(app.messages.is_empty());
    take(&mut app, AppEvent::SystemMessage("in b".to_string()));
    terminal(&mut app, "tab_changed", "", &[("tab_id", "a")]);
    assert_eq!(app.messages, vec![ChatMessage::System("in a".to_string())]);
    terminal(&mut app, "tab_changed", "", &[("tab_id", "b")]);
    assert_eq!(app.messages, vec![ChatMessage::System("in b".to_string())]);
}

#[test]
fn turns_are_walked_and_opened() {
    let mut app = app();
    for prompt in ["one", "two"] {
        for c in prompt.chars() {
            press(&mut app, KeyCode::Char(c));
        }
        press(&mut app, KeyCode::Enter);
        answered(&mut app, "ok", ParsedResponse::Recommendations(Err(String::new())));
    }
    assert_eq!(app.completed_turns.len(), 2);
    assert!(app.history_navigation_enabled());
    press(&mut app, KeyCode::Up);
    assert_eq!(app.selected_history, Some(0));
    press(&mut app, KeyCode::Enter);
    assert!(app.history_row_expanded(0));
    press(&mut app, KeyCode::Enter);
    assert!(!app.history_row_expanded(0));
    press(&mut app, KeyCode::Down);
    press(&mut app, KeyCode::Down);
    assert!(app.history_row_selected(1));
}

#[test]
fn thoughts_are_shown_while_the_agent_thinks() {
    let mut app = app();
    take(&mut app, AppEvent::AgentThoughtChunk("hm".to_string()));
    assert_eq!(app.progress_status.as_deref(), Some("Thinking..."));
    assert_eq!(app.pending_thought_response, "hm");
    take(&mut app, AppEvent::AgentMessageChunk("a".to_string()));
    assert_eq!(app.pending_thought_response, "");
    assert_eq!(app.progress_status, None);
    let mut buffer = "x".repeat(1020);
    append_thought_preview(&mut buffer, "yyyyyyyy");
    assert_eq!(buffer.chars().count(), 1027);
    assert!(buffer.starts_with("...xx") && buffer.ends_with("yyyyyyyy"));
}

#[test]
fn tool_calls_are_followed() {
    let mut app = app();
    take(
        &mut app,
        AppEvent::ToolCall {
            id: "t".to_string(),
            title: "Read".to_string(),
            status: "pending".to_string(),
        },
    );
    take(
        &mut app,
        AppEvent::ToolCallUpdate { id: "t".to_string(), status: "completed".to_string() },
    );
    assert_eq!(
        app.messages,
        vec![ChatMessage::ToolCall {
            id: "t".to_string(),
            title: "Read".to_string(),
            status: "completed".to_string(),
        }]
    );
}

#[test]
fn the_debug_panel_keeps_the_last_messages() {
    let mut app = app();
    for stamp in 0..510 {
        take(
            &mut app,
            AppEvent::DebugPipeMessage(DebugMessage {
                stamp,
                direction: DebugDir::Sent,
                content: String::new(),
            }),
        );
    }
    assert_eq!(app.debug_messages.len(), 500);
    assert_eq!(app.debug_messages[0].stamp, 10);
}

fn preflight(cli: CheckStatus, auth: CheckStatus) -> PreflightResult {
    PreflightResult {
        agent_id: "copilot".to_string(),
        display_name: "GitHub Copilot".to_string(),
        cli_status: cli,
        cli_path: None,
        auth_status: auth,
        install_hint: "hint".to_string(),
        install_url: "https://example.com/install".to_string(),
        auth_hint: "copilot login".to_string(),
    }
}

#[test]
fn what_is_missing_is_set_up() {
    let mut app = app();
    take(
        &mut app,
        AppEvent::PreflightComplete(preflight(
            CheckStatus::Failed("Not found on PATH".to_string()),
            CheckStatus::Skipped,
        )),
    );
    assert!(matches!(app.mode, AppMode::Setup));
    take(&mut app, AppEvent::InstallStarted);
    assert!(app.setup.as_ref().unwrap().install_in_progress);
    take(&mut app, AppEvent::InstallComplete(Err("no network".to_string())));
    let setup = app.setup.as_ref().unwrap();
    assert!(!setup.install_in_progress);
    assert_eq!(setup.install_error.as_deref(), Some("no network"));
    take(&mut app, AppEvent::PreflightComplete(preflight(CheckStatus::Passed, CheckStatus::Passed)));
    assert!(matches!(app.mode, AppMode::Chat));
}

#[test]
fn login_errors_are_told_from_others() {
    assert!(is_auth_error("HTTP 401"));
    assert!(is_auth_error("Please LOGIN first"));
    assert!(!is_auth_error("connection reset"));
    assert_eq!(auth_reason("first\n  Auth needed  \nlast"), "Auth needed");
    assert_eq!(profile_id(""), "copilot");
}

#[test]
fn a_failed_connection_is_shown() {
    let mut app = app();
    take(&mut app, AppEvent::ConnectionStage("Starting...".to_string()));
    assert_eq!(app.state, ConnectionState::Connecting("Starting...".to_string()));
    assert!(matches!(app.identity_style(), IdentityStyle::Connecting));
    assert_eq!(app.input_title(), " (not connected) ");
    take(
        &mut app,
        AppEvent::AgentConnected {
            name: "Copilot".to_string(),
            model: Some("m".to_string()),
            version: None,
            session_id: "s".to_string(),
        },
    );
    assert_eq!(app.state, ConnectionState::Connected);
    assert_eq!(app.agent_identity(), "Copilot m");
    take(&mut app, AppEvent::PromptTemplateLoaded { name: "terse".to_string() });
    assert_eq!(app.agent_identity(), "Copilot m · terse");
    assert_eq!(app.input_title(), " > ");
    take(&mut app, AppEvent::TimingMetric("1.2s".to_string()));
    assert_eq!(app.status_note(), Some("1.2s"));
    take(&mut app, AppEvent::AgentError("connection reset".to_string()));
    assert!(app.messages.iter().any(|m| matches!(m, ChatMessage::Error(_))));
}

#[test]
fn events_have_names_and_ticks_redraw_only_what_moves() {
    assert_eq!(event_name(&AppEvent::Tick), "tick");
    assert_eq!(event_name(&AppEvent::PermissionCleared), "permission_cleared");
    let mut app = app();
    assert!(app.event_requires_redraw(&AppEvent::Resize(80, 24)));
    assert!(!app.event_requires_redraw(&AppEvent::Tick));
    app.prompt_in_flight = true;
    assert!(app.event_requires_redraw(&AppEvent::Tick));
}

#[test]
fn the_first_sight_of_a_selection_is_noted_once() {
    let mut app = app();
    app.recommendations = Some(set(vec![send("p", "ls")]));
    app.selection_visible_pending = true;
    app.current_prompt_id = Some(3);
    app.current_prompt_stamp = Some(44);
    let note = app.log_selection_visible_if_needed().unwrap();
    assert_eq!((note.prompt_id, note.stamp), (3, 44));
    assert_eq!(note.details, "choice_count=1 selected_index=0");
    assert!(app.log_selection_visible_if_needed().is_none());
}

#[test]
fn cards_know_what_they_type() {
    assert!(is_send_choice(&send("p", "ls")));
    assert!(!is_send_choice(&open("ls")));
    assert_eq!(first_send_input(&send("p", "ls")), Some("ls".to_string()));
    assert_eq!(first_send_input(&open("ls")), None);
    assert!(is_previewable(&set(vec![send("p", "ls")])));
    assert!(rec_card_height(&send("p", "ls"), 80) > 0);
}

fn numbered(choice: usize, input: &str) -> RecommendationChoice {
    RecommendationChoice { choice, ..send("7", input) }
}

fn recommending(
    recommended_choice: Option<usize>,
    choices: Vec<RecommendationChoice>,
) -> RecommendationSet {
    RecommendationSet { recommended_choice, choices }
}

#[test]
fn the_preview_shows_what_the_recommended_choice_types() {
    let choices = || vec![numbered(1, "ls"), numbered(2, "pwd")];
    assert_eq!(armed_fix_preview(&recommending(Some(1), choices())), "ls");
    assert_eq!(armed_fix_preview(&recommending(Some(2), choices())), "pwd");
    assert_eq!(armed_fix_preview(&recommending(Some(3), choices())), "ls");
    assert_eq!(armed_fix_preview(&recommending(None, choices())), "ls");
    assert_eq!(armed_fix_preview(&recommending(Some(1), Vec::new())), "");

    let mut both = open("x");
    both.actions.push(RecommendedAction::Send {
        parent: "7".to_string(),
        input: " y\r\nz ".to_string(),
    });
    assert_eq!(armed_fix_preview(&set(vec![both])), "y  z");
    assert_eq!(armed_fix_preview(&set(vec![open(" x\n")])), "x");
    let idle = RecommendationChoice { actions: Vec::new(), ..open("x") };
    assert_eq!(armed_fix_preview(&set(vec![idle])), "Open it");

    let long = "a".repeat(81);
    assert_eq!(
        armed_fix_preview(&set(vec![send("7", &long)])),
        format!("{}…", "a".repeat(80))
    );
    let split = format!("{}é!", "a".repeat(79));
    assert!(!is_previewable(&set(vec![send("7", &split)])));
}

#[test]
fn the_panel_takes_at_most_two_fifths_of_the_rows() {
    let mut app = app();
    for rows in [0, 7, 19, 20, 24, 25, 50, 65535] {
        take(&mut app, AppEvent::Resize(80, rows));
        app.recommendations = None;
        assert_eq!(app.rec_panel_height(), 0);
        app.recommendations =
            Some(set(vec![numbered(1, "ls"), numbered(2, "pwd"), numbered(3, "cd")]));
        let height = app.rec_panel_height();
        if rows >= 20 {
            assert!(u32::from(height) <= u32::from(rows) * 2 / 5, "{}", rows);
        } else {
            assert_eq!(height, 8);
        }
        app.recommendations = Some(set(vec![numbered(1, "ls")]));
        assert_eq!(app.rec_panel_height(), 8);
    }
    app.recommendations = Some(set(vec![numbered(1, "ls"), numbered(2, "pwd"), numbered(3, "cd")]));
    let heights: Vec<u16> = [20, 24, 25, 50, 55, 100]
        .iter()
        .map(|rows| {
            take(&mut app, AppEvent::Resize(80, *rows));
            app.rec_panel_height()
        })
        .collect();
    assert_eq!(heights, vec![8, 9, 10, 20, 22, 22]);
}

fn run_fix(recommended_choice: Option<usize>, selected: usize) -> String {
    let mut app = app();
    app.autofix_session_id = Some("p".to_string());
    app.recommendations =
        Some(recommending(recommended_choice, vec![numbered(1, "ls"), numbered(2, "pwd")]));
    app.selected_recommendation = selected;
    terminal(&mut app, "autofix_execute", "p", &[]);
    app.take_effects()
        .iter()
        .find_map(|effect| match effect {
            Effect::ExecuteChoice { choice, insert_only: false } => first_send_input(choice),
            _ => None,
        })
        .unwrap()
}

#[test]
fn the_fix_that_runs_has_the_recommended_number() {
    assert_eq!(run_fix(Some(1), 1), "ls");
    assert_eq!(run_fix(Some(2), 0), "pwd");
    assert_eq!(run_fix(Some(3), 1), "ls");
    assert_eq!(run_fix(None, 1), "pwd");
    assert_eq!(run_fix(None, 0), "ls");
    assert_eq!(run_fix(None, 9), "pwd");
}

#[test]
fn a_pending_answer_is_read_and_taken() {
    let decode = |block: &str| match block {
        "{}" => Ok(set(vec![send("p", "ls")])),
        other => Err(other.to_string()),
    };
    let decide = |answer: &str| AutofixDecision::Fix(set(vec![send("", answer)]));

    let mut app = app();
    take(&mut app, AppEvent::AgentMessageChunk("so ```json\n{}\n```".to_string()));
    assert!(app.finish_response(decode, decide));
    assert_eq!(app.recommendations.as_ref().unwrap().choices[0].title, "Fix it");
    assert!(app.pending_agent_response.is_empty());

    app.recommendations = None;
    take(&mut app, AppEvent::AgentMessageChunk("plain".to_string()));
    assert!(app.finish_response(decode, decide));
    assert!(app.recommendations.is_none());

    fail_in(&mut app, "p");
    app.take_effects();
    take(&mut app, AppEvent::AgentMessageChunk("git push".to_string()));
    assert!(app.finish_response(decode, decide));
    let events = published(&app.take_effects());
    let armed = events.iter().find(|e| e["params"]["state"] == "armed").unwrap();
    assert_eq!(armed["params"]["fix_preview"], "git push");

    // A preview that would be cut inside a character is not shown.
    fail_in(&mut app, "q");
    let answer = format!("{}é!", "a".repeat(79));
    take(&mut app, AppEvent::AgentMessageChunk(answer.clone()));
    app.take_effects();
    assert!(!app.finish_response(decode, decide));
    assert_eq!(app.pending_agent_response, answer);
    assert!(app.take_effects().is_empty());

    // An answer that counts no more is dropped unread.
    app.inflight_autofix_generation = Some(app.autofix_generation.wrapping_sub(1));
    assert!(app.finish_response(
        |_: &str| unreachable!("a stale answer is not decoded"),
        |_: &str| unreachable!("a stale answer decides nothing")
    ));
    assert!(app.pending_agent_response.is_empty());
    assert!(app.take_effects().is_empty());
}

#[test]
fn the_preview_shows_the_fix_that_runs() {
    for recommended in [None, Some(1), Some(2), Some(9)] {
        let mut app = app();
        fail_in(&mut app, "p");
        let fix = recommending(recommended, vec![numbered(1, "ls"), numbered(2, "pwd")]);
        let preview = armed_fix_preview(&fix);
        answered(&mut app, "fix", ParsedResponse::Autofix(AutofixDecision::Fix(fix)));
        app.take_effects();
        terminal(&mut app, "autofix_execute", "p", &[]);
        assert!(app.take_effects().iter().any(|effect| matches!(
            effect,
            Effect::ExecuteChoice { choice, .. } if first_send_input(choice) == Some(preview.clone())
        )));
    }
}
