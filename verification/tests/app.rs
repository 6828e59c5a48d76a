use wta::app::keys::session_program;
use wta::app::notifications::{classify_wt_event, WtEventSeverity, WtNotification};
use wta::app::state::App;
use wta::app::types::{
    AgentSession, AgentStatus, AppEvent, ChatMessage, CliSource, ConnectionState, Effect,
    EventContext, FocusPaneFailureReason, KeyCode, KeyEvent, KeyModifiers, PromptTicket,
    ResumeProfile, Screen, SessionEvent,
};
use wta::json::{Json, JsonNumber};
use wta::preflight::{AcpAuthFlow, AgentProfile};

fn from_value(value: &serde_json::Value) -> Json {
    match value {
        serde_json::Value::Null => Json::Null,
        serde_json::Value::Bool(b) => Json::Bool(*b),
        serde_json::Value::Number(n) => Json::Number(match (n.as_u64(), n.as_i64()) {
            (Some(n), _) => JsonNumber::Unsigned(n),
            (None, Some(n)) => JsonNumber::Negative(n),
            (None, None) => JsonNumber::Decimal(n.to_string()),
        }),
        serde_json::Value::String(text) => Json::Text(text.clone()),
        serde_json::Value::Array(items) => Json::Array(items.iter().map(from_value).collect()),
        serde_json::Value::Object(members) => Json::Object(
            members.iter().map(|(key, value)| (key.clone(), from_value(value))).collect(),
        ),
    }
}

fn json(text: &str) -> Json {
    from_value(&serde_json::from_str(text).unwrap())
}

fn context() -> EventContext {
    EventContext {
        rows: Vec::new(),
        agent_pane: false,
        session_key: String::new(),
        session_known: false,
        cwd_label: String::new(),
        user_input_tools: vec!["ask_user".to_string()],
        profile: AgentProfile {
            id: "copilot".to_string(),
            display_name: "GitHub Copilot".to_string(),
            install_hint: "winget install GitHub.Copilot".to_string(),
            install_url: "https://example.com/install".to_string(),
            auth_hint: "copilot login".to_string(),
            acp_auth_flow: AcpAuthFlow::External,
            auth_check_command: String::new(),
            exe_search_order: vec!["copilot".to_string()],
        },
        resume: ResumeProfile {
            id: "gemini".to_string(),
            resume_flag: "--resume".to_string(),
            install_hint: "npm install".to_string(),
            available: true,
            program: "gemini".to_string(),
        },
        ticket: PromptTicket { id: 7, stamp: 1000 },
    }
}

fn session(
    key: &str,
    cli_source: CliSource,
    pane: Option<&str>,
    cwd: &str,
    status: AgentStatus,
) -> AgentSession {
    AgentSession {
        key: key.to_string(),
        cli_source,
        pane_session_id: pane.map(|pane| pane.to_string()),
        cwd: cwd.to_string(),
        status,
    }
}

fn with_rows(rows: Vec<AgentSession>) -> EventContext {
    EventContext { rows, ..context() }
}

fn test_app() -> App {
    App::new(true, true, false)
}

fn plain(code: KeyCode) -> KeyEvent {
    KeyEvent { code, modifiers: KeyModifiers { control: false, shift: false, others: false } }
}

fn control(code: KeyCode) -> KeyEvent {
    KeyEvent { code, modifiers: KeyModifiers { control: true, shift: false, others: false } }
}

fn shift(code: KeyCode) -> KeyEvent {
    KeyEvent { code, modifiers: KeyModifiers { control: false, shift: true, others: false } }
}

fn press(app: &mut App, code: KeyCode) {
    app.handle_key(plain(code), &context());
}

fn type_text(app: &mut App, text: &str) {
    for c in text.chars() {
        press(app, KeyCode::Char(c));
    }
}

fn terminal_event(app: &mut App, method: &str, session_id: &str, params: &str) {
    terminal_event_in(app, method, session_id, params, &context());
}

fn terminal_event_in(
    app: &mut App,
    method: &str,
    session_id: &str,
    params: &str,
    ctx: &EventContext,
) {
    app.handle_event(
        AppEvent::WtEvent {
            method: method.to_string(),
            session_id: session_id.to_string(),
            params: json(params),
        },
        ctx,
    );
}

fn changes(effects: &[Effect]) -> Vec<&SessionEvent> {
    effects
        .iter()
        .filter_map(|effect| match effect {
            Effect::ChangeSession(change) => Some(change),
            _ => None,
        })
        .collect()
}

fn submits(effects: &[Effect]) -> bool {
    effects.iter().any(|effect| matches!(effect, Effect::SubmitPrompt { .. }))
}

#[test]
fn f2_toggles_between_chat_and_agents_view() {
    let mut app = test_app();
    assert_eq!(app.current_view, Screen::Chat);

    press(&mut app, KeyCode::F(2));
    assert_eq!(app.current_view, Screen::Agents);

    press(&mut app, KeyCode::F(2));
    assert_eq!(app.current_view, Screen::Chat);
}

#[test]
fn control_tab_toggles_the_screen_and_other_combinations_do_not() {
    let mut app = test_app();
    app.handle_key(control(KeyCode::Tab), &context());
    assert_eq!(app.current_view, Screen::Agents);
    app.handle_key(control(KeyCode::F(2)), &context());
    assert_eq!(app.current_view, Screen::Agents);
    app.handle_key(plain(KeyCode::Tab), &context());
    assert_eq!(app.current_view, Screen::Agents);
    app.handle_key(control(KeyCode::Tab), &context());
    assert_eq!(app.current_view, Screen::Chat);
}

#[test]
fn arrow_keys_move_cursor_in_agents_view() {
    let mut app = test_app();
    let ctx = with_rows(vec![
        session("a", CliSource::Claude, Some("p1"), "/x", AgentStatus::Idle),
        session("b", CliSource::Copilot, Some("p2"), "/y", AgentStatus::Idle),
    ]);
    app.current_view = Screen::Agents;

    app.handle_key(plain(KeyCode::Down), &ctx);
    assert_eq!(app.agents_selected, Some(1));

    app.handle_key(plain(KeyCode::Down), &ctx);
    assert_eq!(app.agents_selected, Some(1));

    app.handle_key(plain(KeyCode::Up), &ctx);
    assert_eq!(app.agents_selected, Some(0));

    app.handle_key(plain(KeyCode::Up), &ctx);
    assert_eq!(app.agents_selected, Some(0));
}

#[test]
fn down_in_an_empty_list_selects_the_first_row() {
    let mut app = test_app();
    app.current_view = Screen::Agents;
    app.agents_selected = Some(4);
    press(&mut app, KeyCode::Down);
    assert_eq!(app.agents_selected, Some(0));
}

#[test]
fn enter_on_live_row_dispatches_focus_command() {
    let mut app = test_app();
    let pane = "00000000-0000-0000-0000-0000000000aa";
    let ctx = with_rows(vec![session("a", CliSource::Claude, Some(pane), "/x", AgentStatus::Idle)]);
    app.current_view = Screen::Agents;
    app.agents_selected = Some(0);

    app.handle_key(plain(KeyCode::Enter), &ctx);
    let effects = app.take_effects();
    assert_eq!(effects.len(), 1);
    assert!(matches!(&effects[0], Effect::FocusPane(id) if id == pane));
    assert_eq!(app.current_view, Screen::Agents, "Enter on live row must NOT close the F2 view");
}

#[test]
fn enter_on_live_row_without_pane_is_noop_not_split() {
    let mut app = test_app();
    let ctx = with_rows(vec![session(
        "copilot-resumed",
        CliSource::Copilot,
        None,
        "/work/proj",
        AgentStatus::Idle,
    )]);
    app.current_view = Screen::Agents;
    app.agents_selected = Some(0);

    app.handle_key(plain(KeyCode::Enter), &ctx);
    assert!(
        app.take_effects().is_empty(),
        "Enter on live-row-without-pane must NOT dispatch any command"
    );
    assert_eq!(app.current_view, Screen::Agents);
}

#[test]
fn enter_on_history_row_dispatches_split_pane_with_resume() {
    let mut app = test_app();
    let mut ctx = with_rows(vec![session(
        "abc-123",
        CliSource::Claude,
        None,
        "/work/proj",
        AgentStatus::Ended,
    )]);
    ctx.resume.id = "agent".to_string();
    ctx.resume.program = "agent".to_string();
    app.current_view = Screen::Agents;
    app.agents_selected = Some(0);
    app.handle_key(plain(KeyCode::Enter), &ctx);

    let effects = app.take_effects();
    assert_eq!(effects.len(), 2);
    match &effects[0] {
        Effect::ResumeSession { key, commandline } => {
            assert_eq!(key, "abc-123");
            assert!(commandline.contains("agent --resume abc-123"), "{}", commandline);
            assert!(commandline.contains("cmd.exe /d /s /c"), "{}", commandline);
            assert!(commandline.contains("cd /d \"/work/proj\""), "{}", commandline);
            assert_eq!(
                commandline,
                "cmd.exe /d /s /c \"cd /d \"/work/proj\" && agent --resume abc-123\""
            );
        }
        other => panic!("expected a resume, got {:?}", other),
    }
    assert!(matches!(
        &effects[1],
        Effect::ChangeSession(SessionEvent::ResumeDispatched { key }) if key == "abc-123"
    ));
}

#[test]
fn a_session_without_a_directory_is_resumed_where_the_pane_opens() {
    let mut app = test_app();
    let ctx = with_rows(vec![session("k", CliSource::Copilot, None, "", AgentStatus::Historical)]);
    app.current_view = Screen::Agents;
    app.handle_key(plain(KeyCode::Enter), &ctx);
    let effects = app.take_effects();
    assert!(matches!(
        &effects[0],
        Effect::ResumeSession { commandline, .. } if commandline == "gemini --resume k"
    ));
}

#[test]
fn enter_on_historical_row_transitions_to_idle() {
    let mut app = test_app();
    let ctx = with_rows(vec![session(
        "agent-uuid-1",
        CliSource::Claude,
        None,
        "C:\\work\\proj",
        AgentStatus::Historical,
    )]);
    app.current_view = Screen::Agents;
    app.agents_selected = Some(0);

    app.handle_key(plain(KeyCode::Enter), &ctx);

    let effects = app.take_effects();
    let changed = changes(&effects);
    assert_eq!(changed.len(), 1);
    assert!(matches!(
        changed[0],
        SessionEvent::ResumeDispatched { key } if key == "agent-uuid-1"
    ));
}

#[test]
fn a_missing_program_is_reported_instead_of_resumed() {
    let mut app = test_app();
    let mut ctx = with_rows(vec![session("k", CliSource::Gemini, None, "/x", AgentStatus::Ended)]);
    ctx.resume.available = false;
    app.current_view = Screen::Agents;
    app.scroll_offset = 5;
    app.handle_key(plain(KeyCode::Enter), &ctx);
    assert!(app.take_effects().is_empty());
    assert_eq!(
        app.messages,
        vec![ChatMessage::Error(
            "Cannot resume: 'gemini' is not installed or not on PATH.\n  Install hint: npm install"
                .to_string()
        )]
    );
    assert_eq!(app.scroll_offset, 0);
}

#[test]
fn the_missing_program_is_the_one_of_the_session() {
    for (source, named) in [
        (CliSource::Copilot, "copilot"),
        (CliSource::Gemini, "gemini"),
        (CliSource::Claude, "other"),
    ] {
        let mut app = test_app();
        let mut ctx = with_rows(vec![session("k", source, None, "/x", AgentStatus::Ended)]);
        ctx.resume.available = false;
        ctx.resume.id = "other".to_string();
        app.current_view = Screen::Agents;
        app.handle_key(plain(KeyCode::Enter), &ctx);
        assert_eq!(session_program(source, "other"), Some(named.to_string()));
        let ChatMessage::Error(said) = &app.messages[0] else { panic!("nothing is said") };
        assert!(said.starts_with(&format!("Cannot resume: '{}' is not", named)), "{}", said);
    }
    assert_eq!(session_program(CliSource::Unknown, "other"), None);
}

#[test]
fn programs_that_cannot_resume_are_left_alone() {
    let mut app = test_app();
    app.current_view = Screen::Agents;
    let mut ctx = with_rows(vec![session("k", CliSource::Gemini, None, "/x", AgentStatus::Ended)]);
    ctx.resume.resume_flag = String::new();
    app.handle_key(plain(KeyCode::Enter), &ctx);
    let ctx = with_rows(vec![session("k", CliSource::Unknown, None, "/x", AgentStatus::Ended)]);
    app.handle_key(plain(KeyCode::Enter), &ctx);
    assert!(app.take_effects().is_empty());
    assert!(app.messages.is_empty());
}

#[test]
fn delete_on_history_row_removes_session_from_registry() {
    let mut app = test_app();
    let ctx = with_rows(vec![session("k", CliSource::Claude, None, "/x", AgentStatus::Ended)]);
    app.current_view = Screen::Agents;
    app.agents_selected = Some(0);

    app.handle_key(plain(KeyCode::Delete), &ctx);
    let effects = app.take_effects();
    assert_eq!(effects.len(), 1);
    assert!(matches!(&effects[0], Effect::RemoveSession(key) if key == "k"));
}

#[test]
fn delete_on_live_row_is_noop() {
    let mut app = test_app();
    let ctx = with_rows(vec![session("k", CliSource::Claude, Some("p"), "/x", AgentStatus::Idle)]);
    app.current_view = Screen::Agents;
    app.agents_selected = Some(0);

    app.handle_key(plain(KeyCode::Delete), &ctx);
    assert!(app.take_effects().is_empty());
}

#[test]
fn agents_view_swallows_chat_input_keys() {
    let mut app = test_app();
    app.current_view = Screen::Agents;
    let input_before = app.input.clone();
    press(&mut app, KeyCode::Char('a'));
    press(&mut app, KeyCode::Char('b'));
    press(&mut app, KeyCode::Backspace);
    assert_eq!(app.input, input_before, "Chat input must not change while in Agents view");
}

#[test]
fn agents_view_esc_returns_to_chat() {
    let mut app = test_app();
    app.current_view = Screen::Agents;
    press(&mut app, KeyCode::Esc);
    assert_eq!(app.current_view, Screen::Chat);
}

#[test]
fn enter_on_synthetic_history_row_does_not_dispatch_resume() {
    let mut app = test_app();
    let ctx = with_rows(vec![session(
        "pane:00000000-0000-0000-0000-0000000000aa",
        CliSource::Claude,
        None,
        "/x",
        AgentStatus::Ended,
    )]);
    app.current_view = Screen::Agents;
    app.agents_selected = Some(0);
    app.handle_key(plain(KeyCode::Enter), &ctx);

    assert!(
        app.take_effects().is_empty(),
        "must not dispatch resume for synthetic pane:<guid> key"
    );
}

#[test]
fn pane_focus_failed_not_found_demotes_idle_row_to_ended() {
    let mut app = test_app();
    let pane = "11111111-1111-1111-1111-111111111111";
    app.handle_event(
        AppEvent::PaneFocusFailed {
            pane_session_id: pane.to_string(),
            reason: FocusPaneFailureReason::NotFound,
        },
        &context(),
    );
    let effects = app.take_effects();
    let changed = changes(&effects);
    assert_eq!(changed.len(), 1);
    assert!(matches!(
        changed[0],
        SessionEvent::PaneClosed { pane_session_id } if pane_session_id == pane
    ));
}

#[test]
fn pane_focus_failed_other_does_not_demote() {
    let mut app = test_app();
    app.handle_event(
        AppEvent::PaneFocusFailed {
            pane_session_id: "22222222-2222-2222-2222-222222222222".to_string(),
            reason: FocusPaneFailureReason::Other {
                exit_code: Some(1),
                stderr: "FocusPane failed: 0x80004005\n".to_string(),
            },
        },
        &context(),
    );
    assert!(app.take_effects().is_empty());
}

#[test]
fn enter_after_pane_focus_not_found_demotion_dispatches_resume() {
    let mut app = test_app();
    let pane = "33333333-3333-3333-3333-333333333333";
    app.handle_event(
        AppEvent::PaneFocusFailed {
            pane_session_id: pane.to_string(),
            reason: FocusPaneFailureReason::NotFound,
        },
        &context(),
    );
    assert_eq!(changes(&app.take_effects()).len(), 1);

    // The row is over then, and has no pane any more.
    let ctx = with_rows(vec![session(
        "real-agent-uuid-aaaa",
        CliSource::Gemini,
        None,
        "/x",
        AgentStatus::Ended,
    )]);
    app.current_view = Screen::Agents;
    app.agents_selected = Some(0);
    app.handle_key(plain(KeyCode::Enter), &ctx);
    let effects = app.take_effects();
    assert!(
        matches!(&effects[0], Effect::ResumeSession { key, .. } if key == "real-agent-uuid-aaaa"),
        "after NotFound demotion, Enter must split-pane resume, not focus-pane"
    );
}

#[test]
fn connection_state_closed_on_agent_pane_does_not_trigger_autofix() {
    let mut app = test_app();
    app.autofix_enabled = true;
    app.state = ConnectionState::Connected;
    app.pane_session_id = Some("00000000-0000-0000-0000-000000000001".to_string());

    let agent_pane = "bbbbbbbb-bbbb-bbbb-bbbb-bbbbbbbbbbbb";
    let ctx = EventContext { agent_pane: true, ..context() };
    terminal_event_in(
        &mut app,
        "connection_state",
        agent_pane,
        r#"{"state": "closed"}"#,
        &ctx,
    );

    assert!(
        app.autofix_session_id.is_none(),
        "agent CLI exit must not arm autofix (no phantom Copilot ACP row)"
    );
    assert!(!app.prompt_in_flight, "agent CLI exit must not send an autofix prompt");
    let effects = app.take_effects();
    assert!(!submits(&effects));
    assert!(matches!(
        changes(&effects)[0],
        SessionEvent::PaneClosed { pane_session_id } if pane_session_id == agent_pane
    ));
}

#[test]
fn shell_command_failure_on_non_agent_pane_still_triggers_autofix() {
    let mut app = test_app();
    app.autofix_enabled = true;
    app.state = ConnectionState::Connected;
    app.pane_session_id = Some("00000000-0000-0000-0000-000000000001".to_string());

    let regular_pane = "cccccccc-cccc-cccc-cccc-cccccccccccc";
    terminal_event(&mut app, "vt_sequence", regular_pane, r#"{"sequence": "osc:133;D;1"}"#);

    assert_eq!(
        app.autofix_session_id.as_deref(),
        Some(regular_pane),
        "regular pane shell-command failure should still arm autofix on the failing pane"
    );
    match &app.take_effects()[0] {
        Effect::SubmitPrompt { id, prompt, context, autofix } => {
            assert_eq!(*id, 7);
            assert_eq!(
                prompt,
                "Command failed (exit 1)\nDiagnose the error and suggest a fix."
            );
            assert_eq!(context.source_session_id.as_deref(), Some(regular_pane));
            assert!(*autofix);
        }
        other => panic!("expected a prompt, got {:?}", other),
    }
}

#[test]
fn a_failure_in_an_agent_pane_does_not_trigger_a_fix() {
    let mut app = test_app();
    app.state = ConnectionState::Connected;
    let ctx = EventContext { agent_pane: true, ..context() };
    terminal_event_in(&mut app, "vt_sequence", "p", r#"{"sequence": "osc:133;D;1"}"#, &ctx);
    assert!(app.autofix_session_id.is_none());
    assert!(app.wt_notifications.is_empty());
    assert!(!app.show_notification_banner);
    assert!(app.take_effects().is_empty());
}

#[test]
fn closed_after_session_stopped_does_not_trigger_autofix() {
    let mut app = test_app();
    app.autofix_enabled = true;
    app.state = ConnectionState::Connected;
    app.pane_session_id = Some("00000000-0000-0000-0000-000000000001".to_string());

    // The session was stopped, so its pane is no agent's any more.
    let agent_pane = "dddddddd-dddd-dddd-dddd-dddddddddddd";
    terminal_event(&mut app, "connection_state", agent_pane, r#"{"state": "closed"}"#);

    assert!(
        app.autofix_session_id.is_none(),
        "agent-CLI graceful exit (SessionEnd → close) must not arm autofix"
    );
    assert!(!app.prompt_in_flight, "agent-CLI graceful exit must not send an autofix prompt");
}

#[test]
fn osc_133a_on_agent_pane_demotes_session_when_pane_stays_alive() {
    let mut app = test_app();
    app.state = ConnectionState::Connected;
    app.pane_session_id = Some("00000000-0000-0000-0000-000000000001".to_string());

    let agent_pane = "eeeeeeee-eeee-eeee-eeee-eeeeeeeeeeee";
    let ctx = EventContext { agent_pane: true, ..context() };
    terminal_event_in(
        &mut app,
        "vt_sequence",
        agent_pane,
        r#"{"sequence": "osc:133;A"}"#,
        &ctx,
    );

    let effects = app.take_effects();
    let changed = changes(&effects);
    assert_eq!(changed.len(), 1);
    assert!(matches!(
        changed[0],
        SessionEvent::PaneClosed { pane_session_id } if pane_session_id == agent_pane
    ));
}

#[test]
fn osc_133a_on_non_agent_pane_is_a_noop() {
    let mut app = test_app();
    app.autofix_enabled = true;
    app.state = ConnectionState::Connected;
    app.pane_session_id = Some("00000000-0000-0000-0000-000000000001".to_string());

    let regular_pane = "ffffffff-ffff-ffff-ffff-ffffffffffff";
    terminal_event(&mut app, "vt_sequence", regular_pane, r#"{"sequence": "osc:133;A"}"#);

    assert!(
        app.autofix_session_id.is_none(),
        "osc:133;A is a normal prompt event, not a failure → no autofix"
    );
    assert!(app.take_effects().is_empty());
}

#[test]
fn agent_event_for_own_acp_session_does_not_create_phantom_row() {
    let mut app = test_app();
    app.state = ConnectionState::Connected;
    app.pane_session_id = Some("00000000-0000-0000-0000-000000000001".to_string());
    let acp_uuid = "43f8e20c-3576-43ae-844a-8394da03704d";
    app.session_id = acp_uuid.to_string();

    let other_pane = "753BED37-5D30-46A4-BF87-A2D424CC5804";
    let ctx = EventContext { session_key: acp_uuid.to_string(), ..context() };
    terminal_event_in(
        &mut app,
        "agent_event",
        other_pane,
        r#"{
            "agent_session_id": "43f8e20c-3576-43ae-844a-8394da03704d",
            "cli_source": "copilot",
            "event": "agent.prompt.submit",
            "payload": {
                "cwd": "C:\\Users\\yuazha",
                "hook_event_name": "UserPromptSubmit",
                "prompt": "A command failed in the terminal. Diagnose..."
            }
        }"#,
        &ctx,
    );

    assert!(
        app.take_effects().is_empty(),
        "agent_event whose agent_session_id == App.session_id (own ACP-Copilot subprocess) must \
         not synthesise a phantom session row in F2"
    );
}

#[test]
fn agent_event_for_other_copilot_session_still_tracked() {
    let mut app = test_app();
    app.state = ConnectionState::Connected;
    app.pane_session_id = Some("00000000-0000-0000-0000-000000000001".to_string());
    app.session_id = "43f8e20c-3576-43ae-844a-8394da03704d".to_string();

    let user_copilot_asid = "11111111-2222-3333-4444-555555555555";
    let other_pane = "ABCDEF12-3456-7890-ABCD-EF1234567890";
    let ctx = EventContext { session_key: user_copilot_asid.to_string(), ..context() };
    terminal_event_in(
        &mut app,
        "agent_event",
        other_pane,
        r#"{
            "agent_session_id": "11111111-2222-3333-4444-555555555555",
            "cli_source": "copilot",
            "event": "agent.prompt.submit",
            "payload": {
                "cwd": "C:\\Users\\yuazha",
                "hook_event_name": "UserPromptSubmit",
                "prompt": "real user prompt"
            }
        }"#,
        &ctx,
    );

    let effects = app.take_effects();
    match changes(&effects)[0] {
        SessionEvent::SessionStarted { key, cli_source, pane_session_id, .. } => {
            assert_eq!(key, user_copilot_asid);
            assert_eq!(cli_source.as_deref(), Some("copilot"));
            assert_eq!(pane_session_id, other_pane);
        }
        other => panic!("expected a new session, got {:?}", other),
    }
}

#[test]
fn classify_connection_failed_is_critical() {
    let params = json(r#"{"session_id": "3", "state": "failed"}"#);
    let n = classify_wt_event("connection_state", "3", &params);
    assert_eq!(n.severity, WtEventSeverity::Critical);
    assert!(n.summary.contains("failed"));
    assert!(!n.acknowledged);
}

#[test]
fn classify_connection_closed_is_informational() {
    let params = json(r#"{"session_id": "5", "state": "closed"}"#);
    let n = classify_wt_event("connection_state", "5", &params);
    assert_eq!(n.severity, WtEventSeverity::Informational);
    assert!(n.summary.contains("exited"));
}

#[test]
fn classify_connection_connected_is_informational() {
    let params = json(r#"{"session_id": "1", "state": "connected"}"#);
    let n = classify_wt_event("connection_state", "1", &params);
    assert_eq!(n.severity, WtEventSeverity::Informational);
    assert!(n.summary.contains("connected"));
}

#[test]
fn classify_osc133_command_failed_is_actionable() {
    let params = json(r#"{"session_id": "2", "sequence": "osc:133;D;1"}"#);
    let n = classify_wt_event("vt_sequence", "2", &params);
    assert_eq!(n.severity, WtEventSeverity::Actionable);
    assert!(n.summary.contains("Command failed"));
    assert!(n.summary.contains("exit 1"));
}

#[test]
fn classify_osc133_command_success_is_silent() {
    let params = json(r#"{"session_id": "2", "sequence": "osc:133;D;0"}"#);
    let n = classify_wt_event("vt_sequence", "2", &params);
    assert!(n.acknowledged); // auto-dismissed
}

#[test]
fn classify_osc133_high_exit_code() {
    let params = json(r#"{"session_id": "2", "sequence": "osc:133;D;127"}"#);
    let n = classify_wt_event("vt_sequence", "2", &params);
    assert_eq!(n.severity, WtEventSeverity::Actionable);
    assert!(n.summary.contains("exit 127"));
}

#[test]
fn classify_osc133_prompt_marker_is_silent() {
    // OSC 133;A is a prompt marker, not a command finish
    let params = json(r#"{"session_id": "2", "sequence": "osc:133;A"}"#);
    let n = classify_wt_event("vt_sequence", "2", &params);
    assert!(n.acknowledged); // silenced
}

#[test]
fn classify_normal_vt_sequence_is_silent() {
    let params = json(r#"{"session_id": "7", "sequence": "osc:0;title"}"#);
    let n = classify_wt_event("vt_sequence", "7", &params);
    assert!(n.acknowledged); // silenced
}

#[test]
fn classify_unknown_method_is_informational() {
    let params = json(r#"{"session_id": "1"}"#);
    let n = classify_wt_event("something_new", "1", &params);
    assert_eq!(n.severity, WtEventSeverity::Informational);
    assert_eq!(n.summary, "Session 1: something_new");
}

#[test]
fn markers_without_a_readable_code_count_as_failures() {
    for sequence in ["osc:133;D", "osc:133;D;", "osc:133;D;x", "osc:133;D; 5 "] {
        let params = json(&format!("{{\"sequence\": \"{}\"}}", sequence));
        let n = classify_wt_event("vt_sequence", "2", &params);
        assert_eq!(n.severity, WtEventSeverity::Actionable, "{}", sequence);
    }
    let n = classify_wt_event("vt_sequence", "2", &json(r#"{"sequence": "osc:133;D; 5 "}"#));
    assert_eq!(n.summary, "Command failed (exit 5)");
    let n = classify_wt_event("vt_sequence", "2", &json(r#"{"sequence": "osc:133;D"}"#));
    assert_eq!(n.summary, "Command failed (exit -1)");
}

#[test]
fn informational_auto_dismisses_after_threshold() {
    let mut n = WtNotification {
        severity: WtEventSeverity::Informational,
        session_id: "1".to_string(),
        summary: "test".to_string(),
        acknowledged: false,
        age_ticks: 0,
    };
    assert!(!n.should_auto_dismiss());
    n.age_ticks = 42;
    assert!(!n.should_auto_dismiss());
    n.age_ticks = 43;
    assert!(n.should_auto_dismiss());
}

#[test]
fn critical_never_auto_dismisses() {
    let n = WtNotification {
        severity: WtEventSeverity::Critical,
        session_id: "1".to_string(),
        summary: "crash".to_string(),
        acknowledged: false,
        age_ticks: 1000,
    };
    assert!(!n.should_auto_dismiss());
}

#[test]
fn actionable_never_auto_dismisses() {
    let n = WtNotification {
        severity: WtEventSeverity::Actionable,
        session_id: "1".to_string(),
        summary: "exited".to_string(),
        acknowledged: false,
        age_ticks: 1000,
    };
    assert!(!n.should_auto_dismiss());
}

#[test]
fn wt_event_critical_shows_banner_and_error_message() {
    let mut app = test_app();
    terminal_event(
        &mut app,
        "connection_state",
        "3",
        r#"{"session_id": "3", "state": "failed"}"#,
    );
    assert!(app.show_notification_banner);
    assert_eq!(app.wt_notifications.len(), 1);
    assert_eq!(app.wt_notifications[0].severity, WtEventSeverity::Critical);
    // Should have an Error message in chat
    assert!(app.messages.iter().any(|m| matches!(m, ChatMessage::Error(_))));
}

#[test]
fn wt_event_actionable_shows_banner_and_triggers_autofix() {
    let mut app = test_app();
    app.state = ConnectionState::Connected;
    terminal_event(
        &mut app,
        "vt_sequence",
        "5",
        r#"{"session_id": "5", "sequence": "osc:133;D;1"}"#,
    );
    assert!(app.show_notification_banner);
    assert!(app.messages.iter().any(|m| matches!(m, ChatMessage::Error(_))));
}

#[test]
fn wt_event_informational_no_banner_no_chat_message() {
    let mut app = test_app();
    terminal_event(
        &mut app,
        "connection_state",
        "1",
        r#"{"session_id": "1", "state": "connected"}"#,
    );
    assert!(!app.show_notification_banner);
    assert!(app.messages.is_empty());
    assert_eq!(app.wt_notifications.len(), 1);
}

#[test]
fn wt_event_from_own_pane_is_ignored() {
    let mut app = test_app();
    app.pane_session_id = Some("42".to_string());
    terminal_event(
        &mut app,
        "connection_state",
        "42",
        r#"{"session_id": "42", "state": "failed"}"#,
    );
    // Events from our own pane should be completely ignored
    assert!(!app.show_notification_banner);
    assert!(app.wt_notifications.is_empty());
    assert!(app.messages.is_empty());
}

#[test]
fn dismiss_notifications_clears_banner_and_acknowledges() {
    let mut app = test_app();
    terminal_event(
        &mut app,
        "connection_state",
        "3",
        r#"{"session_id": "3", "state": "failed"}"#,
    );
    assert!(app.show_notification_banner);
    assert_eq!(app.unacknowledged_count(), 1);

    app.dismiss_notifications();
    assert!(!app.show_notification_banner);
    assert_eq!(app.unacknowledged_count(), 0);
    assert!(app.wt_notifications[0].acknowledged);
}

#[test]
fn notification_badge_returns_most_recent_unacknowledged() {
    let mut app = test_app();
    terminal_event(
        &mut app,
        "vt_sequence",
        "1",
        r#"{"session_id": "1", "sequence": "osc:133;D;1"}"#,
    );
    terminal_event(
        &mut app,
        "connection_state",
        "2",
        r#"{"session_id": "2", "state": "failed"}"#,
    );

    let (summary, severity) = app.notification_badge().unwrap();
    assert!(summary.contains("Session 2"));
    assert_eq!(severity, WtEventSeverity::Critical);
    assert_eq!(app.unacknowledged_count(), 2);
}

#[test]
fn notification_queue_caps_at_20() {
    let mut app = test_app();
    for i in 0..25 {
        terminal_event(
            &mut app,
            "connection_state",
            &format!("{}", i),
            &format!("{{\"session_id\": \"{}\", \"state\": \"connected\"}}", i),
        );
    }
    assert_eq!(app.wt_notifications.len(), 20);
    assert_eq!(app.wt_notifications[0].session_id, "5");
}

#[test]
fn tick_ages_and_auto_dismisses_informational() {
    let mut app = test_app();
    terminal_event(
        &mut app,
        "connection_state",
        "1",
        r#"{"session_id": "1", "state": "connected"}"#,
    );
    assert_eq!(app.wt_notifications.len(), 1);
    assert_eq!(app.wt_notifications[0].age_ticks, 0);

    // Simulate enough ticks to trigger auto-dismiss (43 ticks)
    for _ in 0..43 {
        app.handle_event(AppEvent::Tick, &context());
    }
    // Informational notification should be auto-removed
    assert_eq!(app.wt_notifications.len(), 0);
}

#[test]
fn tick_does_not_dismiss_critical_notifications() {
    let mut app = test_app();
    terminal_event(
        &mut app,
        "connection_state",
        "3",
        r#"{"session_id": "3", "state": "failed"}"#,
    );
    // Simulate many ticks
    for _ in 0..200 {
        app.handle_event(AppEvent::Tick, &context());
    }
    // Critical notification should persist
    assert_eq!(app.wt_notifications.len(), 1);
    assert!(app.show_notification_banner);
}

#[test]
fn banner_hides_when_all_acknowledged() {
    let mut app = test_app();
    terminal_event(
        &mut app,
        "connection_state",
        "3",
        r#"{"session_id": "3", "state": "failed"}"#,
    );
    assert!(app.show_notification_banner);

    // Acknowledge all
    app.dismiss_notifications();

    // One more tick to process the banner-hide logic
    app.handle_event(AppEvent::Tick, &context());
    assert!(!app.show_notification_banner);
}

#[test]
fn active_notification_returns_none_when_all_acknowledged() {
    let mut app = test_app();
    terminal_event(
        &mut app,
        "connection_state",
        "3",
        r#"{"session_id": "3", "state": "closed"}"#,
    );
    assert!(app.active_notification().is_some());

    app.dismiss_notifications();
    assert!(app.active_notification().is_none());
}

#[test]
fn multiple_events_different_panes() {
    let mut app = test_app();
    app.state = ConnectionState::Connected;
    // Informational from pane 1
    terminal_event(
        &mut app,
        "connection_state",
        "1",
        r#"{"session_id": "1", "state": "connected"}"#,
    );
    // Critical from pane 2
    terminal_event(
        &mut app,
        "connection_state",
        "2",
        r#"{"session_id": "2", "state": "failed"}"#,
    );
    // Actionable from pane 3
    terminal_event(
        &mut app,
        "vt_sequence",
        "3",
        r#"{"session_id": "3", "sequence": "osc:133;D;1"}"#,
    );

    assert_eq!(app.wt_notifications.len(), 3);
    // Unacknowledged count only counts actionable + critical
    assert_eq!(app.unacknowledged_count(), 2);
    // Banner should show (due to critical + actionable)
    assert!(app.show_notification_banner);
    // Chat should have 2 messages (critical Error + actionable autofix Error)
    assert_eq!(app.messages.len(), 2);
}

#[test]
fn agent_event_tool_starting_renders_tool_name_from_payload() {
    let mut app = test_app();
    app.log_agent_events = true;
    terminal_event(
        &mut app,
        "agent_event",
        "abc",
        r#"{
            "event": "agent.tool.starting",
            "cli_source": "copilot",
            "payload": { "tool_name": "Bash", "tool_input": { "command": "ls" } }
        }"#,
    );
    let rendered = app
        .messages
        .iter()
        .find_map(|m| if let ChatMessage::AgentEvent(s) = m { Some(s.clone()) } else { None })
        .expect("should have rendered an AgentEvent");
    assert!(rendered.contains("Bash"), "expected tool name in: {}", rendered);
    assert!(rendered.contains("ls"), "expected tool_input in: {}", rendered);
    assert!(rendered.contains("copilot"), "expected cli_source in: {}", rendered);
}

#[test]
fn agent_event_tool_finished_event_name_is_recognized() {
    // agent.tool.finished should hit a real arm, not fall through to default.
    let mut app = test_app();
    app.log_agent_events = true;
    terminal_event(
        &mut app,
        "agent_event",
        "abc",
        r#"{
            "event": "agent.tool.finished",
            "cli_source": "copilot",
            "payload": { "tool_name": "Bash" }
        }"#,
    );
    let rendered = app
        .messages
        .iter()
        .find_map(|m| if let ChatMessage::AgentEvent(s) = m { Some(s.clone()) } else { None })
        .expect("should have rendered an AgentEvent");
    // Real arm includes "Tool:" and "Result:"; default fall-through does not.
    assert!(rendered.contains("Bash"), "expected tool name in: {}", rendered);
    assert!(rendered.contains("Tool:"), "expected Tool: line (not default arm) in: {}", rendered);
    assert!(
        rendered.contains("Result:"),
        "expected Result: line (not default arm) in: {}",
        rendered
    );
}

#[test]
fn typed_input_is_submitted_once_and_cleared() {
    let mut app = test_app();
    app.state = ConnectionState::Connected;
    app.pane_session_id = Some("own".to_string());
    type_text(&mut app, "list tabs");
    assert_eq!(app.input, "list tabs");
    assert_eq!(app.cursor_pos, 9);
    press(&mut app, KeyCode::Enter);
    assert_eq!(app.input, "");
    assert_eq!(app.cursor_pos, 0);
    assert!(app.prompt_in_flight);
    assert_eq!(app.messages, vec![ChatMessage::User("list tabs".to_string())]);
    assert_eq!(app.current_prompt_id, Some(7));
    let effects = app.take_effects();
    assert_eq!(effects.len(), 1);
    match &effects[0] {
        Effect::SubmitPrompt { id, prompt, context, autofix } => {
            assert_eq!(*id, 7);
            assert_eq!(prompt, "list tabs");
            assert_eq!(context.session_id.as_deref(), Some("own"));
            assert!(!*autofix);
        }
        other => panic!("expected a prompt, got {:?}", other),
    }
}

#[test]
fn without_a_connection_enter_keeps_the_input() {
    let mut app = test_app();
    type_text(&mut app, "hi");
    press(&mut app, KeyCode::Enter);
    assert_eq!(app.input, "hi");
    assert!(app.take_effects().is_empty());
}

#[test]
fn editing_keys_change_the_input_at_the_cursor() {
    let mut app = test_app();
    type_text(&mut app, "aé c");
    assert_eq!(app.cursor_pos, 5);
    press(&mut app, KeyCode::Left);
    press(&mut app, KeyCode::Left);
    press(&mut app, KeyCode::Backspace);
    assert_eq!(app.input, "a c");
    assert_eq!(app.cursor_pos, 1);
    press(&mut app, KeyCode::Delete);
    assert_eq!(app.input, "ac");
    press(&mut app, KeyCode::End);
    assert_eq!(app.cursor_pos, 2);
    press(&mut app, KeyCode::Home);
    assert_eq!(app.cursor_pos, 0);
    app.handle_key(control(KeyCode::Right), &context());
    assert_eq!(app.cursor_pos, 2);
    app.handle_key(control(KeyCode::Left), &context());
    assert_eq!(app.cursor_pos, 0);
    app.handle_key(shift(KeyCode::Enter), &context());
    assert_eq!(app.input, "\nac");
    press(&mut app, KeyCode::Esc);
    assert_eq!(app.input, "");
}

#[test]
fn control_c_stops_the_stream_before_it_quits() {
    let mut app = test_app();
    app.agent_streaming = true;
    app.handle_key(control(KeyCode::Char('c')), &context());
    assert!(!app.agent_streaming);
    assert!(!app.should_quit);
    app.handle_key(control(KeyCode::Char('c')), &context());
    assert!(app.should_quit);
}

#[test]
fn f12_shows_the_debug_panel_and_records() {
    let mut app = test_app();
    press(&mut app, KeyCode::F(12));
    assert!(app.show_debug_panel);
    app.handle_key(shift(KeyCode::PageUp), &context());
    assert_eq!(app.debug_scroll, 10);
    assert_eq!(app.scroll_offset, 0);
    press(&mut app, KeyCode::PageUp);
    assert_eq!(app.scroll_offset, 10);
    app.handle_key(shift(KeyCode::PageDown), &context());
    assert_eq!(app.debug_scroll, 0);
    press(&mut app, KeyCode::F(12));
    assert!(!app.show_debug_panel);
    let effects = app.take_effects();
    assert!(matches!(effects[0], Effect::CaptureDebug(true)));
    assert!(matches!(effects[1], Effect::CaptureDebug(false)));
}
