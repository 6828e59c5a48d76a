use wta::app::agent_events::{agent_event_text, route_agent_event_to_registry};
use wta::app::state::App;
use wta::app::types::{
    AppEvent, Effect, EventContext, FocusPaneFailureReason, PromptTicket, ResumeProfile,
    SessionEvent,
};
use wta::json::{Json, JsonNumber};
use wta::preflight::{AcpAuthFlow, AgentProfile};

fn from_value(value: &serde_json::Value) -> Json {
    match value {
        serde_json::Value::Null => Json::Null,
        serde_json::Value::Bool(b) => Json::Bool(*b),
        serde_json::Value::Number(n) => Json::Number(match (n.as_u64(), n.as_i64()) {
            (Some(n), _) => JsonNumber::Unsigned(n),
            (None, Some(n)) => JsonNumber::Negative(n),
            (None, None) => JsonNumber::Decimal(n.to_string()),
        }),
        serde_json::Value::String(text) => Json::Text(text.clone()),
        serde_json::Value::Array(items) => Json::Array(items.iter().map(from_value).collect()),
        serde_json::Value::Object(members) => Json::Object(
            members.iter().map(|(key, value)| (key.clone(), from_value(value))).collect(),
        ),
    }
}

fn json(text: &str) -> Json {
    from_value(&serde_json::from_str(text).unwrap())
}

/// What is kept of a session, as far as the events below tell it.
struct Row {
    key: String,
    title: String,
    status: &'static str,
    tool: Option<String>,
    reason: Option<String>,
    error: Option<String>,
    pane: Option<String>,
}

#[derive(Default)]
struct Sessions {
    rows: Vec<Row>,
    dirty: bool,
}

impl Sessions {
    fn find(&self, key: &str) -> Option<&Row> {
        self.rows.iter().find(|row| row.key == key)
    }

    fn find_mut(&mut self, key: &str) -> Option<&mut Row> {
        self.rows.iter_mut().find(|row| row.key == key)
    }

    fn apply(&mut self, change: SessionEvent) {
        self.dirty = true;
        match change {
            SessionEvent::SessionStarted { key, pane_session_id, title, .. } => {
                if self.find(&key).is_none() {
                    self.rows.push(Row {
                        key: key.clone(),
                        title: String::new(),
                        status: "idle",
                        tool: None,
                        reason: None,
                        error: None,
                        pane: None,
                    });
                }
                let row = self.find_mut(&key).unwrap();
                row.pane = Some(pane_session_id);
                if !title.is_empty() {
                    row.title = title;
                }
            }
            SessionEvent::ToolStarting { key, tool_name } => {
                let row = self.find_mut(&key).unwrap();
                row.status = "working";
                row.tool = Some(tool_name);
            }
            SessionEvent::ToolCompleted { key } => {
                let row = self.find_mut(&key).unwrap();
                row.status = "idle";
                row.tool = None;
                row.reason = None;
            }
            SessionEvent::Notification { key, message } => {
                let row = self.find_mut(&key).unwrap();
                row.status = "attention";
                row.reason = Some(message);
            }
            SessionEvent::SessionStopped { key, .. } => {
                self.find_mut(&key).unwrap().status = "ended";
            }
            SessionEvent::ConnectionFailed { pane_session_id, reason } => {
                let row = self.rows.iter_mut().find(|row| row.pane.as_ref() == Some(&pane_session_id));
                let row = row.unwrap();
                row.status = "error";
                row.error = Some(reason);
            }
            other => panic!("unexpected change {:?}", other),
        }
    }

    /// Routes an event, and says whether it changed anything.
    fn route(&mut self, pane: &str, params: &Json) -> bool {
        let asid = params.str_at("agent_session_id").unwrap_or("");
        let key = if asid.is_empty() { format!("pane:{}", pane) } else { asid.to_string() };
        let cwd = params.get("payload").and_then(|payload| payload.str_at("cwd")).unwrap_or("");
        let label = cwd.rsplit(['/', '\\']).next().unwrap_or("");
        let known = self.find(&key).is_some();
        let waiting = vec!["ask_user".to_string()];
        self.dirty = false;
        for effect in route_agent_event_to_registry(pane, params, &key, known, label, &waiting) {
            match effect {
                Effect::ChangeSession(change) => self.apply(change),
                Effect::DropPlaceholder(pane) => {
                    let placeholder = format!("pane:{}", pane);
                    self.rows.retain(|row| row.key != placeholder);
                }
                Effect::RefreshTitle(refreshed) => assert_eq!(refreshed, key),
                other => panic!("unexpected effect {:?}", other),
            }
        }
        self.dirty
    }
}

#[test]
fn route_agent_event_creates_session_on_tool_starting() {
    let mut reg = Sessions::default();
    let pane = "00000000-0000-0000-0000-000000000001";
    let params = json(
        r#"{
            "event": "agent.tool.starting",
            "cli_source": "gemini",
            "agent_session_id": "abc",
            "payload": {"tool_name": "bash", "cwd": "/work"}
        }"#,
    );
    let dirty = reg.route(pane, &params);
    assert!(dirty);
    assert!(reg.find("abc").is_some());
}

#[test]
fn route_agent_event_falls_back_to_pane_keyed_placeholder() {
    let mut reg = Sessions::default();
    let pane = "00000000-0000-0000-0000-000000000001";
    let params = json(
        r#"{
            "event": "agent.tool.starting",
            "cli_source": "copilot",
            "payload": {"tool_name": "bash"}
        }"#,
    );
    reg.route(pane, &params);
    assert!(reg.find(&format!("pane:{}", pane)).is_some());
}

#[test]
fn route_agent_event_ignores_non_agent_events() {
    let mut reg = Sessions::default();
    let params = json(r#"{"event": "something.else"}"#);
    let dirty = reg.route("p", &params);
    assert!(!dirty);
}

#[test]
fn route_agent_event_accepts_real_hook_event_aliases() {
    let mut reg = Sessions::default();
    let pane = "00000000-0000-0000-0000-000000000099";
    let key = "alias-test";

    // start (alias)
    let p = json(
        r#"{
            "event": "agent.session.start",
            "cli_source": "copilot",
            "agent_session_id": "alias-test",
            "payload": {"cwd": "/work"}
        }"#,
    );
    assert!(reg.route(pane, &p));
    assert!(reg.find(key).is_some());

    // prompt.submit -> working
    let p = json(
        r#"{
            "event": "agent.prompt.submit",
            "cli_source": "copilot",
            "agent_session_id": "alias-test",
            "payload": {"prompt": "hi"}
        }"#,
    );
    assert!(reg.route(pane, &p));
    assert_eq!(reg.find(key).unwrap().status, "working");

    // stop -> back to idle
    let p = json(
        r#"{
            "event": "agent.stop",
            "cli_source": "copilot",
            "agent_session_id": "alias-test",
            "payload": {}
        }"#,
    );
    assert!(reg.route(pane, &p));
    assert_eq!(reg.find(key).unwrap().status, "idle");

    // tool.finished alias -> still idle
    let p = json(
        r#"{
            "event": "agent.tool.finished",
            "cli_source": "copilot",
            "agent_session_id": "alias-test",
            "payload": {}
        }"#,
    );
    reg.route(pane, &p);
    assert_eq!(reg.find(key).unwrap().status, "idle");

    // session.end alias -> ended
    let p = json(
        r#"{
            "event": "agent.session.end",
            "cli_source": "copilot",
            "agent_session_id": "alias-test",
            "payload": {"reason": "user-quit"}
        }"#,
    );
    assert!(reg.route(pane, &p));
    assert_eq!(reg.find(key).unwrap().status, "ended");
}

#[test]
fn route_agent_event_error_transitions_to_error_state() {
    let mut reg = Sessions::default();
    let pane = "00000000-0000-0000-0000-0000000000aa";

    // The prompt binds the session to the pane.
    let p = json(
        r#"{
            "event": "agent.prompt.submit",
            "cli_source": "copilot",
            "agent_session_id": "err-test",
            "payload": {"prompt": "do something"}
        }"#,
    );
    reg.route(pane, &p);

    let p = json(
        r#"{
            "event": "agent.error",
            "cli_source": "copilot",
            "agent_session_id": "err-test",
            "payload": {"error": "API request failed: 503 Service Unavailable"}
        }"#,
    );
    assert!(reg.route(pane, &p));
    let s = reg.find("err-test").unwrap();
    assert_eq!(s.status, "error");
    assert_eq!(s.error.as_deref(), Some("API request failed: 503 Service Unavailable"));
}

#[test]
fn route_agent_event_preserves_historical_title_on_resume() {
    let mut reg = Sessions::default();
    let key = "32a73b8d-aaaa-bbbb-cccc-1234567890ab";
    reg.rows.push(Row {
        key: key.to_string(),
        title: "Copilot Test".to_string(),
        status: "historical",
        tool: None,
        reason: None,
        error: None,
        pane: None,
    });

    let p = json(
        r#"{
            "event": "agent.session.start",
            "cli_source": "copilot",
            "agent_session_id": "32a73b8d-aaaa-bbbb-cccc-1234567890ab",
            "payload": {"cwd": "C:\\Users\\yuazha"}
        }"#,
    );
    reg.route("00000000-0000-0000-0000-0000000000bb", &p);
    assert_eq!(reg.find(key).unwrap().title, "Copilot Test");
}

#[test]
fn route_agent_event_uses_cwd_basename_for_brand_new_session() {
    let mut reg = Sessions::default();
    let p = json(
        r#"{
            "event": "agent.session.start",
            "cli_source": "copilot",
            "agent_session_id": "fresh-asid",
            "payload": {"cwd": "C:\\Users\\yuazha\\proj"}
        }"#,
    );
    reg.route("00000000-0000-0000-0000-0000000000cc", &p);
    assert_eq!(reg.find("fresh-asid").unwrap().title, "proj");
}

#[test]
fn route_ask_user_tool_starting_routes_to_attention_with_question() {
    let mut reg = Sessions::default();
    let pane = "00000000-0000-0000-0000-0000000000dd";
    let p = json(
        r#"{
            "event": "agent.tool.starting",
            "cli_source": "copilot",
            "agent_session_id": "ask-asid",
            "payload": {
                "cwd": "C:\\Users\\yuazha\\proj",
                "tool_name": "ask_user",
                "tool_input": {
                    "question": "Which folder do you want me to explain?",
                    "choices": ["a", "b"]
                }
            }
        }"#,
    );
    assert!(reg.route(pane, &p));

    let s = reg.find("ask-asid").unwrap();
    assert_eq!(s.status, "attention");
    assert_eq!(s.reason.as_deref(), Some("Which folder do you want me to explain?"));
    assert_eq!(s.tool.as_deref(), Some("ask_user"));
}

#[test]
fn route_ask_user_attention_clears_when_tool_completes() {
    let mut reg = Sessions::default();
    let pane = "00000000-0000-0000-0000-0000000000ee";
    let start = json(
        r#"{
            "event": "agent.tool.starting",
            "cli_source": "copilot",
            "agent_session_id": "ask2",
            "payload": {
                "cwd": "C:\\proj",
                "tool_name": "ask_user",
                "tool_input": {"question": "Choose one"}
            }
        }"#,
    );
    let done = json(
        r#"{
            "event": "agent.tool.finished",
            "cli_source": "copilot",
            "agent_session_id": "ask2",
            "payload": {"tool_name": "ask_user"}
        }"#,
    );
    reg.route(pane, &start);
    assert_eq!(reg.find("ask2").unwrap().status, "attention");
    reg.route(pane, &done);
    let s = reg.find("ask2").unwrap();
    assert_eq!(s.status, "idle");
    assert!(s.tool.is_none());
    assert!(s.reason.is_none());
}

#[test]
fn a_started_session_takes_the_place_of_its_placeholder() {
    let mut reg = Sessions::default();
    reg.route("p", &json(r#"{"event": "agent.stop"}"#));
    assert!(reg.find("pane:p").is_some());
    reg.route("p", &json(r#"{"event": "agent.session.started", "agent_session_id": "s"}"#));
    assert!(reg.find("pane:p").is_none());
    assert!(reg.find("s").is_some());
}

#[test]
fn an_unknown_agent_event_only_starts_the_session() {
    let none: Vec<String> = Vec::new();
    let p = json(r#"{"event": "agent.other", "agent_session_id": "s"}"#);
    let effects = route_agent_event_to_registry("p", &p, "s", false, "", &none);
    assert_eq!(effects.len(), 1);
    assert!(matches!(&effects[0], Effect::ChangeSession(SessionEvent::SessionStarted { .. })));
    assert!(route_agent_event_to_registry("p", &p, "s", true, "", &none).is_empty());
}

#[test]
fn a_waiting_tool_without_a_question_still_asks() {
    let waiting = vec!["ask_user".to_string()];
    let p = json(r#"{"event": "agent.tool.starting", "payload": {"toolName": "ask_user"}}"#);
    let effects = route_agent_event_to_registry("p", &p, "s", true, "", &waiting);
    assert!(matches!(
        &effects[1],
        Effect::ChangeSession(SessionEvent::Notification { message, .. })
            if message == "waiting for user input"
    ));
    assert!(matches!(&effects[2], Effect::RefreshTitle(key) if key == "s"));
}

#[test]
fn an_error_without_a_text_is_named() {
    let none: Vec<String> = Vec::new();
    let p = json(r#"{"event": "agent.error", "payload": {}}"#);
    let effects = route_agent_event_to_registry("p", &p, "s", true, "", &none);
    assert!(matches!(
        &effects[0],
        Effect::ChangeSession(SessionEvent::ConnectionFailed { reason, .. })
            if reason == "agent error"
    ));
    let p = json(r#"{"event": "agent.error", "payload": {"error": 5, "message": "down"}}"#);
    let effects = route_agent_event_to_registry("p", &p, "s", true, "", &none);
    assert!(matches!(
        &effects[0],
        Effect::ChangeSession(SessionEvent::ConnectionFailed { reason, .. }) if reason == "down"
    ));
}

#[test]
fn the_text_of_an_event_shows_its_tool_input_as_json() {
    let p = json(
        r#"{
            "event": "agent.tool.starting",
            "cli_source": "copilot",
            "payload": {"tool_name": "Bash", "tool_input": {"b": 1, "a": [true, null]}}
        }"#,
    );
    let text = agent_event_text("agent.tool.starting", &p);
    assert!(text.starts_with("─ agent.tool.starting ─"), "{}", text);
    assert!(text.contains(r#"{"a":[true,null],"b":1}"#), "{}", text);
}

#[test]
fn pane_focus_failed_unknown_pane_is_noop() {
    let mut app = App::new(true, true, false);
    let mut reg = Sessions::default();
    let ctx = EventContext {
        rows: Vec::new(),
        agent_pane: false,
        session_key: String::new(),
        session_known: false,
        cwd_label: String::new(),
        user_input_tools: Vec::new(),
        profile: AgentProfile {
            id: String::new(),
            display_name: String::new(),
            install_hint: String::new(),
            install_url: String::new(),
            auth_hint: String::new(),
            acp_auth_flow: AcpAuthFlow::External,
            auth_check_command: String::new(),
            exe_search_order: Vec::new(),
        },
        resume: ResumeProfile {
            id: String::new(),
            resume_flag: String::new(),
            install_hint: String::new(),
            available: false,
            program: String::new(),
        },
        ticket: PromptTicket { id: 0, stamp: 0 },
    };
    let session_count_before = reg.rows.len();
    app.handle_event(
        AppEvent::PaneFocusFailed {
            pane_session_id: "99999999-9999-9999-9999-999999999999".to_string(),
            reason: FocusPaneFailureReason::NotFound,
        },
        &ctx,
    );
    for effect in app.take_effects() {
        match effect {
            Effect::ChangeSession(SessionEvent::PaneClosed { pane_session_id }) => {
                for row in reg.rows.iter_mut() {
                    if row.pane.as_ref() == Some(&pane_session_id) {
                        row.status = "ended";
                    }
                }
            }
            other => panic!("unexpected effect {:?}", other),
        }
    }
    assert_eq!(
        reg.rows.len(),
        session_count_before,
        "PaneFocusFailed for unknown pane must not insert or remove rows"
    );
}
