use wta::json::{Json, JsonNumber};
use wta::wt_channel::cli_channel::{
    check_environment, check_identifier, event_in_line, wtcli_arguments, wtcli_result,
};
use wta::wt_channel::com_channel::{
    com_call, com_response, ComCall, ComReply, ProtocolPaneInfo, ProtocolPaneOutput,
    ProtocolProcessStatus, ProtocolSessionVariable, ProtocolTabCreationResult, ProtocolTabInfo,
    ProtocolWindowInfo,
};
use wta::wt_channel::pipe_channel::{
    authentication_params, check_authentication, pipe_from_environment, request_text,
    response_result, WireError, WireResponse,
};

fn from_value(value: &serde_json::Value) -> Json {
    match value {
        serde_json::Value::Null => Json::Null,
        serde_json::Value::Bool(b) => Json::Bool(*b),
        serde_json::Value::Number(n) => Json::Number(match (n.as_u64(), n.as_i64()) {
            (Some(n), _) => JsonNumber::Unsigned(n),
            (None, Some(n)) => JsonNumber::Negative(n),
            (None, None) => JsonNumber::Decimal(n.to_string()),
        }),
        serde_json::Value::String(text) => Json::Text(text.clone()),
        serde_json::Value::Array(items) => Json::Array(items.iter().map(from_value).collect()),
        serde_json::Value::Object(members) => Json::Object(
            members.iter().map(|(key, value)| (key.clone(), from_value(value))).collect(),
        ),
    }
}

fn to_value(value: &Json) -> serde_json::Value {
    match value {
        Json::Null => serde_json::Value::Null,
        Json::Bool(b) => serde_json::Value::Bool(*b),
        Json::Number(JsonNumber::Unsigned(n)) => serde_json::Value::from(*n),
        Json::Number(JsonNumber::Negative(n)) => serde_json::Value::from(*n),
        Json::Number(JsonNumber::Decimal(text)) => {
            serde_json::Value::from(text.parse::<f64>().unwrap())
        }
        Json::Text(text) => serde_json::Value::from(text.as_str()),
        Json::Array(items) => items.iter().map(to_value).collect(),
        Json::Object(members) => {
            members.iter().map(|(key, value)| (key.clone(), to_value(value))).collect()
        }
    }
}

fn json(text: &str) -> Json {
    from_value(&serde_json::from_str(text).unwrap())
}

fn says(value: &Json, wanted: &str) {
    let wanted: serde_json::Value = serde_json::from_str(wanted).unwrap();
    assert_eq!(to_value(value), wanted);
}

fn arguments(method: &str, params: &str) -> String {
    wtcli_arguments(method, &json(params)).unwrap().join("|")
}

#[test]
fn methods_become_subcommands() {
    assert_eq!(arguments("list_windows", "{}"), "list-windows|--json");
    assert_eq!(arguments("list_tabs", r#"{"window_id": "w"}"#), "list-tabs|-w|w|--json");
    assert_eq!(arguments("list_tabs", r#"{"window_id": 1}"#), "list-tabs|--json");
    assert_eq!(
        arguments("list_panes", r#"{"window_id": "w", "tab_id": "t"}"#),
        "list-panes|-w|w|-t|t|--json"
    );
    assert_eq!(arguments("get_active_pane", "{}"), "active-pane|--json");
    assert_eq!(arguments("read_pane_output", "{}"), "capture-pane|-l|200|--json");
    assert_eq!(
        arguments("read_pane_output", r#"{"pane_id": "p", "max_lines": -4}"#),
        "capture-pane|-t|p|-l|-4|--json"
    );
    assert_eq!(arguments("get_process_status", r#"{"pane_id": "p"}"#), "pane-status|-t|p|--json");
    assert_eq!(
        arguments("create_tab", r#"{"commandline": "c", "title": "t"}"#),
        "new-tab|-c|c|-n|t|--json"
    );
    assert_eq!(
        arguments("split_pane", r#"{"pane_id": "p", "direction": "up", "commandline": "c"}"#),
        "split-pane|-t|p|-H|-c|c|--json"
    );
    assert_eq!(arguments("split_pane", r#"{"direction": "right"}"#), "split-pane|-v|--json");
    assert_eq!(arguments("close_pane", "{}"), "kill-pane|-t||--json");
    assert_eq!(
        arguments("send_input", r#"{"pane_id": "p", "text": "ls"}"#),
        "send-keys|-t|p|ls|--json"
    );
    assert_eq!(arguments("get_capabilities", "{}"), "info|--json");
    assert_eq!(
        arguments("quick_pick", r#"{"title": "T", "choices": ["a", 1, "b"]}"#),
        "quick-pick|--title|T|a|b|--json"
    );
    assert_eq!(
        wtcli_arguments("other", &json("{}")).unwrap_err(),
        "Unsupported method: other"
    );
}

#[test]
fn the_output_of_the_program_is_read() {
    says(
        &wtcli_result(true, " {\"b\": [1, -2, 1.5, true], \"a\": null}\n", "").unwrap(),
        r#"{"a": null, "b": [1, -2, 1.5, true]}"#,
    );
    assert_eq!(wtcli_result(false, "{}", " broken \n").unwrap_err(), "wtcli failed: broken");
    let message = wtcli_result(true, "{", "").unwrap_err();
    assert!(message.starts_with("Failed to parse wtcli JSON output: EOF"), "{}", message);
    says(&event_in_line("  {\"method\": \"x\"} \r\n").unwrap(), r#"{"method": "x"}"#);
    assert!(event_in_line("").is_none());
    assert!(event_in_line("not json").is_none());
}

#[test]
fn a_channel_needs_the_terminal() {
    assert_eq!(check_environment(true, false), Ok(()));
    assert_eq!(check_environment(false, true), Ok(()));
    assert_eq!(
        check_environment(false, false).unwrap_err(),
        "Neither WT_COM_CLSID nor WT_PIPE_NAME set. Must run inside a Windows Terminal pane."
    );
    assert_eq!(check_identifier("p"), Ok(()));
    assert_eq!(check_identifier("").unwrap_err(), "Empty connection identifier");
    assert_eq!(
        pipe_from_environment(Some("p"), None),
        Ok(("p".to_string(), String::new()))
    );
    assert_eq!(
        pipe_from_environment(Some("p"), Some("t")),
        Ok(("p".to_string(), "t".to_string()))
    );
    assert_eq!(
        pipe_from_environment(None, Some("t")).unwrap_err(),
        "WT_PIPE_NAME not set. Must run inside a Windows Terminal pane with protocol access."
    );
}

#[test]
fn a_request_is_a_line_of_json() {
    let params = json(r#"{"window_id": "a\"b", "n": 1}"#);
    assert_eq!(
        request_text(7, "list_tabs", &params),
        r#"{"type":"request","id":"7","method":"list_tabs","params":{"n":1,"window_id":"a\"b"}}"#
    );
}

#[test]
fn a_response_is_a_result_or_an_error() {
    let ok = WireResponse { result: Some(Json::Bool(true)), error: None };
    assert!(matches!(response_result(ok), Ok(Json::Bool(true))));
    let empty = WireResponse { result: None, error: None };
    assert!(matches!(response_result(empty), Ok(Json::Null)));
    let error = WireError { code: "E1".to_string(), message: "no".to_string() };
    let bad = WireResponse { result: Some(Json::Null), error: Some(error) };
    assert_eq!(response_result(bad).unwrap_err(), "WT protocol error [E1]: no");
}

#[test]
fn authentication_is_checked() {
    says(&authentication_params("t"), r#"{"token": "t"}"#);
    assert_eq!(check_authentication(&json(r#"{"authenticated": true}"#)), Ok(()));
    for refused in [r#"{"authenticated": false}"#, r#"{"authenticated": 1}"#, "null"] {
        assert_eq!(
            check_authentication(&json(refused)).unwrap_err(),
            "Authentication rejected by Windows Terminal"
        );
    }
}

#[test]
fn methods_become_calls() {
    assert!(matches!(
        com_call("list_panes", &json(r#"{"tab_id": "t"}"#)),
        Ok(ComCall::ListPanes { window_id, tab_id }) if window_id.is_empty() && tab_id == "t"
    ));
    assert!(matches!(
        com_call("read_pane_output", &json(r#"{"pane_id": "p"}"#)),
        Ok(ComCall::ReadPaneOutput { source, max_lines: 200, .. }) if source == "scrollback"
    ));
    // The number of lines is cut to 32 bits.
    assert!(matches!(
        com_call("read_pane_output", &json(r#"{"max_lines": 4294967301}"#)),
        Ok(ComCall::ReadPaneOutput { max_lines: 5, .. })
    ));
    assert!(matches!(
        com_call("read_pane_output", &json(r#"{"max_lines": 2147483648}"#)),
        Ok(ComCall::ReadPaneOutput { max_lines: -2147483648, .. })
    ));
    assert!(matches!(
        com_call("create_tab", &json(r#"{"title": "t"}"#)),
        Ok(ComCall::CreateTab {
            title,
            suppress_application_title: false,
            inject_mcp_credentials: false,
            background: true,
            ..
        }) if title == "t"
    ));
    assert!(matches!(
        com_call("split_pane", &json(r#"{"background": false}"#)),
        Ok(ComCall::SplitPane { direction, background: false, .. }) if direction == "right"
    ));
    assert!(matches!(
        com_call("set_session_variable", &json(r#"{"pane_id": "p", "name": "n", "value": "v"}"#)),
        Ok(ComCall::SetSessionVariable { pane_id, name, value })
            if pane_id == "p" && name == "n" && value == "v"
    ));
    assert!(matches!(com_call("get_settings", &Json::Null), Ok(ComCall::GetSettings)));
    assert_eq!(com_call("other", &Json::Null).unwrap_err(), "Unknown method: other");
}

fn pane() -> ProtocolPaneInfo {
    ProtocolPaneInfo {
        pane_id: "p".to_string(),
        tab_id: "t".to_string(),
        window_id: "w".to_string(),
        title: "T".to_string(),
        profile: "P".to_string(),
        is_active: -1,
        pid: 9,
        rows: 24,
        columns: 80,
    }
}

#[test]
fn replies_become_json() {
    says(
        &com_response(&ComReply::Windows(vec![ProtocolWindowInfo {
            window_id: "w".to_string(),
            title: "T".to_string(),
            is_focused: 1,
            tab_count: 2,
        }])),
        r#"{"windows": [{"window_id": "w", "title": "T", "is_focused": true, "tab_count": 2}]}"#,
    );
    says(
        &com_response(&ComReply::Tabs(vec![ProtocolTabInfo {
            tab_id: "t".to_string(),
            window_id: "w".to_string(),
            title: "T".to_string(),
            is_active: 0,
            pane_count: 1,
        }])),
        r#"{"tabs": [{"tab_id": "t", "window_id": "w", "title": "T", "is_active": false, "pane_count": 1}]}"#,
    );
    says(
        &com_response(&ComReply::Panes(vec![pane()])),
        r#"{"panes": [{"pane_id": "p", "tab_id": "t", "window_id": "w", "title": "T", "profile": "P", "is_active": true, "pid": 9, "size": {"rows": 24, "columns": 80}}]}"#,
    );
    says(
        &com_response(&ComReply::Output(ProtocolPaneOutput {
            pane_id: "p".to_string(),
            content: "c".to_string(),
            line_count: 3,
            truncated: 0,
        })),
        r#"{"pane_id": "p", "content": "c", "line_count": 3, "truncated": false}"#,
    );
    let status = |has_exit_code| {
        com_response(&ComReply::Status(ProtocolProcessStatus {
            pane_id: "p".to_string(),
            state: "s".to_string(),
            pid: 9,
            exit_code: -1,
            has_exit_code,
        }))
    };
    says(&status(0), r#"{"pane_id": "p", "state": "s", "pid": 9}"#);
    says(&status(1), r#"{"pane_id": "p", "state": "s", "pid": 9, "exit_code": -1}"#);
    let variable = |exists| {
        com_response(&ComReply::Variable(ProtocolSessionVariable {
            pane_id: "p".to_string(),
            name: "n".to_string(),
            value: "v".to_string(),
            exists,
        }))
    };
    says(&variable(1), r#"{"pane_id": "p", "name": "n", "value": "v", "exists": true}"#);
    says(&variable(0), r#"{"pane_id": "p", "name": "n", "value": null, "exists": false}"#);
    says(
        &com_response(&ComReply::Created(ProtocolTabCreationResult {
            tab_id: "t".to_string(),
            pane_id: "p".to_string(),
            window_id: "w".to_string(),
            pid: 4,
        })),
        r#"{"tab_id": "t", "pane_id": "p", "window_id": "w", "pid": 4}"#,
    );
    says(&com_response(&ComReply::Closed), r#"{"closed": true}"#);
    says(&com_response(&ComReply::Sent), r#"{"sent": true}"#);
    says(&com_response(&ComReply::VariableSet), r#"{"set": true}"#);
    says(
        &com_response(&ComReply::SettingsApplied { backup_path: "b".to_string() }),
        r#"{"applied": true, "backup_path": "b"}"#,
    );
    says(
        &com_response(&ComReply::Authenticated { authenticated: true, version: "1".to_string() }),
        r#"{"authenticated": true, "protocol_version": "1"}"#,
    );
    let capabilities = |methods: &str| {
        com_response(&ComReply::Capabilities {
            version: "1".to_string(),
            methods: methods.to_string(),
        })
    };
    says(&capabilities(r#"["a"]"#), r#"{"protocol_version": "1", "methods": ["a"]}"#);
    says(&capabilities("nothing"), r#"{"protocol_version": "1", "methods": null}"#);
}
