use serde_json::Value;
use wta::coordinator::{
    build_delegate_launch_commandline, default_delegate_agent_runtimes, parse_recommendation_set,
    resolve_created_pane_id, validate_recommendation_set_for_coordinator_target,
    DelegatePromptDelivery, OpenTarget, RecommendationChoice, RecommendationSet, RecommendedAction,
};
use wta::json::{Json, JsonNumber};

fn object(members: Vec<(&str, Json)>) -> Json {
    Json::Object(members.into_iter().map(|(key, value)| (key.to_string(), value)).collect())
}

fn text(value: &Value, key: &str) -> Option<String> {
    value.get(key).and_then(|v| v.as_str()).map(|s| s.to_string())
}

fn decode_action(value: &Value) -> Option<RecommendedAction> {
    match value.get("type")?.as_str()? {
        "send" => Some(RecommendedAction::Send {
            parent: text(value, "parent")?,
            input: text(value, "input")?,
        }),
        "open_and_send" => Some(RecommendedAction::OpenAndSend {
            target: match value.get("target")?.as_str()? {
                "tab" => OpenTarget::Tab,
                "panel" => OpenTarget::Panel,
                _ => return None,
            },
            parent: text(value, "parent"),
            input: text(value, "input")?,
            agent: text(value, "agent"),
            cwd: text(value, "cwd"),
            title: text(value, "title"),
        }),
        _ => None,
    }
}

fn decode_choice(value: &Value) -> Option<RecommendationChoice> {
    Some(RecommendationChoice {
        choice: value.get("choice")?.as_u64()? as usize,
        title: text(value, "title")?,
        rationale: text(value, "rationale").unwrap_or_default(),
        actions: value
            .get("actions")?
            .as_array()?
            .iter()
            .map(decode_action)
            .collect::<Option<Vec<_>>>()?,
    })
}

fn decode(json: &str) -> Result<RecommendationSet, String> {
    let value: Value = serde_json::from_str(json).map_err(|err| err.to_string())?;
    let choices = value.get("choices").and_then(|v| v.as_array()).ok_or("no choices")?;
    Ok(RecommendationSet {
        recommended_choice: value
            .get("recommended_choice")
            .and_then(|v| v.as_u64())
            .map(|n| n as usize),
        choices: choices
            .iter()
            .map(decode_choice)
            .collect::<Option<Vec<_>>>()
            .ok_or("malformed choice")?,
    })
}

#[test]
fn default_delegate_runtime_uses_cli_default_model() {
    let runtime = default_delegate_agent_runtimes(None, None)
        .into_iter()
        .find(|runtime| runtime.id == "copilot")
        .expect("copilot runtime should exist");

    assert_eq!(runtime.commandline, "copilot");
    assert_eq!(
        runtime.prompt_delivery,
        DelegatePromptDelivery::LaunchWithStartupPrompt
    );
}

#[test]
fn delegate_launch_commandline_omits_model_when_not_configured() {
    let runtime = default_delegate_agent_runtimes(None, None)
        .into_iter()
        .find(|runtime| runtime.id == "copilot")
        .expect("copilot runtime should exist");

    let commandline =
        build_delegate_launch_commandline(&runtime, "Fix the build and report back").unwrap();

    assert!(!commandline.contains("--model"));
    assert_eq!(commandline, "copilot -i \"Fix the build and report back\"");
}

#[test]
fn delegate_runtime_inherits_model_from_agent_command() {
    let runtime = default_delegate_agent_runtimes(
        None,
        Some("copilot --acp --stdio --model small-model-4.5"),
    )
    .into_iter()
    .find(|runtime| runtime.id == "copilot")
    .expect("copilot runtime should exist");

    assert_eq!(runtime.commandline, "copilot --model small-model-4.5");
}

#[test]
fn delegate_runtime_preserves_explicit_copilot_exe_path() {
    let runtime = default_delegate_agent_runtimes(None, Some(
        "\"C:\\Users\\kaitao\\AppData\\Local\\Microsoft\\WinGet\\Links\\copilot.exe\" --acp --stdio --model=small-model-4.5",
    ))
    .into_iter()
    .find(|runtime| runtime.id == "copilot")
    .expect("copilot runtime should exist");

    assert_eq!(
        runtime.commandline,
        "C:\\Users\\kaitao\\AppData\\Local\\Microsoft\\WinGet\\Links\\copilot.exe --model small-model-4.5"
    );
}

#[test]
fn delegate_runtime_prefers_explicit_delegate_command() {
    let runtime = default_delegate_agent_runtimes(
        Some("copilot --model small-model-4.5"),
        Some("copilot --acp --stdio --model gpt-5.2"),
    )
    .into_iter()
    .find(|runtime| runtime.id == "copilot")
    .expect("copilot runtime should exist");

    assert_eq!(runtime.commandline, "copilot --model small-model-4.5");
}

#[test]
fn delegate_launch_commandline_appends_startup_prompt_and_model() {
    let runtime = default_delegate_agent_runtimes(
        Some("copilot --model small-model-4.5"),
        Some("copilot --acp --stdio --model gpt-5.2"),
    )
    .into_iter()
    .find(|runtime| runtime.id == "copilot")
    .expect("copilot runtime should exist");

    let commandline = build_delegate_launch_commandline(
        &runtime,
        "Fix the Rust build error and run cargo build",
    )
    .unwrap();

    assert_eq!(
        commandline,
        "copilot --model small-model-4.5 -i \"Fix the Rust build error and run cargo build\""
    );
}

#[test]
fn delegate_launch_commandline_preserves_explicit_exe_path_with_startup_prompt() {
    let runtime = default_delegate_agent_runtimes(
        Some(
            "\"C:\\Users\\kaitao\\AppData\\Local\\Microsoft\\WinGet\\Links\\copilot.exe\" --model small-model-4.5",
        ),
        None,
    )
    .into_iter()
    .find(|runtime| runtime.id == "copilot")
    .expect("copilot runtime should exist");

    let commandline =
        build_delegate_launch_commandline(&runtime, "Inspect the repo and summarize").unwrap();

    assert_eq!(
        commandline,
        "C:\\Users\\kaitao\\AppData\\Local\\Microsoft\\WinGet\\Links\\copilot.exe --model small-model-4.5 -i \"Inspect the repo and summarize\""
    );
}

#[test]
fn parse_recommendations_accepts_open_and_send_tab_actions_without_parent() {
    let text = r#"```json
{
  "recommended_choice": 1,
  "choices": [
    {
      "choice": 1,
      "title": "Open a shell tab",
      "actions": [
        {
          "type": "open_and_send",
          "target": "tab",
          "input": "pwd",
          "cwd": "C:\\repo",
          "title": "Repo shell"
        }
      ]
    },
    {
      "choice": 2,
      "title": "Delegate in a new tab",
      "actions": [
        {
          "type": "open_and_send",
          "target": "tab",
          "input": "Inspect the repo",
          "agent": "copilot",
          "cwd": "C:\\repo",
          "title": "Copilot delegate"
        }
      ]
    },
    {
      "choice": 3,
      "title": "Run locally",
      "actions": [
        {
          "type": "send",
          "parent": "1",
          "input": "pwd"
        }
      ]
    }
  ]
}
```"#;

    let parsed = parse_recommendation_set(text, decode).expect("recommendation set should parse");

    assert!(matches!(
        parsed.choices[0].actions[0],
        RecommendedAction::OpenAndSend {
            target: OpenTarget::Tab,
            ..
        }
    ));
    assert!(matches!(
        parsed.choices[1].actions[0],
        RecommendedAction::OpenAndSend {
            target: OpenTarget::Tab,
            ..
        }
    ));
}

#[test]
fn rejects_send_to_current_coordinator_target() {
    let text = r#"```json
{
  "recommended_choice": 1,
  "choices": [
    {
      "choice": 1,
      "title": "Reply in the current pane",
      "actions": [
        {
          "type": "send",
          "parent": "14",
          "input": "Continue in this pane"
        }
      ]
    },
    {
      "choice": 2,
      "title": "Run locally",
      "actions": [
        {
          "type": "send",
          "parent": "1",
          "input": "pwd"
        }
      ]
    },
    {
      "choice": 3,
      "title": "Delegate",
      "actions": [
        {
          "type": "open_and_send",
          "target": "tab",
          "input": "Inspect the repo",
          "agent": "copilot",
          "cwd": "C:\\repo"
        }
      ]
    }
  ]
}
```"#;

    let parsed = parse_recommendation_set(text, decode).expect("recommendation set should parse");
    let err = validate_recommendation_set_for_coordinator_target(&parsed, Some("14"))
        .expect_err("self-targeted send should be rejected");

    assert!(err.contains("send targets the current coordinator pane 14"));
}

#[test]
fn rejects_open_and_send_panel_without_parent() {
    let text = r#"```json
{
  "recommended_choice": 1,
  "choices": [
    {
      "choice": 1,
      "title": "Split a panel",
      "actions": [
        {
          "type": "open_and_send",
          "target": "panel",
          "input": "pwd"
        }
      ]
    },
    {
      "choice": 2,
      "title": "Run locally",
      "actions": [
        {
          "type": "send",
          "parent": "1",
          "input": "pwd"
        }
      ]
    },
    {
      "choice": 3,
      "title": "Open a tab",
      "actions": [
        {
          "type": "open_and_send",
          "target": "tab",
          "input": "pwd"
        }
      ]
    }
  ]
}
```"#;

    let err =
        parse_recommendation_set(text, decode).expect_err("panel without parent should be rejected");
    assert!(err.contains("field 'parent' is required for open_and_send target panel"));
}

#[test]
fn parse_recommendations_accepts_single_choice() {
    let text = r#"```json
{
  "recommended_choice": 1,
  "choices": [
    {
      "choice": 1,
      "title": "Run locally",
      "actions": [
        {
          "type": "send",
          "parent": "1",
          "input": "pwd"
        }
      ]
    }
  ]
}
```"#;

    let parsed =
        parse_recommendation_set(text, decode).expect("single-choice recommendation should parse");
    assert_eq!(parsed.choices.len(), 1);
    assert_eq!(parsed.choices[0].choice, 1);
}

#[test]
fn parse_recommendations_rejects_four_choices() {
    let text = r#"```json
{
  "recommended_choice": 1,
  "choices": [
    {
      "choice": 1,
      "title": "One",
      "actions": [
        {
          "type": "send",
          "parent": "1",
          "input": "pwd"
        }
      ]
    },
    {
      "choice": 2,
      "title": "Two",
      "actions": [
        {
          "type": "send",
          "parent": "1",
          "input": "pwd"
        }
      ]
    },
    {
      "choice": 3,
      "title": "Three",
      "actions": [
        {
          "type": "send",
          "parent": "1",
          "input": "pwd"
        }
      ]
    },
    {
      "choice": 4,
      "title": "Four",
      "actions": [
        {
          "type": "send",
          "parent": "1",
          "input": "pwd"
        }
      ]
    }
  ]
}
```"#;

    let err =
        parse_recommendation_set(text, decode).expect_err("four-choice recommendation should fail");
    assert!(err.contains("expected 1 to 3 choices"));
}

#[test]
fn resolve_created_pane_id_accepts_numeric_ids() {
    let result = object(vec![("pane_id", Json::Number(JsonNumber::Unsigned(42)))]);

    let pane_id = resolve_created_pane_id(&result, "create_tab").unwrap();

    assert_eq!(pane_id, "42");
}

#[test]
fn resolve_created_pane_id_rejects_missing_pane_id() {
    let result = object(vec![("tab_id", Json::Text("7".to_string()))]);

    let err = resolve_created_pane_id(&result, "create_tab")
        .expect_err("missing pane_id should fail");

    assert!(err.contains("create_tab response missing pane_id"));
}
