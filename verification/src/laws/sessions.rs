//! What the registry of agent sessions is told of the events of agents.
use crate::app::agent_events::{agent_event_text, route_agent_event_to_registry};
use crate::app::types::{Effect, EffectView, SessionView};
use crate::json::{Json, JsonView};
use crate::text;
use vstd::prelude::*;

verus! {

/// The text of a member of the payload, empty where there is none.
pub open spec fn payload_text(params: JsonView, name: Seq<char>) -> Seq<char> {
    match params.get("payload"@) {
        Some(payload) => match payload.get(name) {
            Some(JsonView::Text(text)) => text,
            _ => Seq::empty(),
        },
        None => Seq::empty(),
    }
}

/// The name of the tool that the payload speaks of.
pub open spec fn tool_of(params: JsonView) -> Seq<char> {
    match params.get("payload"@) {
        Some(payload) => match payload.get("tool_name"@) {
            Some(JsonView::Text(text)) => text,
            Some(_) => Seq::empty(),
            None => match payload.get("toolName"@) {
                Some(JsonView::Text(text)) => text,
                _ => Seq::empty(),
            },
        },
        None => Seq::empty(),
    }
}

/// The effects are these changes of the session, and then its title is shown anew.
pub open spec fn tells(effects: Seq<Effect>, changes: Seq<SessionView>, key: Seq<char>) -> bool {
    &&& effects.len() == changes.len() + 1
    &&& forall|i: int|
        0 <= i < changes.len() ==> (#[trigger] effects[i])@ == EffectView::ChangeSession(changes[i])
    &&& effects.last()@ == EffectView::RefreshTitle(key)
}

proof fn lemma_event_names()
    ensures
        "agent."@.len() == 6,
        text::has_prefix("agent.session.started"@, "agent."@),
        text::has_prefix("agent.session.start"@, "agent."@),
        text::has_prefix("agent.tool.starting"@, "agent."@),
        text::has_prefix("agent.prompt.submit"@, "agent."@),
        text::has_prefix("agent.tool.completed"@, "agent."@),
        text::has_prefix("agent.tool.finished"@, "agent."@),
        text::has_prefix("agent.tool.failed"@, "agent."@),
        text::has_prefix("agent.stop"@, "agent."@),
        text::has_prefix("agent.subagent.stop"@, "agent."@),
        text::has_prefix("agent.notification"@, "agent."@),
        text::has_prefix("agent.session.stopped"@, "agent."@),
        text::has_prefix("agent.session.end"@, "agent."@),
        text::has_prefix("agent.error"@, "agent."@),
        "agent.session.started"@.len() == 21 && "agent.session.started"@[16] == 'a',
        "agent.session.stopped"@.len() == 21 && "agent.session.stopped"@[16] == 'o',
        "agent.session.start"@.len() == 19 && "agent.session.start"@[7] == 'e',
        "agent.tool.starting"@.len() == 19 && "agent.tool.starting"@[7] == 'o'
            && "agent.tool.starting"@[11] == 's',
        "agent.prompt.submit"@.len() == 19 && "agent.prompt.submit"@[7] == 'r',
        "agent.tool.finished"@.len() == 19 && "agent.tool.finished"@[7] == 'o'
            && "agent.tool.finished"@[11] == 'f',
        "agent.subagent.stop"@.len() == 19 && "agent.subagent.stop"@[7] == 'u',
        "agent.tool.completed"@.len() == 20,
        "agent.tool.failed"@.len() == 17 && "agent.tool.failed"@[7] == 'o',
        "agent.session.end"@.len() == 17 && "agent.session.end"@[7] == 'e',
        "agent.stop"@.len() == 10,
        "agent.notification"@.len() == 18,
        "agent.error"@.len() == 11,
        "agent.session"@.len() == 13,
{
    reveal_strlit("agent.");
    reveal_strlit("agent.session.started");
    reveal_strlit("agent.session.start");
    reveal_strlit("agent.tool.starting");
    reveal_strlit("agent.prompt.submit");
    reveal_strlit("agent.tool.completed");
    reveal_strlit("agent.tool.finished");
    reveal_strlit("agent.tool.failed");
    reveal_strlit("agent.stop");
    reveal_strlit("agent.subagent.stop");
    reveal_strlit("agent.notification");
    reveal_strlit("agent.session.stopped");
    reveal_strlit("agent.session.end");
    reveal_strlit("agent.error");
    reveal_strlit("agent.session");
    assert("agent.session.started"@.subrange(0, 6) =~= "agent."@);
    assert("agent.session.start"@.subrange(0, 6) =~= "agent."@);
    assert("agent.tool.starting"@.subrange(0, 6) =~= "agent."@);
    assert("agent.prompt.submit"@.subrange(0, 6) =~= "agent."@);
    assert("agent.tool.completed"@.subrange(0, 6) =~= "agent."@);
    assert("agent.tool.finished"@.subrange(0, 6) =~= "agent."@);
    assert("agent.tool.failed"@.subrange(0, 6) =~= "agent."@);
    assert("agent.stop"@.subrange(0, 6) =~= "agent."@);
    assert("agent.subagent.stop"@.subrange(0, 6) =~= "agent."@);
    assert("agent.notification"@.subrange(0, 6) =~= "agent."@);
    assert("agent.session.stopped"@.subrange(0, 6) =~= "agent."@);
    assert("agent.session.end"@.subrange(0, 6) =~= "agent."@);
    assert("agent.error"@.subrange(0, 6) =~= "agent."@);
}

/// What a known session is told of an event: a notification asks for attention
/// with its message, a tool that starts is named, what ends makes the session
/// idle, a session that ends says why, and an error fails its pane.
pub proof fn law_known_sessions_hear_of_events(
    pane: &str,
    params: &Json,
    key: &str,
    label: &str,
    waiting: &Vec<String>,
    effects: Vec<Effect>,
    event: Seq<char>,
)
    requires
        call_ensures(
            route_agent_event_to_registry,
            (pane, params, key, true, label, waiting),
            effects,
        ),
        params@.get("event"@) == Some(JsonView::Text(event)),
    ensures
        event == "agent.notification"@ ==> tells(
            effects@,
            seq![
                SessionView::Notification {
                    key: key@,
                    message: payload_text(params@, "message"@),
                },
            ],
            key@,
        ),
        event == "agent.prompt.submit"@ ==> tells(
            effects@,
            seq![SessionView::ToolStarting { key: key@, tool_name: "prompt"@ }],
            key@,
        ),
        event == "agent.tool.completed"@ || event == "agent.tool.finished"@ || event
            == "agent.tool.failed"@ || event == "agent.stop"@ || event == "agent.subagent.stop"@
            ==> tells(effects@, seq![SessionView::ToolCompleted { key: key@ }], key@),
        event == "agent.session.stopped"@ || event == "agent.session.end"@ ==> tells(
            effects@,
            seq![
                SessionView::SessionStopped {
                    key: key@,
                    reason: payload_text(params@, "reason"@),
                },
            ],
            key@,
        ),
        event == "agent.tool.starting"@ && !text::texts(waiting@).contains(tool_of(params@))
            ==> tells(
            effects@,
            seq![SessionView::ToolStarting { key: key@, tool_name: tool_of(params@) }],
            key@,
        ),
{
    lemma_event_names();
    assert(crate::app::types::effects_view(effects@).len() == effects@.len());
    assert forall|i: int| 0 <= i < effects@.len() implies (#[trigger] effects@[i])@
        == crate::app::types::effects_view(effects@)[i] by {}
}

/// A tool that waits for the user makes the session ask for attention, with what
/// it asks.
pub proof fn law_waiting_tools_ask_for_attention(
    pane: &str,
    params: &Json,
    key: &str,
    label: &str,
    waiting: &Vec<String>,
    effects: Vec<Effect>,
    payload: JsonView,
    asked: JsonView,
    question: Seq<char>,
)
    requires
        call_ensures(
            route_agent_event_to_registry,
            (pane, params, key, true, label, waiting),
            effects,
        ),
        params@.get("event"@) == Some(JsonView::Text("agent.tool.starting"@)),
        params@.get("payload"@) == Some(payload),
        text::texts(waiting@).contains(tool_of(params@)),
        payload.get("tool_input"@) == Some(asked),
        match asked.get("question"@) {
            Some(value) => value == JsonView::Text(question),
            None => match asked.get("prompt"@) {
                Some(value) => value == JsonView::Text(question),
                None => match asked.get("message"@) {
                    Some(value) => value == JsonView::Text(question),
                    None => question == "waiting for user input"@,
                },
            },
        },
    ensures
        tells(
            effects@,
            seq![
                SessionView::ToolStarting { key: key@, tool_name: tool_of(params@) },
                SessionView::Notification { key: key@, message: question },
            ],
            key@,
        ),
{
    lemma_event_names();
    assert(crate::app::types::effects_view(effects@).len() == effects@.len());
    assert forall|i: int| 0 <= i < effects@.len() implies (#[trigger] effects@[i])@
        == crate::app::types::effects_view(effects@)[i] by {}
}

/// An error of an agent fails the pane, with what the payload says of it.
pub proof fn law_agent_errors_fail_the_pane(
    pane: &str,
    params: &Json,
    key: &str,
    label: &str,
    waiting: &Vec<String>,
    effects: Vec<Effect>,
    payload: JsonView,
    reason: Seq<char>,
)
    requires
        call_ensures(
            route_agent_event_to_registry,
            (pane, params, key, true, label, waiting),
            effects,
        ),
        params@.get("event"@) == Some(JsonView::Text("agent.error"@)),
        params@.get("payload"@) == Some(payload),
        match payload.get("error"@) {
            Some(JsonView::Text(text)) => reason == text,
            _ => match payload.get("message"@) {
                Some(JsonView::Text(text)) => reason == text,
                _ => reason == "agent error"@,
            },
        },
    ensures
        tells(
            effects@,
            seq![SessionView::ConnectionFailed { pane_session_id: pane@, reason }],
            key@,
        ),
{
    lemma_event_names();
    assert(crate::app::types::effects_view(effects@).len() == effects@.len());
    assert forall|i: int| 0 <= i < effects@.len() implies (#[trigger] effects@[i])@
        == crate::app::types::effects_view(effects@)[i] by {}
}

/// A session that is not known is started by the first event of it, with what
/// the event says of its source, its pane and its directory.
pub proof fn law_unknown_sessions_are_started(
    pane: &str,
    params: &Json,
    key: &str,
    label: &str,
    waiting: &Vec<String>,
    effects: Vec<Effect>,
    event: Seq<char>,
)
    requires
        call_ensures(
            route_agent_event_to_registry,
            (pane, params, key, false, label, waiting),
            effects,
        ),
        params@.get("event"@) == Some(JsonView::Text(event)),
        text::has_prefix(event, "agent."@),
    ensures
        ({
            let started = EffectView::ChangeSession(
                SessionView::SessionStarted {
                    key: key@,
                    cli_source: match params@.get("cli_source"@) {
                        Some(JsonView::Text(text)) => Some(text),
                        _ => None,
                    },
                    pane_session_id: pane@,
                    cwd: payload_text(params@, "cwd"@),
                    title: label@,
                },
            );
            &&& effects@.len() > 0
            &&& event == "agent.session.started"@ ==> {
                match params@.get("agent_session_id"@) {
                    Some(JsonView::Text(id)) if id.len() > 0 => effects@.len() == 3 && effects@[0]@
                        == EffectView::DropPlaceholder(pane@) && effects@[1]@ == started,
                    _ => effects@.len() == 2 && effects@[0]@ == started,
                }
            }
            &&& event != "agent.session.started"@ ==> effects@[0]@ == started
            &&& event == "agent.notification"@ ==> effects@.len() == 3 && effects@[1]@
                == EffectView::ChangeSession(
                SessionView::Notification {
                    key: key@,
                    message: payload_text(params@, "message"@),
                },
            )
        }),
{
    lemma_event_names();
    assert(crate::app::types::effects_view(effects@).len() == effects@.len());
    assert forall|i: int| 0 <= i < effects@.len() implies (#[trigger] effects@[i])@
        == crate::app::types::effects_view(effects@)[i] by {}
}

/// Events that say nothing of a session change none that is known.
pub proof fn law_other_events_change_nothing(
    pane: &str,
    params: &Json,
    key: &str,
    label: &str,
    waiting: &Vec<String>,
    effects: Vec<Effect>,
    event: Seq<char>,
)
    requires
        call_ensures(
            route_agent_event_to_registry,
            (pane, params, key, true, label, waiting),
            effects,
        ),
        params@.get("event"@) == Some(JsonView::Text(event)),
        event != "agent.session.started"@,
        event != "agent.session.start"@,
        event != "agent.tool.starting"@,
        event != "agent.prompt.submit"@,
        event != "agent.tool.completed"@,
        event != "agent.tool.finished"@,
        event != "agent.tool.failed"@,
        event != "agent.stop"@,
        event != "agent.subagent.stop"@,
        event != "agent.notification"@,
        event != "agent.session.stopped"@,
        event != "agent.session.end"@,
        event != "agent.error"@,
    ensures
        effects@.len() == 0,
{
    assert(crate::app::types::effects_view(effects@).len() == effects@.len());
}

/// What is shown of an event begins with its name and ends with its source.
pub proof fn law_events_are_shown_with_their_source(event: &str, params: &Json, text: String)
    requires
        call_ensures(agent_event_text, (event, params), text),
    ensures
        ({
            let source = match params@.get("cli_source"@) {
                Some(JsonView::Text(source)) => source,
                _ => "unknown"@,
            };
            let head = "─ "@ + event@ + " ─"@;
            let tail = "\n  "@ + "Source"@ + ": "@ + source;
            &&& text@.len() >= head.len() + tail.len()
            &&& text@.take(head.len() as int) == head
            &&& text@.skip(text@.len() - tail.len()) == tail
        }),
{
}

/// What is shown of a notification is what it says.
pub proof fn law_notifications_are_shown(params: &Json, text: String, payload: JsonView)
    requires
        call_ensures(agent_event_text, ("agent.notification", params), text),
        params@.get("payload"@) == Some(payload),
    ensures
        ({
            let source = match params@.get("cli_source"@) {
                Some(JsonView::Text(source)) => source,
                _ => "unknown"@,
            };
            let message = match payload.get("notification"@) {
                Some(JsonView::Text(text)) => text,
                Some(_) => Seq::empty(),
                None => match payload.get("message"@) {
                    Some(JsonView::Text(text)) => text,
                    _ => Seq::empty(),
                },
            };
            text@ == "─ "@ + "agent.notification"@ + " ─"@ + "\n  "@ + message + ("\n  "@
                + "Source"@ + ": "@ + source)
        }),
{
    lemma_event_names();
}

/// What is shown of a prompt is the prompt, cut where it is long; without one,
/// only the event is shown.
pub proof fn law_prompts_are_shown(params: &Json, text: String, payload: JsonView)
    requires
        call_ensures(agent_event_text, ("agent.prompt.submit", params), text),
        params@.get("payload"@) == Some(payload),
    ensures
        ({
            let source = match params@.get("cli_source"@) {
                Some(JsonView::Text(source)) => source,
                _ => "unknown"@,
            };
            let prompt = match payload.get("prompt"@) {
                Some(JsonView::Text(text)) => text,
                Some(_) => Seq::empty(),
                None => match payload.get("initialPrompt"@) {
                    Some(JsonView::Text(text)) => text,
                    _ => Seq::empty(),
                },
            };
            let head = "─ "@ + "agent.prompt.submit"@ + " ─"@;
            let tail = "\n  "@ + "Source"@ + ": "@ + source;
            &&& prompt.len() == 0 ==> text@ == head + tail
            &&& 0 < prompt.len() <= 120 ==> text@ == head + ("\n  "@ + "Prompt"@ + ": "@ + prompt)
                + tail
            &&& prompt.len() > 120 ==> text@ == head + ("\n  "@ + "Prompt"@ + ": "@ + (
            prompt.take(120) + "…"@)) + tail
        }),
{
    lemma_event_names();
}

} // verus!
