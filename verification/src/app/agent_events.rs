//! Events that the hooks of agents in other panes report: what they change in
//! the agent sessions, and how the chat shows them.
use super::notifications;
use super::notifications::str_or;
use super::types::{Effect, EffectView, SessionEvent, SessionView};
use crate::json;
use crate::json::{compact_text, Json, JsonView};
use crate::text;
use crate::text::{same_text, shorten, starts_with};
use vstd::prelude::*;

verus! {

/// The member of a value that may be there.
pub open spec fn member(value: Option<JsonView>, key: Seq<char>) -> Option<JsonView> {
    match value {
        Some(value) => value.get(key),
        None => None,
    }
}

/// The first value that is there.
pub open spec fn first_of(a: Option<JsonView>, b: Option<JsonView>) -> Option<JsonView> {
    match a {
        Some(a) => Some(a),
        None => b,
    }
}

/// The text of a value, or another one.
pub open spec fn said(value: Option<JsonView>, otherwise: Seq<char>) -> Seq<char> {
    match value {
        Some(JsonView::Text(text)) => text,
        _ => otherwise,
    }
}

/// What the value says, where it is there.
pub open spec fn value_seen(value: Option<&Json>) -> Option<JsonView> {
    match value {
        Some(value) => Some(value@),
        None => None,
    }
}

fn get_member<'a>(value: Option<&'a Json>, key: &str) -> (r: Option<&'a Json>)
    ensures
        value_seen(r) == member(value_seen(value), key@),
{
    match value {
        Some(value) => value.get(key),
        None => None,
    }
}

fn first<'a>(a: Option<&'a Json>, b: Option<&'a Json>) -> (r: Option<&'a Json>)
    ensures
        value_seen(r) == first_of(value_seen(a), value_seen(b)),
{
    match a {
        Some(a) => Some(a),
        None => b,
    }
}

fn text_of<'a>(value: Option<&'a Json>, otherwise: &'a str) -> (r: &'a str)
    ensures
        r@ == said(value_seen(value), otherwise@),
{
    match value {
        Some(Json::Text(text)) => text.as_str(),
        _ => otherwise,
    }
}

/// The name of the tool that a payload is about.
pub open spec fn tool_name(payload: Option<JsonView>) -> Option<JsonView> {
    first_of(member(payload, "tool_name"@), member(payload, "toolName"@))
}

/// What a tool asks the user.
pub open spec fn question(payload: Option<JsonView>) -> Seq<char> {
    let input = member(payload, "tool_input"@);
    said(
        first_of(
            first_of(member(input, "question"@), member(input, "prompt"@)),
            member(input, "message"@),
        ),
        "waiting for user input"@,
    )
}

/// Why an agent failed.
pub open spec fn agent_failure(payload: Option<JsonView>) -> Seq<char> {
    said(member(payload, "error"@), said(member(payload, "message"@), "agent error"@))
}

/// The changes that an event of an agent makes: `key` is the session it is
/// about, `known` whether there is one, `label` the last part of its directory,
/// and `waiting` the tools that wait for the user.
pub open spec fn event_changes(
    event: Seq<char>,
    key: Seq<char>,
    pane: Seq<char>,
    started: SessionView,
    payload: Option<JsonView>,
    waiting: Seq<Seq<char>>,
) -> Seq<SessionView> {
    if event == "agent.session.started"@ || event == "agent.session.start"@ {
        seq![started]
    } else if event == "agent.tool.starting"@ {
        let tool = said(tool_name(payload), Seq::empty());
        let starting = SessionView::ToolStarting { key, tool_name: tool };
        if waiting.contains(tool) {
            seq![starting, SessionView::Notification { key, message: question(payload) }]
        } else {
            seq![starting]
        }
    } else if event == "agent.prompt.submit"@ {
        seq![SessionView::ToolStarting { key, tool_name: "prompt"@ }]
    } else if event == "agent.tool.completed"@ || event == "agent.tool.finished"@ || event
        == "agent.tool.failed"@ || event == "agent.stop"@ || event == "agent.subagent.stop"@ {
        seq![SessionView::ToolCompleted { key }]
    } else if event == "agent.notification"@ {
        seq![
            SessionView::Notification {
                key,
                message: said(member(payload, "message"@), Seq::empty()),
            },
        ]
    } else if event == "agent.session.stopped"@ || event == "agent.session.end"@ {
        seq![
            SessionView::SessionStopped {
                key,
                reason: said(member(payload, "reason"@), Seq::empty()),
            },
        ]
    } else if event == "agent.error"@ {
        seq![
            SessionView::ConnectionFailed {
                pane_session_id: pane,
                reason: agent_failure(payload),
            },
        ]
    } else {
        Seq::empty()
    }
}

/// The event says that the session of `params` starts.
pub open spec fn session_started(
    params: JsonView,
    pane: Seq<char>,
    key: Seq<char>,
    known: bool,
    label: Seq<char>,
) -> SessionView {
    SessionView::SessionStarted {
        key,
        cli_source: params.text_at("cli_source"@),
        pane_session_id: pane,
        cwd: said(member(params.get("payload"@), "cwd"@), Seq::empty()),
        title: if known {
            Seq::empty()
        } else {
            label
        },
    }
}

/// The effects of the changes.
pub open spec fn change_effects(changes: Seq<SessionView>) -> Seq<EffectView> {
    changes.map_values(|change: SessionView| EffectView::ChangeSession(change))
}

/// What an event of an agent asks for: a session that is not known yet starts
/// with any event, one that starts takes the place of its placeholder, and after
/// a change its title is looked up.
pub open spec fn routed(
    pane: Seq<char>,
    params: JsonView,
    key: Seq<char>,
    known: bool,
    label: Seq<char>,
    waiting: Seq<Seq<char>>,
) -> Seq<EffectView> {
    let event = notifications::text_or(params.text_at("event"@), Seq::empty());
    if !text::has_prefix(event, "agent."@) {
        Seq::empty()
    } else {
        let started = session_started(params, pane, key, known, label);
        let first = if event != "agent.session.started"@ && !known {
            seq![EffectView::ChangeSession(started)]
        } else {
            Seq::empty()
        };
        let asid = notifications::text_or(params.text_at("agent_session_id"@), Seq::empty());
        let second = if event == "agent.session.started"@ && asid.len() > 0 {
            first.push(EffectView::DropPlaceholder(pane))
        } else {
            first
        };
        let changes = event_changes(event, key, pane, started, params.get("payload"@), waiting);
        if changes.len() > 0 {
            (second + change_effects(changes)).push(EffectView::RefreshTitle(key))
        } else {
            second
        }
    }
}

fn listed(list: &Vec<String>, item: &str) -> (yes: bool)
    ensures
        yes == text::texts(list@).contains(item@),
{
    let mut i: usize = 0;
    while i < list.len()
        invariant
            i <= list@.len(),
            forall|j: int| 0 <= j < i ==> text::texts(list@)[j] != item@,
        decreases list@.len() - i,
    {
        assert(text::texts(list@)[i as int] == list@[i as int]@);
        if same_text(list[i].as_str(), item) {
            assert(text::texts(list@).contains(item@));
            return true;
        }
        i += 1;
    }
    assert forall|j: int| 0 <= j < text::texts(list@).len() implies text::texts(list@)[j]
        != item@ by {}
    false
}

fn started_event(
    params: &Json,
    pane: &str,
    key: &str,
    known: bool,
    label: &str,
) -> (event: SessionEvent)
    ensures
        event@ == session_started(params@, pane@, key@, known, label@),
{
    proof {
        reveal_strlit("");
        assert(""@ =~= Seq::<char>::empty());
    }
    SessionEvent::SessionStarted {
        key: key.to_owned(),
        cli_source: match params.str_at("cli_source") {
            Some(name) => Some(name.to_owned()),
            None => None,
        },
        pane_session_id: pane.to_owned(),
        cwd: text_of(get_member(params.get("payload"), "cwd"), "").to_owned(),
        title: if known {
            String::new()
        } else {
            label.to_owned()
        },
    }
}

/// The last event that a hook stands for, and before it the tool that starts,
/// where the user has to act.
fn changes_of(
    event: &str,
    key: &str,
    pane: &str,
    started: SessionEvent,
    payload: Option<&Json>,
    waiting: &Vec<String>,
) -> (changes: Vec<SessionEvent>)
    ensures
        changes@.map_values(|change: SessionEvent| change@) == event_changes(
            event@,
            key@,
            pane@,
            started@,
            value_seen(payload),
            text::texts(waiting@),
        ),
{
    proof {
        reveal_strlit("");
        assert(""@ =~= Seq::<char>::empty());
    }
    let mut changes: Vec<SessionEvent> = Vec::new();
    if same_text(event, "agent.session.started") || same_text(event, "agent.session.start") {
        changes.push(started);
    } else if same_text(event, "agent.tool.starting") {
        let tool = text_of(
            first(get_member(payload, "tool_name"), get_member(payload, "toolName")),
            "",
        );
        changes.push(
            SessionEvent::ToolStarting { key: key.to_owned(), tool_name: tool.to_owned() },
        );
        if listed(waiting, tool) {
            let input = get_member(payload, "tool_input");
            let asked = first(
                first(get_member(input, "question"), get_member(input, "prompt")),
                get_member(input, "message"),
            );
            changes.push(
                SessionEvent::Notification {
                    key: key.to_owned(),
                    message: text_of(asked, "waiting for user input").to_owned(),
                },
            );
        }
    } else if same_text(event, "agent.prompt.submit") {
        changes.push(
            SessionEvent::ToolStarting { key: key.to_owned(), tool_name: "prompt".to_owned() },
        );
    } else if same_text(event, "agent.tool.completed") || same_text(event, "agent.tool.finished")
        || same_text(event, "agent.tool.failed") || same_text(event, "agent.stop") || same_text(
        event,
        "agent.subagent.stop",
    ) {
        changes.push(SessionEvent::ToolCompleted { key: key.to_owned() });
    } else if same_text(event, "agent.notification") {
        changes.push(
            SessionEvent::Notification {
                key: key.to_owned(),
                message: text_of(get_member(payload, "message"), "").to_owned(),
            },
        );
    } else if same_text(event, "agent.session.stopped") || same_text(event, "agent.session.end") {
        changes.push(
            SessionEvent::SessionStopped {
                key: key.to_owned(),
                reason: text_of(get_member(payload, "reason"), "").to_owned(),
            },
        );
    } else if same_text(event, "agent.error") {
        changes.push(
            SessionEvent::ConnectionFailed {
                pane_session_id: pane.to_owned(),
                reason: text_of(
                    get_member(payload, "error"),
                    text_of(get_member(payload, "message"), "agent error"),
                ).to_owned(),
            },
        );
    }
    assert(changes@.map_values(|change: SessionEvent| change@) =~= event_changes(
        event@,
        key@,
        pane@,
        started@,
        value_seen(payload),
        text::texts(waiting@),
    ));
    changes
}

/// What an event of an agent in the pane `pane_session_id` asks for. `key` is
/// the session it is about, `known` whether there is one, `cwd_label` the last
/// part of its directory, and `user_input_tools` the tools that wait for the
/// user.
pub fn route_agent_event_to_registry(
    pane_session_id: &str,
    params: &Json,
    key: &str,
    known: bool,
    cwd_label: &str,
    user_input_tools: &Vec<String>,
) -> (effects: Vec<Effect>)
    ensures
        super::types::effects_view(effects@) == routed(
            pane_session_id@,
            params@,
            key@,
            known,
            cwd_label@,
            text::texts(user_input_tools@),
        ),
{
    proof {
        reveal_strlit("");
        assert(""@ =~= Seq::<char>::empty());
    }
    let mut effects: Vec<Effect> = Vec::new();
    let event = str_or(params.str_at("event"), "");
    if !starts_with(event, "agent.") {
        assert(super::types::effects_view(effects@) =~= Seq::<EffectView>::empty());
        return effects;
    }
    let begins: bool = same_text(event, "agent.session.started");
    if !begins && !known {
        effects.push(
            Effect::ChangeSession(started_event(params, pane_session_id, key, known, cwd_label)),
        );
    }
    if begins && !str_or(params.str_at("agent_session_id"), "").is_empty() {
        effects.push(Effect::DropPlaceholder(pane_session_id.to_owned()));
    }
    let ghost before = super::types::effects_view(effects@);
    let started = started_event(params, pane_session_id, key, known, cwd_label);
    let ghost started_view = started@;
    assert(before =~= {
        let first = if event@ != "agent.session.started"@ && !known {
            seq![EffectView::ChangeSession(started_view)]
        } else {
            Seq::empty()
        };
        let asid = notifications::text_or(params@.text_at("agent_session_id"@), Seq::empty());
        if event@ == "agent.session.started"@ && asid.len() > 0 {
            first.push(EffectView::DropPlaceholder(pane_session_id@))
        } else {
            first
        }
    });
    let changes = changes_of(
        event,
        key,
        pane_session_id,
        started,
        params.get("payload"),
        user_input_tools,
    );
    let ghost all = changes@.map_values(|change: SessionEvent| change@);
    let mut changes = changes;
    let changed: bool = changes.len() > 0;
    let ghost total = changes@.len();
    let ghost pending = changes@;
    while changes.len() > 0
        invariant
            changes@.len() <= total,
            pending.len() == total,
            changes@ == pending.skip(total - changes@.len()),
            super::types::effects_view(effects@) == before + change_effects(
                pending.map_values(|change: SessionEvent| change@),
            ).take(total - changes@.len()),
        decreases changes@.len(),
    {
        let ghost k = total - changes@.len();
        let ghost earlier = effects@;
        let change = changes.remove(0);
        assert(change == pending[k]);
        effects.push(Effect::ChangeSession(change));
        proof {
            let wanted = change_effects(pending.map_values(|change: SessionEvent| change@));
            assert(super::types::effects_view(effects@) =~= super::types::effects_view(
                earlier,
            ).push(EffectView::ChangeSession(change@)));
            assert(wanted[k] == EffectView::ChangeSession(change@));
            assert(wanted.take(k + 1) =~= wanted.take(k).push(wanted[k]));
            assert(changes@ =~= pending.skip(k + 1));
            assert(before + wanted.take(k + 1) =~= (before + wanted.take(k)).push(wanted[k]));
        }
    }
    proof {
        let wanted = change_effects(all);
        assert(wanted.take(total as int) =~= wanted);
        assert(!changed ==> before + wanted =~= before);
    }
    if changed {
        let ghost earlier = effects@;
        effects.push(Effect::RefreshTitle(key.to_owned()));
        assert(super::types::effects_view(effects@) =~= super::types::effects_view(earlier).push(
            EffectView::RefreshTitle(key@),
        ));
    }
    effects
}

/// The heading of an event in the chat.
pub open spec fn headline(event: Seq<char>) -> Seq<char> {
    "─ "@ + event + " ─"@
}

/// A line of an event in the chat.
pub open spec fn line(label: Seq<char>, value: Seq<char>) -> Seq<char> {
    "\n  "@ + label + ": "@ + value
}

/// How a tool ended.
pub open spec fn tool_result(event: Seq<char>, payload: JsonView) -> Seq<char> {
    let interrupted = match member(payload.get("tool_response"@), "interrupted"@) {
        Some(JsonView::Bool(b)) => b,
        _ => false,
    };
    if event == "agent.tool.failed"@ {
        "failed"@
    } else if interrupted {
        "interrupted"@
    } else {
        said(member(payload.get("toolResult"@), "resultType"@), "completed"@)
    }
}

/// What a tool wrote.
pub open spec fn tool_output(payload: JsonView) -> Seq<char> {
    said(
        first_of(
            member(payload.get("toolResult"@), "textResultForLlm"@),
            member(payload.get("tool_response"@), "stdout"@),
        ),
        Seq::empty(),
    )
}

/// The compact text of a value, or nothing.
pub open spec fn compact(value: Option<JsonView>) -> Seq<char> {
    match value {
        Some(value) => json::compact_json(value),
        None => Seq::empty(),
    }
}

/// An event of an agent as the chat shows it.
pub open spec fn hook_text(event: Seq<char>, params: JsonView) -> Seq<char> {
    let source = line("Source"@, notifications::text_or(params.text_at("cli_source"@), "unknown"@));
    let payload = match params.get("payload"@) {
        Some(payload) => payload,
        None => params,
    };
    let tool = said(tool_name(Some(payload)), "?"@);
    if event == "agent.tool.starting"@ {
        let args = compact(first_of(payload.get("tool_input"@), payload.get("toolArgs"@)));
        headline(event) + line("Tool"@, tool) + line("Args"@, text::shortened(args, 80, "…"@))
            + source
    } else if event == "agent.tool.finished"@ || event == "agent.tool.completed"@ || event
        == "agent.tool.failed"@ {
        let output = text::shortened(tool_output(payload), 80, "…"@);
        let result = headline(event) + line("Tool"@, tool) + line(
            "Result"@,
            tool_result(event, payload),
        );
        if output.len() == 0 {
            result + source
        } else {
            result + line("Output"@, output) + source
        }
    } else if event == "agent.prompt.submit"@ {
        let prompt = text::shortened(
            said(first_of(payload.get("prompt"@), payload.get("initialPrompt"@)), Seq::empty()),
            120,
            "…"@,
        );
        if prompt.len() == 0 {
            headline(event) + source
        } else {
            headline(event) + line("Prompt"@, prompt) + source
        }
    } else if event == "agent.session.start"@ {
        headline(event) + line("CWD"@, said(payload.get("cwd"@), Seq::empty())) + source
    } else if event == "agent.session.end"@ || event == "agent.stop"@ || event
        == "agent.subagent.stop"@ || event == "agent.session.stopped"@ || event
        == "agent.session"@ {
        headline(event) + line(
            "Reason"@,
            said(
                first_of(
                    first_of(payload.get("reason"@), payload.get("stopReason"@)),
                    payload.get("hook_event_name"@),
                ),
                "unknown"@,
            ),
        ) + source
    } else if event == "agent.error"@ {
        headline(event) + line(
            "Error"@,
            text::shortened(compact(payload.get("error"@)), 120, "…"@),
        ) + source
    } else if event == "agent.notification"@ {
        headline(event) + "\n  "@ + said(
            first_of(payload.get("notification"@), payload.get("message"@)),
            Seq::empty(),
        ) + source
    } else {
        headline(event) + source
    }
}

fn add_line(text: &mut String, label: &str, value: &str)
    ensures
        final(text)@ == old(text)@ + line(label@, value@),
{
    text.append("\n  ");
    text.append(label);
    text.append(": ");
    text.append(value);
    assert(text@ =~= old(text)@ + line(label@, value@));
}

fn compact_or_empty(value: Option<&Json>) -> (r: String)
    ensures
        r@ == compact(value_seen(value)),
{
    match value {
        Some(value) => compact_text(value),
        None => String::new(),
    }
}

/// An event of an agent as the chat shows it.
pub fn agent_event_text(event_type: &str, params: &Json) -> (text: String)
    ensures
        text@ == hook_text(event_type@, params@),
{
    proof {
        reveal_strlit("");
        assert(""@ =~= Seq::<char>::empty());
    }
    let source = str_or(params.str_at("cli_source"), "unknown");
    let payload = match params.get("payload") {
        Some(payload) => payload,
        None => params,
    };
    let tool = text_of(first(payload.get("tool_name"), payload.get("toolName")), "?");
    let mut text = text::concat3("─ ", event_type, " ─");
    if same_text(event_type, "agent.tool.starting") {
        let args = compact_or_empty(first(payload.get("tool_input"), payload.get("toolArgs")));
        add_line(&mut text, "Tool", tool);
        add_line(&mut text, "Args", shorten(args.as_str(), 80, "…").as_str());
    } else if same_text(event_type, "agent.tool.finished") || same_text(
        event_type,
        "agent.tool.completed",
    ) || same_text(event_type, "agent.tool.failed") {
        let interrupted: bool = match get_member(payload.get("tool_response"), "interrupted") {
            Some(Json::Bool(b)) => *b,
            _ => false,
        };
        let result = if same_text(event_type, "agent.tool.failed") {
            "failed"
        } else if interrupted {
            "interrupted"
        } else {
            text_of(get_member(payload.get("toolResult"), "resultType"), "completed")
        };
        let output = shorten(
            text_of(
                first(
                    get_member(payload.get("toolResult"), "textResultForLlm"),
                    get_member(payload.get("tool_response"), "stdout"),
                ),
                "",
            ),
            80,
            "…",
        );
        add_line(&mut text, "Tool", tool);
        add_line(&mut text, "Result", result);
        if !output.as_str().is_empty() {
            add_line(&mut text, "Output", output.as_str());
        }
    } else if same_text(event_type, "agent.prompt.submit") {
        let prompt = shorten(
            text_of(first(payload.get("prompt"), payload.get("initialPrompt")), ""),
            120,
            "…",
        );
        if !prompt.as_str().is_empty() {
            add_line(&mut text, "Prompt", prompt.as_str());
        }
    } else if same_text(event_type, "agent.session.start") {
        add_line(&mut text, "CWD", text_of(payload.get("cwd"), ""));
    } else if same_text(event_type, "agent.session.end") || same_text(event_type, "agent.stop")
        || same_text(event_type, "agent.subagent.stop") || same_text(
        event_type,
        "agent.session.stopped",
    ) || same_text(event_type, "agent.session") {
        let reason = first(
            first(payload.get("reason"), payload.get("stopReason")),
            payload.get("hook_event_name"),
        );
        add_line(&mut text, "Reason", text_of(reason, "unknown"));
    } else if same_text(event_type, "agent.error") {
        let error = compact_or_empty(payload.get("error"));
        add_line(&mut text, "Error", shorten(error.as_str(), 120, "…").as_str());
    } else if same_text(event_type, "agent.notification") {
        text.append("\n  ");
        text.append(
            text_of(first(payload.get("notification"), payload.get("message")), ""),
        );
    }
    add_line(&mut text, "Source", source);
    text
}

/// Only events of agents change the sessions, and an event for a session that
/// is not known always starts it.
pub proof fn law_agent_events_only(
    pane: Seq<char>,
    params: JsonView,
    key: Seq<char>,
    known: bool,
    label: Seq<char>,
    waiting: Seq<Seq<char>>,
)
    ensures
        ({
            let event = notifications::text_or(params.text_at("event"@), Seq::empty());
            let effects = routed(pane, params, key, known, label, waiting);
            &&& !text::has_prefix(event, "agent."@) ==> effects.len() == 0
            &&& text::has_prefix(event, "agent."@) && !known && event != "agent.session.started"@
                ==> effects.len() > 0 && effects[0] == EffectView::ChangeSession(
                session_started(params, pane, key, known, label),
            )
        }),
{
}

} // verus!
