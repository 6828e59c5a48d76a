//! On which occasions the application asks for something to be done, and on which
//! it does not.
use crate::app::model::AppView;
use crate::app::notifications::{NotificationView, WtEventSeverity};
use crate::app::types::{
    AppEvent, AutofixDecision, EventContext, KeyCode, KeyEvent, ParsedResponse, PromptTicket,
};
use crate::json::JsonView;
use vstd::prelude::*;

verus! {

/// At most one thing is asked for, and it only tells of something.
pub open spec fn only_tells(before: AppView, after: AppView) -> bool {
    ||| after.effects == before.effects
    ||| after.effects == before.effects.push(after.effects.last()) && (after.effects.last()
        is Publish || after.effects.last() is ChangeSession)
}

/// Nothing that was offered is added.
pub open spec fn offers_no_more(before: AppView, after: AppView) -> bool {
    after.recommendations == before.recommendations || after.recommendations is None
}

/// Ticks, the wheel and the size of the window ask for nothing.
pub proof fn law_the_window_asks_for_nothing(app: AppView, event: AppEvent, ctx: EventContext)
    requires
        event is Tick || event is MouseScroll || event is Resize,
    ensures
        app.with_window_event(event, ctx).effects == app.effects,
        app.with_window_event(event, ctx).recommendations == app.recommendations,
        app.with_window_event(event, ctx).input == app.input,
        app.with_window_event(event, ctx).messages == app.messages,
{
}

/// The connection only tells how it stands.
pub proof fn law_connections_only_tell(app: AppView, event: AppEvent, ctx: EventContext)
    ensures
        only_tells(app, app.with_connection_event(event, ctx)),
        app.with_connection_event(event, ctx).recommendations == app.recommendations,
        app.with_connection_event(event, ctx).input == app.input,
{
}

proof fn lemma_decision(app: AppView, pane: Seq<char>, decision: AutofixDecision)
    ensures
        only_tells(app, app.with_decision(pane, decision)),
        app.with_decision(pane, decision).input == app.input,
{
    match decision {
        AutofixDecision::Fix(set) => {},
        AutofixDecision::Explain { title, explanation } => {},
        AutofixDecision::Ignore => {},
    }
}

proof fn lemma_plain_answer(app: AppView, answer: Seq<char>)
    ensures
        app.with_plain_answer(answer).effects == app.effects,
        app.with_plain_answer(answer).input == app.input,
{
}

proof fn lemma_answer(app: AppView, parsed: ParsedResponse)
    ensures
        only_tells(app, app.with_answer(parsed)),
        app.with_answer(parsed).input == app.input,
{
    let answer = app.pending_agent_response;
    let taken = app.without_answer();
    match (parsed, app.autofix_session_id) {
        (ParsedResponse::Autofix(decision), Some(pane)) => lemma_decision(taken, pane, decision),
        (ParsedResponse::Recommendations(Err(_)), None) => lemma_plain_answer(taken, answer),
        _ => {},
    }
}

proof fn lemma_put_away(app: AppView)
    ensures
        app.with_turn_put_away().effects == app.effects,
        app.with_turn_put_away().input == app.input,
        app.with_stream_ended().effects == app.effects,
        app.with_stream_ended().input == app.input,
        app.without_answer().effects == app.effects,
        app.without_answer().input == app.input,
        app.scrolled_down().effects == app.effects,
        app.scrolled_down().input == app.input,
{
}

/// What the agent says is never acted on by itself: it only tells of something.
pub proof fn law_answers_only_tell(app: AppView, parsed: ParsedResponse)
    ensures
        only_tells(app, app.with_message_end(parsed)),
        app.with_message_end(parsed).input == app.input,
{
    let ended = app.with_stream_ended();
    lemma_put_away(app);
    lemma_put_away(ended);
    lemma_answer(ended, parsed);
    lemma_put_away(ended.with_answer(parsed));
}

/// Messages, tools and plans ask for nothing, and offer nothing.
pub proof fn law_messages_ask_for_nothing(app: AppView, event: AppEvent)
    requires
        !(event is AgentMessageEnd),
    ensures
        app.with_conversation_event(event).effects == app.effects,
        offers_no_more(app, app.with_conversation_event(event)),
        app.with_conversation_event(event).input == app.input,
{
}

/// A request for permission is not answered by itself, and the setup installs
/// nothing by itself.
pub proof fn law_requests_and_setup_ask_for_nothing(app: AppView, event: AppEvent)
    ensures
        app.with_permission_event(event).effects == app.effects,
        app.with_permission_event(event).recommendations == app.recommendations,
        app.with_setup_event(event).effects == app.effects,
        app.with_setup_event(event).recommendations == app.recommendations,
{
}

/// The keys of the chat that ask for something are Enter, Escape and the key of
/// the debug panel; no key but Enter runs, copies or submits anything.
pub proof fn law_other_keys_ask_for_nothing(app: AppView, key: KeyEvent, ticket: PromptTicket)
    requires
        key.code != KeyCode::Enter,
        key.code != KeyCode::Esc,
        key.code != KeyCode::F(12),
    ensures
        app.with_chat_key(key, ticket).effects == app.effects,
        app.with_chat_key(key, ticket).recommendations == app.recommendations,
        app.with_chat_key(key, ticket).messages == app.messages,
{
}

/// Escape only tells of something, and offers nothing.
pub proof fn law_escape_only_tells(app: AppView)
    ensures
        only_tells(app, app.with_escape()),
        offers_no_more(app, app.with_escape()),
        app.with_escape().messages == app.messages,
        app.with_escape().completed_turns == app.completed_turns,
{
}

/// Without a connection Enter asks for nothing.
pub proof fn law_enter_needs_the_connection(app: AppView, ticket: PromptTicket)
    requires
        !(app.state is Connected),
    ensures
        app.with_enter(ticket).effects == app.effects,
        app.with_enter(ticket).input == app.input,
        app.with_enter(ticket).recommendations == app.recommendations,
{
}

/// A notification asks for a diagnosis only where it asks for action, fixes are
/// switched on and the pane is not an agent's; else it asks for nothing but what is
/// delegated.
pub proof fn law_notifications_ask_only_for_action(
    app: AppView,
    method: Seq<char>,
    session: Seq<char>,
    params: JsonView,
    n: NotificationView,
    ctx: EventContext,
)
    requires
        n.severity != WtEventSeverity::Actionable || ctx.agent_pane || !app.autofix_enabled,
        method != "agent_prompt"@,
        method != "vt_sequence"@,
    ensures
        app.with_notification(method, session, params, n, ctx).effects == app.effects,
        app.with_notification(method, session, params, n, ctx).recommendations
            == app.recommendations,
{
}

/// A failure while there is no connection, or while fixes are switched off, asks
/// for nothing.
pub proof fn law_failures_need_the_connection(
    app: AppView,
    n: NotificationView,
    ticket: PromptTicket,
)
    requires
        !app.autofix_enabled || !(app.state is Connected),
    ensures
        app.with_failure(n, ticket) == app,
{
}

/// Changing tabs asks for nothing and leaves the input and the offer.
pub proof fn law_tabs_ask_for_nothing(app: AppView, params: JsonView)
    ensures
        app.with_tab_change(params).effects == app.effects,
        app.with_tab_change(params).input == app.input,
        app.with_tab_change(params).recommendations == app.recommendations,
        app.with_tab_change(params).prompt_in_flight == app.prompt_in_flight,
{
}

} // verus!
