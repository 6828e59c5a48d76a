//! What holds of the application whatever happens to it.
use super::keys;
use super::model;
use super::model::AppView;
use super::notifications::{NotificationView, WtEventSeverity};
use super::setup;
use super::state;
use super::terminal_events;
use super::types::{
    AgentSession, AppEvent, AutofixDecision, EffectView, EventContext, KeyCode, KeyEvent,
    ParsedResponse, PermissionView, PromptTicket, ResumeProfile, Screen, SharedStateSnapshot,
    TabView,
};
use super::update;
use crate::coordinator;
use crate::coordinator::{ChoiceView, SetView};
use crate::json::JsonView;
use crate::text;
use vstd::prelude::*;

verus! {

/// The turns that are selected and open in a conversation are turns of it.
pub open spec fn turns_in_range(shown: TabView) -> bool {
    &&& shown.selected_history matches Some(i) ==> i < shown.completed_turns.len()
    &&& shown.expanded_history matches Some(i) ==> i < shown.completed_turns.len()
}

/// The selected answer of a request is one of its answers, where it has any.
pub open spec fn answer_in_range(permission: Option<PermissionView>) -> bool {
    permission matches Some(request) ==> request.options.len() == 0 || request.selected
        < request.options.len()
}

/// The selected choice is one of the set, where it has any.
pub open spec fn choice_in_range(set: Option<SetView>, selected: usize) -> bool {
    set matches Some(set) ==> set.choices.len() == 0 || selected < set.choices.len()
}

/// The same holds of every tab that is not in front.
pub open spec fn tabs_in_range(tabs: Map<Seq<char>, TabView>) -> bool {
    forall|tab: Seq<char>| tabs.dom().contains(tab) ==> turns_in_range(#[trigger] tabs[tab])
}

impl AppView {
    /// What is selected exists, and what is kept does not grow without end.
    pub open spec fn sound(self) -> bool {
        &&& self.wt_notifications.len() <= terminal_events::MAX_NOTIFICATIONS
        &&& self.debug_messages.len() <= update::MAX_DEBUG_MESSAGES
        &&& self.activity_frame < 10
        &&& self.selected_button < 3
        &&& self.setup matches Some(setup) ==> setup.selected_index <= 1
        &&& answer_in_range(self.permission)
        &&& choice_in_range(self.recommendations, self.selected_recommendation)
        &&& turns_in_range(self.conversation())
        &&& tabs_in_range(self.tab_sessions)
    }
}

/// An application that has just been started is sound.
pub proof fn law_first_state_is_sound(
    wt_connected: bool,
    autofix_enabled: bool,
    log_agent_events: bool,
)
    ensures
        state::first_state(wt_connected, autofix_enabled, log_agent_events).sound(),
{
}

proof fn lemma_recommended_in_range(set: SetView)
    ensures
        choice_in_range(Some(set), coordinator::recommended_index(set) as usize),
{
    match set.recommended_choice {
        Some(number) => coordinator::lemma_choice_at(set.choices, number, 0),
        None => {},
    }
}

proof fn lemma_setup_key_keeps_sound(app: AppView, key: KeyEvent)
    requires
        app.sound(),
    ensures
        app.with_setup_key(key).sound(),
{
}

proof fn lemma_permission_key_keeps_sound(app: AppView, code: KeyCode)
    requires
        app.sound(),
        app.permission is Some,
    ensures
        app.with_permission_key(code).sound(),
{
}

proof fn lemma_agents_key_keeps_sound(app: AppView, code: KeyCode, ctx: EventContext)
    requires
        app.sound(),
    ensures
        app.with_agents_key(code, ctx).sound(),
{
}

proof fn lemma_commit_keeps_sound(app: AppView)
    requires
        app.sound(),
    ensures
        app.with_committed_turn().sound(),
        app.with_committed_turn().without_recommendations().sound(),
{
}

proof fn lemma_choice_taken_keeps_sound(app: AppView, choice: ChoiceView)
    requires
        app.sound(),
    ensures
        app.with_choice_taken(choice).sound(),
{
    lemma_commit_keeps_sound(app.without_fix());
    match super::cards::first_input(choice.actions, 0) {
        Some(input) => {
            let copied = app.asks(EffectView::CopyText(input));
            lemma_commit_keeps_sound(copied.without_fix());
        },
        None => {},
    }
}

proof fn lemma_prompt_keeps_sound(app: AppView, prompt: Seq<char>)
    requires
        app.sound(),
    ensures
        app.with_prompt(prompt).sound(),
{
}

proof fn lemma_enter_keeps_sound(app: AppView, ticket: PromptTicket)
    requires
        app.sound(),
    ensures
        app.with_enter(ticket).sound(),
{
    if app.on_cards() && app.state is Connected {
        match app.selected_choice() {
            Some(choice) => lemma_choice_taken_keeps_sound(app, choice),
            None => {},
        }
    } else if app.walks_history() {
    } else if app.input.len() > 0 && app.state is Connected {
        lemma_prompt_keeps_sound(app.without_input(), app.input);
    }
}

proof fn lemma_escape_keeps_sound(app: AppView)
    requires
        app.sound(),
    ensures
        app.with_escape().sound(),
{
}

proof fn lemma_card_keeps_sound(app: AppView, index: usize)
    requires
        app.sound(),
        choice_in_range(app.recommendations, index),
    ensures
        app.with_selected_card(index).sound(),
{
}

proof fn lemma_vertical_keeps_sound(app: AppView)
    requires
        app.sound(),
    ensures
        app.with_up().sound(),
        app.with_down().sound(),
{
    if app.on_cards() {
        if app.selected_recommendation > 0 {
            lemma_card_keeps_sound(app, (app.selected_recommendation - 1) as usize);
        }
        if app.selected_recommendation + 1 < app.recommendations->0.choices.len() {
            lemma_card_keeps_sound(app, (app.selected_recommendation + 1) as usize);
        }
    }
}

proof fn lemma_horizontal_keeps_sound(app: AppView, control: bool)
    requires
        app.sound(),
    ensures
        app.with_left(control).sound(),
        app.with_right(control).sound(),
        app.with_next_button().sound(),
{
}

proof fn lemma_paging_keeps_sound(app: AppView, shift: bool)
    requires
        app.sound(),
    ensures
        app.with_page_up(shift).sound(),
        app.with_page_down(shift).sound(),
        app.with_debug_toggled().sound(),
        app.with_interrupt().sound(),
{
}

proof fn lemma_typing_keeps_sound(app: AppView, c: char, pos: nat)
    requires
        app.sound(),
    ensures
        app.with_typed(c).sound(),
        app.with_deleted_before().sound(),
        app.with_deleted_after().sound(),
        app.with_cursor(pos).sound(),
{
}

proof fn lemma_chat_key_keeps_sound(app: AppView, key: KeyEvent, ticket: PromptTicket)
    requires
        app.sound(),
    ensures
        app.with_chat_key(key, ticket).sound(),
{
    let after = app.with_chat_key(key, ticket);
    match key.code {
        KeyCode::Enter => {
            lemma_enter_keeps_sound(app, ticket);
            lemma_typing_keeps_sound(app, '\n', 0);
        },
        KeyCode::Esc => lemma_escape_keeps_sound(app),
        KeyCode::Up | KeyCode::Down => lemma_vertical_keeps_sound(app),
        KeyCode::Left | KeyCode::Right | KeyCode::Tab => lemma_horizontal_keeps_sound(
            app,
            key.modifiers.control,
        ),
        KeyCode::PageUp | KeyCode::PageDown | KeyCode::F(_) => lemma_paging_keeps_sound(
            app,
            key.modifiers.shift,
        ),
        KeyCode::Char(c) => {
            lemma_typing_keeps_sound(app, c, 0);
            lemma_paging_keeps_sound(app, key.modifiers.shift);
        },
        KeyCode::Home => lemma_typing_keeps_sound(app, ' ', 0),
        KeyCode::End => lemma_typing_keeps_sound(app, ' ', text::byte_len(app.input)),
        KeyCode::Backspace | KeyCode::Delete => lemma_typing_keeps_sound(app, ' ', 0),
        KeyCode::Other => {},
    }
}

proof fn lemma_key_keeps_sound(app: AppView, key: KeyEvent, ctx: EventContext)
    requires
        app.sound(),
    ensures
        app.with_key(key, ctx).sound(),
{
    if keys::toggles_screen(key) {
    } else if app.current_view == Screen::Agents {
        lemma_agents_key_keeps_sound(app, key.code, ctx);
    } else if app.mode == super::types::AppMode::Setup {
        lemma_setup_key_keeps_sound(app, key);
    } else if app.permission is Some {
        lemma_permission_key_keeps_sound(app, key.code);
    } else {
        lemma_chat_key_keeps_sound(app, key, ctx.ticket);
    }
}

proof fn lemma_ticked_is_no_longer(list: Seq<NotificationView>)
    ensures
        update::ticked(list).len() <= list.len(),
    decreases list.len(),
{
    if list.len() > 0 {
        lemma_ticked_is_no_longer(list.drop_last());
    }
}

proof fn lemma_window_event_keeps_sound(app: AppView, event: AppEvent, ctx: EventContext)
    requires
        app.sound(),
    ensures
        app.with_window_event(event, ctx).sound(),
{
    match event {
        AppEvent::Key(key) => lemma_key_keeps_sound(app, key, ctx),
        AppEvent::Tick => lemma_ticked_is_no_longer(app.wt_notifications),
        _ => {},
    }
}

proof fn lemma_connection_event_keeps_sound(app: AppView, event: AppEvent, ctx: EventContext)
    requires
        app.sound(),
    ensures
        app.with_connection_event(event, ctx).sound(),
{
}

proof fn lemma_offer_keeps_sound(app: AppView, set: SetView)
    requires
        app.sound(),
    ensures
        app.offers(set).sound(),
{
    lemma_recommended_in_range(set);
}

proof fn lemma_explanation_keeps_sound(
    app: AppView,
    pane: Seq<char>,
    title: Seq<char>,
    explanation: Seq<char>,
)
    requires
        app.sound(),
    ensures
        app.with_explanation(pane, title, explanation).sound(),
{
}

proof fn lemma_decision_keeps_sound(app: AppView, pane: Seq<char>, decision: AutofixDecision)
    requires
        app.sound(),
    ensures
        app.with_decision(pane, decision).sound(),
{
    match decision {
        AutofixDecision::Fix(set) => {
            let told = app.publishes(
                model::fix_event(
                    "armed"@,
                    pane,
                    seq![
                        ("fix_preview"@, JsonView::Text(super::cards::fix_preview(set@))),
                        ("hotkey_hint"@, JsonView::Text("Ctrl+Alt+."@)),
                    ],
                ),
            );
            lemma_offer_keeps_sound(told, set@);
        },
        AutofixDecision::Explain { title, explanation } => lemma_explanation_keeps_sound(
            app,
            pane,
            title@,
            explanation@,
        ),
        AutofixDecision::Ignore => {},
    }
}

proof fn lemma_staging_keeps_sound(app: AppView, answer: Seq<char>)
    requires
        app.sound(),
    ensures
        app.with_staged_turn(answer).sound(),
{
}

proof fn lemma_new_chat_keeps_sound(app: AppView)
    requires
        app.sound(),
    ensures
        app.with_new_chat().sound(),
        app.with_turn_put_away().sound(),
        app.at_rest().sound(),
        app.with_stream_ended().sound(),
        app.without_answer().sound(),
{
}

proof fn lemma_plain_answer_keeps_sound(app: AppView, answer: Seq<char>)
    requires
        app.sound(),
    ensures
        app.with_plain_answer(answer).sound(),
{
    let cleared = AppView { pending_completed_turn: None, ..app.without_recommendations() };
    let staged = cleared.with_staged_turn(answer);
    lemma_staging_keeps_sound(cleared, answer);
    lemma_commit_keeps_sound(staged);
    lemma_new_chat_keeps_sound(staged.with_committed_turn());
}

proof fn lemma_answer_keeps_sound(app: AppView, parsed: ParsedResponse)
    requires
        app.sound(),
    ensures
        app.with_answer(parsed).sound(),
{
    let answer = app.pending_agent_response;
    let taken = app.without_answer();
    match (parsed, app.autofix_session_id) {
        (ParsedResponse::Autofix(decision), Some(pane)) => lemma_decision_keeps_sound(
            taken,
            pane,
            decision,
        ),
        (ParsedResponse::Recommendations(Ok(set)), None) => lemma_offer_keeps_sound(
            taken.with_staged_turn(answer),
            set@,
        ),
        (ParsedResponse::Recommendations(Err(_)), None) => lemma_plain_answer_keeps_sound(
            taken,
            answer,
        ),
        _ => {},
    }
}

proof fn lemma_message_end_keeps_sound(app: AppView, parsed: ParsedResponse)
    requires
        app.sound(),
    ensures
        app.with_message_end(parsed).sound(),
{
    let ended = app.with_stream_ended();
    lemma_new_chat_keeps_sound(app);
    lemma_new_chat_keeps_sound(ended);
    lemma_answer_keeps_sound(ended, parsed);
    lemma_new_chat_keeps_sound(ended.with_answer(parsed));
}

proof fn lemma_telling_keeps_sound(app: AppView, message: super::types::ChatView)
    requires
        app.sound(),
    ensures
        app.tells(message).sound(),
        app.scrolled_down().sound(),
{
}

proof fn lemma_talk_keeps_sound(app: AppView, a: Seq<char>, b: Seq<char>, c: Seq<char>)
    requires
        app.sound(),
    ensures
        app.with_thought(a).sound(),
        app.with_piece(a).sound(),
        app.with_tool(a, b, c).sound(),
        app.with_tool_status(a, b).sound(),
{
}

proof fn lemma_conversation_event_keeps_sound(app: AppView, event: AppEvent)
    requires
        app.sound(),
    ensures
        app.with_conversation_event(event).sound(),
{
    let none = Seq::<char>::empty();
    match event {
        AppEvent::UserMessage(message) => {
            lemma_prompt_keeps_sound(app, message@);
            lemma_telling_keeps_sound(
                app.with_prompt(message@),
                super::types::ChatView::User(message@),
            );
        },
        AppEvent::ExecutionInfo(_) => lemma_telling_keeps_sound(
            app,
            super::types::ChatView::User(none),
        ),
        AppEvent::AgentThoughtChunk(piece) => lemma_talk_keeps_sound(app, piece@, none, none),
        AppEvent::AgentMessageChunk(piece) => lemma_talk_keeps_sound(app, piece@, none, none),
        AppEvent::AgentMessageEnd(parsed) => lemma_message_end_keeps_sound(app, parsed),
        AppEvent::ToolCall { id, title, status } => {
            lemma_talk_keeps_sound(app, id@, title@, status@);
            lemma_telling_keeps_sound(
                app.with_tool(id@, title@, status@),
                super::types::ChatView::ToolCall { id: id@, title: title@, status: status@ },
            );
        },
        AppEvent::ToolCallUpdate { id, status } => lemma_talk_keeps_sound(
            app,
            id@,
            status@,
            none,
        ),
        AppEvent::Plan(entries) => lemma_telling_keeps_sound(
            app,
            super::types::ChatView::Plan(super::types::plan_view(entries@)),
        ),
        AppEvent::SystemMessage(message) => lemma_telling_keeps_sound(
            app,
            super::types::ChatView::System(message@),
        ),
        _ => {},
    }
}

proof fn lemma_permission_event_keeps_sound(app: AppView, event: AppEvent)
    requires
        app.sound(),
    ensures
        app.with_permission_event(event).sound(),
{
}

proof fn lemma_setup_event_keeps_sound(app: AppView, event: AppEvent)
    requires
        app.sound(),
    ensures
        app.with_setup_event(event).sound(),
{
}

/// The application is sound but for the selected and open turn.
spec fn almost_sound(app: AppView) -> bool {
    &&& app.wt_notifications.len() <= terminal_events::MAX_NOTIFICATIONS
    &&& app.debug_messages.len() <= update::MAX_DEBUG_MESSAGES
    &&& app.activity_frame < 10
    &&& app.selected_button < 3
    &&& app.setup matches Some(setup) ==> setup.selected_index <= 1
    &&& answer_in_range(app.permission)
    &&& choice_in_range(app.recommendations, app.selected_recommendation)
    &&& tabs_in_range(app.tab_sessions)
}

/// What the shared state brings, with the recommended choice selected where the
/// recommendations are new.
spec fn adopted(app: AppView, shared: SharedStateSnapshot) -> AppView {
    let adopted = app.adopting(shared);
    if app.recommendations != adopted.recommendations {
        adopted.with_recommended_selected()
    } else {
        adopted
    }
}

proof fn lemma_adopted(app: AppView, shared: SharedStateSnapshot)
    requires
        app.sound(),
    ensures
        almost_sound(adopted(app, shared)),
{
    match app.adopting(shared).recommendations {
        Some(set) => lemma_recommended_in_range(set),
        None => {},
    }
}

proof fn lemma_latest_turn(app: AppView)
    requires
        almost_sound(app),
    ensures
        almost_sound(app.with_latest_turn()),
{
}

proof fn lemma_brought_in_range(
    app: AppView,
    shared: Option<super::types::SharedPermission>,
)
    requires
        almost_sound(app),
    ensures
        app.with_permission(
            setup::shared_permission(app.permission, shared),
        ).with_history_in_range().sound(),
{
}

proof fn lemma_login_keeps_sound(
    app: AppView,
    message: Seq<char>,
    profile: crate::preflight::AgentProfile,
)
    requires
        app.sound(),
    ensures
        app.with_login_wanted(message, profile).sound(),
{
}

proof fn lemma_snapshot_keeps_sound(
    app: AppView,
    shared: SharedStateSnapshot,
    profile: crate::preflight::AgentProfile,
)
    requires
        app.sound(),
    ensures
        app.with_snapshot(shared, profile).sound(),
{
    lemma_login_keeps_sound(app, shared.state@->Failed_0, profile);
    lemma_adopted(app, shared);
    let selected = adopted(app, shared);
    lemma_latest_turn(selected);
    lemma_brought_in_range(selected, shared.permission);
    lemma_brought_in_range(selected.with_latest_turn(), shared.permission);
}

proof fn lemma_tab_keeps_sound(app: AppView, tab: Seq<char>)
    requires
        app.sound(),
    ensures
        app.in_tab(tab).sound(),
        app.with_tab(tab).sound(),
{
}

proof fn lemma_fix_request_keeps_sound(app: AppView, pane: Seq<char>)
    requires
        app.sound(),
    ensures
        app.with_fix_requested(pane).sound(),
{
    lemma_commit_keeps_sound(app.without_fix());
}

proof fn lemma_failure_keeps_sound(app: AppView, n: NotificationView, ticket: PromptTicket)
    requires
        app.sound(),
    ensures
        app.with_failure(n, ticket).sound(),
{
}

proof fn lemma_queue_keeps_sound(app: AppView, n: NotificationView)
    requires
        app.sound(),
    ensures
        app.with_queued(n).sound(),
{
}

proof fn lemma_marker_keeps_sound(app: AppView, session: Seq<char>, sequence: Seq<char>)
    requires
        app.sound(),
    ensures
        app.with_shell_marker(session, sequence).sound(),
{
}

proof fn lemma_notification_keeps_sound(
    app: AppView,
    method: Seq<char>,
    session: Seq<char>,
    params: JsonView,
    n: NotificationView,
    ctx: EventContext,
)
    requires
        app.sound(),
    ensures
        app.with_notification(method, session, params, n, ctx).sound(),
{
    match n.severity {
        WtEventSeverity::Critical => lemma_queue_keeps_sound(
            app.says(super::types::ChatView::Error(n.summary)).with_banner().scrolled_down(),
            n,
        ),
        WtEventSeverity::Actionable => {
            lemma_failure_keeps_sound(app.with_banner(), n, ctx.ticket);
            lemma_queue_keeps_sound(app.with_banner().with_failure(n, ctx.ticket), n);
        },
        WtEventSeverity::Informational => {
            let sequence = terminal_events::marker(params);
            lemma_marker_keeps_sound(app, session, sequence);
            lemma_queue_keeps_sound(app.with_shell_marker(session, sequence), n);
            lemma_queue_keeps_sound(app, n);
        },
    }
}

proof fn lemma_terminal_event_keeps_sound(
    app: AppView,
    method: Seq<char>,
    session: Seq<char>,
    params: JsonView,
    ctx: EventContext,
)
    requires
        app.sound(),
    ensures
        app.with_terminal_event(method, session, params, ctx).sound(),
{
    if method == "autofix_execute"@ {
        lemma_fix_request_keeps_sound(app, session);
    } else if method == "tab_changed"@ {
        match params.text_at("tab_id"@) {
            Some(tab) => {
                lemma_tab_keeps_sound(app, tab);
                match params.text_at("from_tab_id"@) {
                    Some(from) => {
                        lemma_tab_keeps_sound(app, from);
                        lemma_tab_keeps_sound(app.in_tab(from), tab);
                    },
                    None => {},
                }
            },
            None => {},
        }
    } else {
        let routed = if method == "agent_event"@ {
            app.with_hook_routed(session, params, ctx)
        } else {
            app
        };
        let told = routed.with_sessions_told(method, session, params, ctx.agent_pane);
        lemma_notification_keeps_sound(
            told,
            method,
            session,
            params,
            super::notifications::classified(method, session, params),
            ctx,
        );
    }
}

proof fn lemma_outside_event_keeps_sound(app: AppView, event: AppEvent, ctx: EventContext)
    requires
        app.sound(),
    ensures
        app.with_outside_event(event, ctx).sound(),
{
    match event {
        AppEvent::SharedStateSnapshot(shared) => lemma_snapshot_keeps_sound(
            app,
            shared,
            ctx.profile,
        ),
        AppEvent::WtEvent { method, session_id, params } => lemma_terminal_event_keeps_sound(
            app,
            method@,
            session_id@,
            params@,
            ctx,
        ),
        _ => {},
    }
}

/// A sound application stays sound whatever happens to it: at most twenty
/// notifications and five hundred debug messages are kept, and what is selected
/// (an answer, a choice, a button, a row of the wizard, a turn of any tab) is
/// there.
pub proof fn law_events_keep_the_application_sound(
    app: AppView,
    event: AppEvent,
    ctx: EventContext,
)
    requires
        app.sound(),
    ensures
        app.with_event(event, ctx).sound(),
{
    match update::kind_of(event) {
        update::EventKind::Window => lemma_window_event_keeps_sound(app, event, ctx),
        update::EventKind::Connection => lemma_connection_event_keeps_sound(app, event, ctx),
        update::EventKind::Conversation => lemma_conversation_event_keeps_sound(app, event),
        update::EventKind::Permission => lemma_permission_event_keeps_sound(app, event),
        update::EventKind::Setup => lemma_setup_event_keeps_sound(app, event),
        update::EventKind::Outside => lemma_outside_event_keeps_sound(app, event, ctx),
    }
}

/// The key that shows the other screen, pressed twice, changes nothing.
pub proof fn law_screen_is_toggled_back(
    app: AppView,
    key: KeyEvent,
    ctx: EventContext,
    again: EventContext,
)
    requires
        keys::toggles_screen(key),
    ensures
        app.with_key(key, ctx).current_view != app.current_view,
        app.with_key(key, ctx).with_key(key, again) == app,
{
}

/// While the list of agents is shown, no key reaches what is behind it: the
/// input, the chat's recommendations, a permission request and the wizard.
pub proof fn law_agents_screen_takes_the_keys(app: AppView, key: KeyEvent, ctx: EventContext)
    requires
        app.current_view == Screen::Agents,
    ensures
        ({
            let after = app.with_key(key, ctx);
            &&& after.input == app.input
            &&& after.cursor_pos == app.cursor_pos
            &&& after.recommendations == app.recommendations
            &&& after.selected_recommendation == app.selected_recommendation
            &&& after.permission == app.permission
            &&& after.setup == app.setup
            &&& after.prompt_in_flight == app.prompt_in_flight
            &&& after.should_quit == app.should_quit
        }),
{
}

/// A session whose agent runs is never opened a second time: at most its pane
/// comes to the front.
pub proof fn law_running_sessions_are_not_resumed(
    app: AppView,
    s: AgentSession,
    resume: ResumeProfile,
)
    requires
        keys::is_live(s.status),
    ensures
        match s.pane_session_id {
            Some(pane) => app.with_session_activated(s, resume) == app.asks(
                EffectView::FocusPane(pane@),
            ),
            None => app.with_session_activated(s, resume) == app,
        },
{
}

/// Only sessions that are over can be removed from the list.
pub proof fn law_running_sessions_stay(app: AppView, ctx: EventContext, modifiers: KeyEvent)
    requires
        app.current_view == Screen::Agents,
        modifiers.code == KeyCode::Delete,
        app.agent_session(ctx.rows@) matches Some(s) && keys::is_live(s.status),
    ensures
        app.with_key(modifiers, ctx) == app,
{
}

/// What happens in the application's own pane is not reported to it, but for
/// requests to run a fix, changes of the tab, and what agents report.
pub proof fn law_own_pane_is_ignored(
    app: AppView,
    method: Seq<char>,
    session: Seq<char>,
    params: JsonView,
    ctx: EventContext,
)
    requires
        app.pane_session_id == Some(session),
        method != "autofix_execute"@,
        method != "tab_changed"@,
        method != "agent_event"@,
    ensures
        app.with_terminal_event(method, session, params, ctx) == app,
{
}

/// What agents report from the application's own pane or session changes no
/// agent session.
pub proof fn law_own_agent_is_not_listed(
    app: AppView,
    session: Seq<char>,
    params: JsonView,
    ctx: EventContext,
)
    requires
        app.pane_session_id == Some(session) || (app.is_own_session(params)
            && terminal_events::hook_name(params) is Some),
    ensures
        app.with_terminal_event("agent_event"@, session, params, ctx).effects == app.effects,
{
    reveal_strlit("agent_event");
    reveal_strlit("autofix_execute");
    reveal_strlit("tab_changed");
    assert("agent_event"@.len() != "autofix_execute"@.len());
    assert("agent_event"@[1] != "tab_changed"@[1]);
}

/// A failure in the pane of an agent is no failed command of the user: no fix is
/// looked for, and nothing is shown.
pub proof fn law_agent_panes_are_not_fixed(
    app: AppView,
    method: Seq<char>,
    session: Seq<char>,
    params: JsonView,
    n: NotificationView,
    ctx: EventContext,
)
    requires
        ctx.agent_pane,
        n.severity == WtEventSeverity::Actionable,
        method != "agent_prompt"@,
    ensures
        app.with_notification(method, session, params, n, ctx) == app,
{
}

/// Where fixes are switched off, a failed command changes nothing.
pub proof fn law_fixes_can_be_switched_off(
    app: AppView,
    method: Seq<char>,
    session: Seq<char>,
    params: JsonView,
    n: NotificationView,
    ctx: EventContext,
)
    requires
        !app.autofix_enabled,
        n.severity == WtEventSeverity::Actionable,
        method != "agent_prompt"@,
    ensures
        app.with_notification(method, session, params, n, ctx) == app,
        app.with_failure(n, ctx.ticket) == app,
{
}

proof fn lemma_all_acknowledged(list: Seq<NotificationView>)
    ensures
        model::latest_open(model::all_acknowledged(list)) is None,
        model::open_count(model::all_acknowledged(list)) == 0,
    decreases list.len(),
{
    if list.len() > 0 {
        lemma_all_acknowledged(list.drop_last());
        assert(model::all_acknowledged(list).drop_last() =~= model::all_acknowledged(
            list.drop_last(),
        ));
    }
}

/// Once the notifications are put away, none is active, none is counted, and
/// the banner is hidden.
pub proof fn law_dismissed_notifications_are_quiet(app: AppView)
    ensures
        !app.with_notifications_dismissed().show_notification_banner,
        model::latest_open(app.with_notifications_dismissed().wt_notifications) is None,
        model::open_count(app.with_notifications_dismissed().wt_notifications) == 0,
{
    lemma_all_acknowledged(app.wt_notifications);
}

/// Critical and actionable notifications do not go away by themselves: after a
/// tick each is still there, a tick older.
pub proof fn law_important_notifications_stay(list: Seq<NotificationView>, i: int)
    requires
        0 <= i < list.len(),
        list[i].severity != WtEventSeverity::Informational,
    ensures
        update::ticked(list).contains(list[i].aged()),
    decreases list.len(),
{
    let before = update::ticked(list.drop_last());
    if i < list.len() - 1 {
        law_important_notifications_stay(list.drop_last(), i);
        assert(list.drop_last()[i] == list[i]);
        let k = choose|k: int| 0 <= k < before.len() && before[k] == list[i].aged();
        assert(update::ticked(list)[k] == list[i].aged());
    } else {
        assert(update::ticked(list).last() == list[i].aged());
    }
}

/// The conversation of a tab is back when the tab is: going to another tab and
/// returning restores it.
pub proof fn law_conversation_survives_another_tab(app: AppView, own: Seq<char>, other: Seq<char>)
    requires
        app.tab_id == Some(own),
        own != other,
    ensures
        app.with_tab(other).with_tab(own).conversation() == app.conversation(),
        app.with_tab(other).with_tab(own).tab_id == Some(own),
        app.with_tab(other).with_tab(own).kept(other) == app.kept(other),
{
}

/// Without a connection nothing is asked of the agent: Enter submits no prompt
/// and runs no choice.
pub proof fn law_enter_needs_a_connection(app: AppView, ticket: PromptTicket)
    requires
        !(app.state is Connected),
    ensures
        app.with_enter(ticket).effects == app.effects,
        app.with_enter(ticket).input == app.input,
{
}

/// A prompt is submitted with the input that was typed, once, and the input is
/// empty then.
pub proof fn law_submission_takes_the_input(app: AppView, ticket: PromptTicket)
    requires
        app.state is Connected,
        app.input.len() > 0,
    ensures
        ({
            let after = app.with_enter(ticket);
            &&& after.input.len() == 0
            &&& after.prompt_in_flight
            &&& after.current_prompt_text == Some(app.input)
            &&& after.effects == app.effects.push(
                EffectView::SubmitPrompt {
                    id: ticket.id,
                    prompt: app.input,
                    context: app.own_context(),
                    autofix: false,
                },
            )
        }),
{
}

proof fn lemma_commit_ends_the_turn(app: AppView)
    ensures
        ({
            let after = app.with_committed_turn().without_recommendations();
            &&& after.recommendations is None
            &&& after.autofix_session_id == app.autofix_session_id
            &&& after.pending_completed_turn is None
        }),
{
}

/// Whatever button of a card is pressed, the card goes, and so does the fix that
/// it offered.
pub proof fn law_taken_choice_ends_the_offer(app: AppView, choice: ChoiceView)
    ensures
        app.with_choice_taken(choice).recommendations is None,
        app.with_choice_taken(choice).autofix_session_id is None,
        app.with_choice_taken(choice).pending_completed_turn is None,
{
    lemma_commit_ends_the_turn(app.without_fix());
    match super::cards::first_input(choice.actions, 0) {
        Some(input) => {
            lemma_commit_ends_the_turn(app.asks(EffectView::CopyText(input)).without_fix());
        },
        None => {},
    }
}

/// A declined fix counts no more: an answer that is on its way for it does not
/// come to be offered.
pub proof fn law_declined_fix_is_withdrawn(app: AppView)
    ensures
        app.with_fix_declined().autofix_generation != app.autofix_generation,
        app.with_fix_declined().autofix_session_id is None,
        app.with_fix_declined().recommendations is None,
        !app.with_fix_declined().prompt_in_flight,
{
}

/// A command that succeeds in the pane of a fix makes the answer on its way
/// stale.
pub proof fn law_success_makes_the_fix_stale(app: AppView, session: Seq<char>, sequence: Seq<char>)
    requires
        super::notifications::command_exit(sequence) == Some(0i32),
        app.autofix_session_id == Some(session),
        app.inflight_autofix_generation == Some(app.autofix_generation),
    ensures
        app.with_shell_marker(session, sequence).is_stale(),
        app.with_shell_marker(session, sequence).autofix_session_id is None,
        app.with_shell_marker(session, sequence).recommendations is None,
{
}

/// A permission request is answered once, and is closed then.
pub proof fn law_answer_closes_the_request(app: AppView, option_id: Seq<char>)
    requires
        app.permission is Some,
    ensures
        app.with_reply(option_id).permission is None,
        app.with_reply(option_id).effects == app.effects.push(
            EffectView::ReplyPermission { direct: app.permission->0.direct, option_id },
        ),
{
}

/// No more of the agent's thoughts is shown than fits.
pub proof fn law_thoughts_stay_short(shown: Seq<char>, piece: Seq<char>)
    requires
        shown.len() <= update::THOUGHT_PREVIEW_MAX_CHARS + 3,
    ensures
        update::thoughts(shown, piece).len() <= update::THOUGHT_PREVIEW_MAX_CHARS + 3,
{
    reveal_strlit("...");
}

} // verus!
