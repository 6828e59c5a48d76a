//! What the events of the terminal do.
use super::agent_events;
use super::agent_events::{agent_event_text, route_agent_event_to_registry};
use super::model::AppView;
use super::notifications;
use super::notifications::{
    classify_wt_event, finished_command, str_or, NotificationView, WtEventSeverity, WtNotification,
};
use super::state::App;
use super::types;
use super::types::{
    ChatMessage, ChatView, Effect, EffectView, EventContext, SessionEvent, SessionView,
};
use crate::json::{Json, JsonView};
use crate::text;
use crate::text::{same_text, starts_with};
use vstd::prelude::*;

verus! {

/// How many notifications are kept.
pub const MAX_NOTIFICATIONS: usize = 20;

/// The notifications with one more; the oldest goes where there are too many.
pub open spec fn queued(
    list: Seq<NotificationView>,
    n: NotificationView,
) -> Seq<NotificationView> {
    let all = list.push(n);
    if all.len() > MAX_NOTIFICATIONS {
        all.skip(1)
    } else {
        all
    }
}

/// The name of the event that a hook of an agent reports.
pub open spec fn hook_name(params: JsonView) -> Option<Seq<char>> {
    match params.text_at("event"@) {
        Some(event) => if text::has_prefix(event, "agent."@) {
            Some(event)
        } else {
            None
        },
        None => None,
    }
}

/// The marker of the shell in an event.
pub open spec fn marker(params: JsonView) -> Seq<char> {
    notifications::text_or(params.text_at("sequence"@), Seq::empty())
}

/// What the state of a connection changes among the agent sessions.
pub open spec fn connection_change(
    method: Seq<char>,
    session: Seq<char>,
    params: JsonView,
) -> Option<SessionView> {
    let state = notifications::text_or(params.text_at("state"@), Seq::empty());
    if method != "connection_state"@ {
        None
    } else if state == "failed"@ {
        Some(
            SessionView::ConnectionFailed {
                pane_session_id: session,
                reason: notifications::text_or(params.text_at("reason"@), "connection failed"@),
            },
        )
    } else if state == "closed"@ {
        Some(SessionView::PaneClosed { pane_session_id: session })
    } else {
        None
    }
}

impl AppView {
    pub open spec fn asks_all(self, effects: Seq<EffectView>) -> AppView {
        AppView { effects: self.effects + effects, ..self }
    }

    /// Another tab comes to the front. Where the own tab was not known, the
    /// event tells it.
    pub open spec fn with_tab_change(self, params: JsonView) -> AppView {
        match params.text_at("tab_id"@) {
            Some(tab) => {
                let known = match (self.tab_id, params.text_at("from_tab_id"@)) {
                    (None, Some(from)) => self.in_tab(from),
                    _ => self,
                };
                known.with_tab(tab)
            },
            None => self,
        }
    }

    /// The event comes from the session that the application itself talks to.
    pub open spec fn is_own_session(self, params: JsonView) -> bool {
        self.session_id.len() > 0 && notifications::text_or(
            params.text_at("agent_session_id"@),
            Seq::empty(),
        ) == self.session_id
    }

    /// A hook of an agent reports an event: it changes the agent sessions,
    /// unless the agent is the application's own.
    pub open spec fn with_hook_routed(
        self,
        session: Seq<char>,
        params: JsonView,
        ctx: EventContext,
    ) -> AppView {
        if self.is_own_session(params) || self.pane_session_id == Some(session) {
            self
        } else {
            self.asks_all(
                agent_events::routed(
                    session,
                    params,
                    ctx.session_key@,
                    ctx.session_known,
                    ctx.cwd_label@,
                    text::texts(ctx.user_input_tools@),
                ),
            )
        }
    }

    /// The event of a hook is shown in the chat, where that is wanted.
    pub open spec fn with_hook_shown(self, event: Seq<char>, params: JsonView) -> AppView {
        if self.log_agent_events {
            self.says(
                ChatView::AgentEvent(agent_events::hook_text(event, params)),
            ).scrolled_down()
        } else {
            self
        }
    }

    /// The state of a connection changes the agent sessions, and so does a shell
    /// that prompts where an agent ran.
    pub open spec fn with_sessions_told(
        self,
        method: Seq<char>,
        session: Seq<char>,
        params: JsonView,
        agent_pane: bool,
    ) -> AppView {
        let told = match connection_change(method, session, params) {
            Some(change) => self.asks(EffectView::ChangeSession(change)),
            None => self,
        };
        if method == "vt_sequence"@ && agent_pane && marker(params) == "osc:133;A"@ {
            told.asks(
                EffectView::ChangeSession(SessionView::PaneClosed { pane_session_id: session }),
            )
        } else {
            told
        }
    }

    pub open spec fn with_banner(self) -> AppView {
        AppView { show_notification_banner: true, ..self }
    }

    /// A command succeeded, or the shell prompts: the fix for the pane is not
    /// needed any more, and the explanation is out of date.
    pub open spec fn with_shell_marker(self, session: Seq<char>, sequence: Seq<char>) -> AppView {
        let succeeded = notifications::command_exit(sequence) == Some(0i32);
        let withdrawn = if succeeded && self.autofix_session_id == Some(session) {
            self.with_fix_withdrawn().publishes_cleared(session)
        } else {
            self
        };
        if succeeded || sequence == "osc:133;A"@ {
            withdrawn.without_suggestion()
        } else {
            withdrawn
        }
    }

    pub open spec fn with_queued(self, n: NotificationView) -> AppView {
        AppView { wt_notifications: queued(self.wt_notifications, n), ..self }
    }

    /// A prompt of the command palette is handed on.
    pub open spec fn delegates(self, params: JsonView) -> AppView {
        let prompt = notifications::text_or(params.text_at("prompt"@), Seq::empty());
        if prompt.len() > 0 {
            self.asks(EffectView::Delegate(prompt))
        } else {
            self
        }
    }

    /// The terminal reports an event, classified as `n`.
    pub open spec fn with_notification(
        self,
        method: Seq<char>,
        session: Seq<char>,
        params: JsonView,
        n: NotificationView,
        ctx: EventContext,
    ) -> AppView {
        match n.severity {
            WtEventSeverity::Critical => self.says(
                ChatView::Error(n.summary),
            ).with_banner().scrolled_down().with_queued(n),
            WtEventSeverity::Actionable => if method == "agent_prompt"@ {
                self.delegates(params)
            } else if ctx.agent_pane || !self.autofix_enabled {
                self
            } else {
                self.with_banner().with_failure(n, ctx.ticket).with_queued(n)
            },
            WtEventSeverity::Informational => if method == "vt_sequence"@ {
                self.with_shell_marker(session, marker(params)).with_queued(n)
            } else {
                self.with_queued(n)
            },
        }
    }

    /// An event of another pane.
    pub open spec fn with_pane_event(
        self,
        method: Seq<char>,
        session: Seq<char>,
        params: JsonView,
        ctx: EventContext,
    ) -> AppView {
        self.with_sessions_told(method, session, params, ctx.agent_pane).with_notification(
            method,
            session,
            params,
            notifications::classified(method, session, params),
            ctx,
        )
    }

    /// The terminal reports an event.
    pub open spec fn with_terminal_event(
        self,
        method: Seq<char>,
        session: Seq<char>,
        params: JsonView,
        ctx: EventContext,
    ) -> AppView {
        if method == "autofix_execute"@ {
            self.with_fix_requested(session)
        } else if method == "tab_changed"@ {
            self.with_tab_change(params)
        } else {
            let routed = if method == "agent_event"@ {
                self.with_hook_routed(session, params, ctx)
            } else {
                self
            };
            if method == "agent_event"@ && hook_name(params) is Some {
                routed.with_hook_shown(hook_name(params)->0, params)
            } else if self.pane_session_id == Some(session) {
                routed
            } else {
                routed.with_pane_event(method, session, params, ctx)
            }
        }
    }
}

/// Adds a notification, and drops the oldest where there are too many.
fn enqueue(list: &mut Vec<WtNotification>, n: WtNotification)
    ensures
        notifications::notifications_view(final(list)@) == queued(
            notifications::notifications_view(old(list)@),
            n@,
        ),
{
    let ghost before = list@;
    list.push(n);
    assert(notifications::notifications_view(list@) =~= notifications::notifications_view(
        before,
    ).push(n@));
    if list.len() > MAX_NOTIFICATIONS {
        let ghost all = list@;
        let _ = list.remove(0);
        assert(notifications::notifications_view(list@) =~= notifications::notifications_view(
            all,
        ).skip(1));
    }
}

fn session_change(method: &str, session: &str, params: &Json) -> (change: Option<SessionEvent>)
    ensures
        match change {
            Some(change) => connection_change(method@, session@, params@) == Some(change@),
            None => connection_change(method@, session@, params@) is None,
        },
{
    if !same_text(method, "connection_state") {
        return None;
    }
    proof {
        reveal_strlit("");
        assert(""@ =~= Seq::<char>::empty());
    }
    let state = str_or(params.str_at("state"), "");
    if same_text(state, "failed") {
        return Some(
            SessionEvent::ConnectionFailed {
                pane_session_id: session.to_owned(),
                reason: str_or(params.str_at("reason"), "connection failed").to_owned(),
            },
        );
    }
    if same_text(state, "closed") {
        return Some(SessionEvent::PaneClosed { pane_session_id: session.to_owned() });
    }
    None
}

/// The marker of the shell in an event.
fn shell_marker(params: &Json) -> (sequence: &str)
    ensures
        sequence@ == marker(params@),
{
    proof {
        reveal_strlit("");
        assert(""@ =~= Seq::<char>::empty());
    }
    str_or(params.str_at("sequence"), "")
}

/// The name of the event that a hook of an agent reports.
fn reported_event(params: &Json) -> (event: Option<&str>)
    ensures
        match event {
            Some(event) => hook_name(params@) == Some(event@),
            None => hook_name(params@) is None,
        },
{
    match params.str_at("event") {
        Some(event) => if starts_with(event, "agent.") {
            Some(event)
        } else {
            None
        },
        None => None,
    }
}

impl App {
    fn ask_all(&mut self, effects: Vec<Effect>)
        ensures
            final(self)@ == old(self)@.asks_all(types::effects_view(effects@)),
    {
        let ghost before = self.effects@;
        let ghost added = effects@;
        let mut effects = effects;
        self.effects.append(&mut effects);
        assert(self.effects@ =~= before + added);
        assert(types::effects_view(self.effects@) =~= types::effects_view(before)
            + types::effects_view(added));
    }

    fn is_own_pane(&self, session: &str) -> (yes: bool)
        ensures
            yes == (self@.pane_session_id == Some(session@)),
    {
        match &self.pane_session_id {
            Some(own) => same_text(own.as_str(), session),
            None => false,
        }
    }

    fn is_own_session(&self, params: &Json) -> (yes: bool)
        ensures
            yes == self@.is_own_session(params@),
    {
        proof {
            reveal_strlit("");
            assert(""@ =~= Seq::<char>::empty());
        }
        let named = str_or(params.str_at("agent_session_id"), "");
        !self.session_id.as_str().is_empty() && same_text(named, self.session_id.as_str())
    }

    fn learn_tab(&mut self, tab: String)
        ensures
            final(self)@ == old(self)@.in_tab(tab@),
    {
        self.tab_id = Some(tab);
    }

    fn change_tab(&mut self, params: &Json)
        ensures
            final(self)@ == old(self)@.with_tab_change(params@),
    {
        let tab = match params.str_at("tab_id") {
            Some(tab) => tab,
            None => return,
        };
        if self.tab_id.is_none() {
            if let Some(from) = params.str_at("from_tab_id") {
                self.learn_tab(from.to_owned());
            }
        }
        self.switch_tab_session(tab.to_owned());
    }

    fn route_hook(&mut self, session: &str, params: &Json, ctx: &EventContext)
        ensures
            final(self)@ == old(self)@.with_hook_routed(session@, params@, *ctx),
    {
        if self.is_own_session(params) || self.is_own_pane(session) {
            return;
        }
        let effects = route_agent_event_to_registry(
            session,
            params,
            ctx.session_key.as_str(),
            ctx.session_known,
            ctx.cwd_label.as_str(),
            &ctx.user_input_tools,
        );
        self.ask_all(effects);
    }

    /// Shows the event of a hook in the chat, where that is wanted.
    fn display_agent_hook_event(&mut self, event: &str, params: &Json)
        ensures
            final(self)@ == old(self)@.with_hook_shown(event@, params@),
    {
        if self.log_agent_events {
            self.say(ChatMessage::AgentEvent(agent_event_text(event, params)));
            self.scroll_to_bottom();
        }
    }

    fn tell_sessions(&mut self, method: &str, session: &str, params: &Json, agent_pane: bool)
        ensures
            final(self)@ == old(self)@.with_sessions_told(method@, session@, params@, agent_pane),
    {
        if let Some(change) = session_change(method, session, params) {
            self.ask(Effect::ChangeSession(change));
        }
        if same_text(method, "vt_sequence") && agent_pane && same_text(
            shell_marker(params),
            "osc:133;A",
        ) {
            self.ask(
                Effect::ChangeSession(
                    SessionEvent::PaneClosed { pane_session_id: session.to_owned() },
                ),
            );
        }
    }

    fn show_banner(&mut self)
        ensures
            final(self)@ == old(self)@.with_banner(),
    {
        self.show_notification_banner = true;
    }

    fn see_shell_marker(&mut self, session: &str, sequence: &str)
        ensures
            final(self)@ == old(self)@.with_shell_marker(session@, sequence@),
    {
        let succeeded: bool = match finished_command(sequence) {
            Some(code) => code == 0,
            None => false,
        };
        if succeeded && self.waits_for_fix(session) {
            self.withdraw_fix();
            self.emit_autofix_state_cleared(session);
        }
        if succeeded || same_text(sequence, "osc:133;A") {
            self.dismiss_suggestion();
        }
    }

    fn queue(&mut self, n: WtNotification)
        ensures
            final(self)@ == old(self)@.with_queued(n@),
    {
        enqueue(&mut self.wt_notifications, n);
    }

    fn delegate(&mut self, params: &Json)
        ensures
            final(self)@ == old(self)@.delegates(params@),
    {
        proof {
            reveal_strlit("");
            assert(""@ =~= Seq::<char>::empty());
        }
        let prompt = str_or(params.str_at("prompt"), "");
        if !prompt.is_empty() {
            self.ask(Effect::Delegate(prompt.to_owned()));
        }
    }

    fn take_notification(
        &mut self,
        method: &str,
        session: &str,
        params: &Json,
        n: WtNotification,
        ctx: &EventContext,
    )
        ensures
            final(self)@ == old(self)@.with_notification(method@, session@, params@, n@, *ctx),
    {
        match n.severity {
            WtEventSeverity::Critical => {
                self.say(ChatMessage::Error(n.summary.clone()));
                self.show_banner();
                self.scroll_to_bottom();
                self.queue(n);
            },
            WtEventSeverity::Actionable => {
                if same_text(method, "agent_prompt") {
                    self.delegate(params);
                } else if !ctx.agent_pane && self.autofix_enabled {
                    self.show_banner();
                    self.maybe_trigger_autofix(&n, ctx.ticket);
                    self.queue(n);
                }
            },
            WtEventSeverity::Informational => {
                if same_text(method, "vt_sequence") {
                    self.see_shell_marker(session, shell_marker(params));
                }
                self.queue(n);
            },
        }
    }

    fn take_pane_event(&mut self, method: &str, session: &str, params: &Json, ctx: &EventContext)
        ensures
            final(self)@ == old(self)@.with_pane_event(method@, session@, params@, *ctx),
    {
        self.tell_sessions(method, session, params, ctx.agent_pane);
        let n = classify_wt_event(method, session, params);
        self.take_notification(method, session, params, n, ctx);
    }

    /// Takes an event of the terminal.
    pub fn handle_wt_event(
        &mut self,
        method: &str,
        session: &str,
        params: &Json,
        ctx: &EventContext,
    )
        ensures
            final(self)@ == old(self)@.with_terminal_event(method@, session@, params@, *ctx),
    {
        if same_text(method, "autofix_execute") {
            self.handle_autofix_execute_request(session);
            return;
        }
        if same_text(method, "tab_changed") {
            self.change_tab(params);
            return;
        }
        if same_text(method, "agent_event") {
            self.route_hook(session, params, ctx);
            if let Some(event) = reported_event(params) {
                self.display_agent_hook_event(event, params);
                return;
            }
        }
        if !self.is_own_pane(session) {
            self.take_pane_event(method, session, params, ctx);
        }
    }
}

} // verus!
