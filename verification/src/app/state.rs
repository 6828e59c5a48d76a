//! The state of the application and its smaller steps.
use super::cards;
use super::cards::rec_panel_height;
use super::model;
use super::model::AppView;
use super::notifications;
use super::notifications::{WtEventSeverity, WtNotification};
use super::types;
use super::types::{
    AppMode, ChatMessage, ChatView, CompletedTurn, ConnectionState, ConnectionView, DebugMessage,
    Effect, PaneContext, PermissionState, Screen, SetupState, TabSession, ToolCallEntry,
};
use crate::coordinator;
use crate::coordinator::RecommendationSet;
use crate::json;
use crate::json::{add_member, compact_text, object, opt_text_value, text_value, Json, JsonView};
use crate::text::clone_text;
use crate::text_map::TextMap;
use vstd::prelude::*;

verus! {

/// The application.
pub struct App {
    pub mode: AppMode,
    pub setup: Option<SetupState>,
    pub state: ConnectionState,
    pub agent_name: String,
    pub agent_model: Option<String>,
    pub agent_version: Option<String>,
    pub prompt_name: Option<String>,
    pub progress_status: Option<String>,
    pub activity_frame: usize,
    pub session_id: String,
    pub wt_connected: bool,
    pub messages: Vec<ChatMessage>,
    pub completed_turns: Vec<CompletedTurn>,
    pub selected_history: Option<usize>,
    pub expanded_history: Option<usize>,
    pub input: String,
    pub cursor_pos: usize,
    pub tool_calls: TextMap<ToolCallEntry>,
    pub permission: Option<PermissionState>,
    pub scroll_offset: usize,
    pub agent_streaming: bool,
    pub recommendations: Option<RecommendationSet>,
    pub selected_recommendation: usize,
    pub selected_button: usize,
    pub rec_scroll: usize,
    pub terminal_rows: u16,
    pub terminal_cols: u16,
    pub should_quit: bool,
    pub prompt_in_flight: bool,
    pub current_prompt_id: Option<u64>,
    pub current_prompt_stamp: Option<u64>,
    pub selection_visible_pending: bool,
    pub pending_thought_response: String,
    pub pending_agent_response: String,
    pub timing_note: Option<String>,
    pub debug_messages: Vec<DebugMessage>,
    pub show_debug_panel: bool,
    pub debug_scroll: usize,
    pub pane_session_id: Option<String>,
    pub tab_id: Option<String>,
    pub window_id: Option<String>,
    pub source_session_id: Option<String>,
    pub source_cwd: Option<String>,
    pub current_view: Screen,
    pub agents_selected: Option<usize>,
    pub current_prompt_text: Option<String>,
    pub pending_completed_turn: Option<CompletedTurn>,
    pub wt_notifications: Vec<WtNotification>,
    pub show_notification_banner: bool,
    pub autofix_session_id: Option<String>,
    pub suggested_session_id: Option<String>,
    pub autofix_enabled: bool,
    pub log_agent_events: bool,
    pub autofix_generation: u64,
    pub inflight_autofix_generation: Option<u64>,
    pub tab_sessions: TextMap<TabSession>,
    pub can_install: bool,
    pub effects: Vec<Effect>,
}

impl View for App {
    type V = AppView;

    open spec fn view(&self) -> AppView {
        AppView {
            mode: self.mode,
            setup: types::setup_seen(self.setup),
            state: self.state@,
            agent_name: self.agent_name@,
            agent_model: coordinator::seen(self.agent_model),
            agent_version: coordinator::seen(self.agent_version),
            prompt_name: coordinator::seen(self.prompt_name),
            progress_status: coordinator::seen(self.progress_status),
            activity_frame: self.activity_frame,
            session_id: self.session_id@,
            wt_connected: self.wt_connected,
            messages: types::chat_view(self.messages@),
            completed_turns: types::turns_view(self.completed_turns@),
            selected_history: self.selected_history,
            expanded_history: self.expanded_history,
            input: self.input@,
            cursor_pos: self.cursor_pos,
            tool_calls: types::tools_map(self.tool_calls@),
            permission: types::permission_seen(self.permission),
            scroll_offset: self.scroll_offset,
            agent_streaming: self.agent_streaming,
            recommendations: cards::set_seen(self.recommendations),
            selected_recommendation: self.selected_recommendation,
            selected_button: self.selected_button,
            rec_scroll: self.rec_scroll,
            terminal_rows: self.terminal_rows,
            terminal_cols: self.terminal_cols,
            should_quit: self.should_quit,
            prompt_in_flight: self.prompt_in_flight,
            current_prompt_id: self.current_prompt_id,
            current_prompt_stamp: self.current_prompt_stamp,
            selection_visible_pending: self.selection_visible_pending,
            pending_thought_response: self.pending_thought_response@,
            pending_agent_response: self.pending_agent_response@,
            timing_note: coordinator::seen(self.timing_note),
            debug_messages: types::debug_view(self.debug_messages@),
            show_debug_panel: self.show_debug_panel,
            debug_scroll: self.debug_scroll,
            pane_session_id: coordinator::seen(self.pane_session_id),
            tab_id: coordinator::seen(self.tab_id),
            window_id: coordinator::seen(self.window_id),
            source_session_id: coordinator::seen(self.source_session_id),
            source_cwd: coordinator::seen(self.source_cwd),
            current_view: self.current_view,
            agents_selected: self.agents_selected,
            current_prompt_text: coordinator::seen(self.current_prompt_text),
            pending_completed_turn: types::turn_seen(self.pending_completed_turn),
            wt_notifications: notifications::notifications_view(self.wt_notifications@),
            show_notification_banner: self.show_notification_banner,
            autofix_session_id: coordinator::seen(self.autofix_session_id),
            suggested_session_id: coordinator::seen(self.suggested_session_id),
            autofix_enabled: self.autofix_enabled,
            log_agent_events: self.log_agent_events,
            autofix_generation: self.autofix_generation,
            inflight_autofix_generation: self.inflight_autofix_generation,
            tab_sessions: types::tabs_map(self.tab_sessions@),
            can_install: self.can_install,
            effects: types::effects_view(self.effects@),
        }
    }
}

/// What the application starts with.
pub open spec fn first_state(
    wt_connected: bool,
    autofix_enabled: bool,
    log_agent_events: bool,
) -> AppView {
    AppView {
        mode: AppMode::Chat,
        setup: None,
        state: ConnectionView::Connecting("Starting agent..."@),
        agent_name: Seq::empty(),
        agent_model: None,
        agent_version: None,
        prompt_name: None,
        progress_status: None,
        activity_frame: 0,
        session_id: Seq::empty(),
        wt_connected: wt_connected,
        messages: Seq::empty(),
        completed_turns: Seq::empty(),
        selected_history: None,
        expanded_history: None,
        input: Seq::empty(),
        cursor_pos: 0,
        tool_calls: Map::empty(),
        permission: None,
        scroll_offset: 0,
        agent_streaming: false,
        recommendations: None,
        selected_recommendation: 0,
        selected_button: 2,
        rec_scroll: 0,
        terminal_rows: 24,
        terminal_cols: 80,
        should_quit: false,
        prompt_in_flight: false,
        current_prompt_id: None,
        current_prompt_stamp: None,
        selection_visible_pending: false,
        pending_thought_response: Seq::empty(),
        pending_agent_response: Seq::empty(),
        timing_note: None,
        debug_messages: Seq::empty(),
        show_debug_panel: false,
        debug_scroll: 0,
        pane_session_id: None,
        tab_id: None,
        window_id: None,
        source_session_id: None,
        source_cwd: None,
        current_view: Screen::Chat,
        agents_selected: Some(0),
        current_prompt_text: None,
        pending_completed_turn: None,
        wt_notifications: Seq::empty(),
        show_notification_banner: false,
        autofix_session_id: None,
        suggested_session_id: None,
        autofix_enabled: autofix_enabled,
        log_agent_events: log_agent_events,
        autofix_generation: 0,
        inflight_autofix_generation: None,
        tab_sessions: Map::empty(),
        can_install: false,
        effects: Seq::empty(),
    }
}

/// An event that the application publishes.
fn event_json(method: &str, params: Vec<(String, Json)>) -> (event: Json)
    ensures
        event@ == model::published(method@, json::members_view(params@)),
{
    let mut members: Vec<(String, Json)> = Vec::new();
    assert(json::members_view(members@) =~= Seq::<(Seq<char>, JsonView)>::empty());
    add_member(&mut members, "type", text_value("event"));
    add_member(&mut members, "method", text_value(method));
    add_member(&mut members, "params", object(params));
    assert(json::members_view(members@) =~= seq![
        ("type"@, JsonView::Text("event"@)),
        ("method"@, JsonView::Text(method@)),
        ("params"@, JsonView::Object(json::members_view(params@))),
    ]);
    object(members)
}

/// The event that tells how the fix of a failed command stands.
fn fix_json(state: &str, pane: &str, more: Vec<(String, Json)>) -> (event: Json)
    ensures
        event@ == model::fix_event(state@, pane@, json::members_view(more@)),
{
    let mut params: Vec<(String, Json)> = Vec::new();
    assert(json::members_view(params@) =~= Seq::<(Seq<char>, JsonView)>::empty());
    add_member(&mut params, "state", text_value(state));
    add_member(&mut params, "session_id", text_value(pane));
    let ghost before = params@;
    let ghost added = more@;
    let mut more = more;
    params.append(&mut more);
    assert(params@ =~= before + added);
    assert(json::members_view(before) =~= seq![
        ("state"@, JsonView::Text(state@)),
        ("session_id"@, JsonView::Text(pane@)),
    ]);
    assert(json::members_view(params@) =~= json::members_view(before) + json::members_view(added));
    event_json("autofix_state", params)
}

impl App {
    /// An application that has just been started.
    pub fn new(wt_connected: bool, autofix_enabled: bool, log_agent_events: bool) -> (app: Self)
        ensures
            app@ == first_state(wt_connected, autofix_enabled, log_agent_events),
    {
        let app = App {
            mode: AppMode::Chat,
            setup: None,
            state: ConnectionState::Connecting("Starting agent...".to_owned()),
            agent_name: String::new(),
            agent_model: None,
            agent_version: None,
            prompt_name: None,
            progress_status: None,
            activity_frame: 0,
            session_id: String::new(),
            wt_connected: wt_connected,
            messages: Vec::new(),
            completed_turns: Vec::new(),
            selected_history: None,
            expanded_history: None,
            input: String::new(),
            cursor_pos: 0,
            tool_calls: TextMap::new(),
            permission: None,
            scroll_offset: 0,
            agent_streaming: false,
            recommendations: None,
            selected_recommendation: 0,
            selected_button: 2,
            rec_scroll: 0,
            terminal_rows: 24,
            terminal_cols: 80,
            should_quit: false,
            prompt_in_flight: false,
            current_prompt_id: None,
            current_prompt_stamp: None,
            selection_visible_pending: false,
            pending_thought_response: String::new(),
            pending_agent_response: String::new(),
            timing_note: None,
            debug_messages: Vec::new(),
            show_debug_panel: false,
            debug_scroll: 0,
            pane_session_id: None,
            tab_id: None,
            window_id: None,
            source_session_id: None,
            source_cwd: None,
            current_view: Screen::Chat,
            agents_selected: Some(0),
            current_prompt_text: None,
            pending_completed_turn: None,
            wt_notifications: Vec::new(),
            show_notification_banner: false,
            autofix_session_id: None,
            suggested_session_id: None,
            autofix_enabled: autofix_enabled,
            log_agent_events: log_agent_events,
            autofix_generation: 0,
            inflight_autofix_generation: None,
            tab_sessions: TextMap::new(),
            can_install: false,
            effects: Vec::new(),
        };
        assert(types::chat_view(app.messages@) =~= Seq::empty());
        assert(types::turns_view(app.completed_turns@) =~= Seq::empty());
        assert(types::tools_map(app.tool_calls@) =~= Map::empty());
        assert(types::debug_view(app.debug_messages@) =~= Seq::empty());
        assert(notifications::notifications_view(app.wt_notifications@) =~= Seq::empty());
        assert(types::tabs_map(app.tab_sessions@) =~= Map::empty());
        assert(types::effects_view(app.effects@) =~= Seq::empty());
        app
    }

    /// Adds an effect to those that the application asks for.
    pub(crate) fn ask(&mut self, effect: Effect)
        ensures
            final(self)@ == old(self)@.asks(effect@),
    {
        self.effects.push(effect);
        assert(types::effects_view(self.effects@) =~= types::effects_view(old(self).effects@).push(
            effect@,
        ));
    }

    /// Publishes an event.
    pub(crate) fn publish(&mut self, event: &Json)
        ensures
            final(self)@ == old(self)@.publishes(event@),
    {
        self.ask(Effect::Publish(compact_text(event)));
    }

    /// Tells the state of the agent.
    pub(crate) fn publish_agent_status(&mut self)
        ensures
            final(self)@ == old(self)@.publishes_status(),
    {
        let state = match &self.state {
            ConnectionState::Connecting(_) => "connecting",
            ConnectionState::Connected => "connected",
            ConnectionState::Failed(_) => "failed",
            ConnectionState::Disconnected => "disconnected",
        };
        let mut params: Vec<(String, Json)> = Vec::new();
        assert(json::members_view(params@) =~= Seq::<(Seq<char>, JsonView)>::empty());
        add_member(&mut params, "name", text_value(self.agent_name.as_str()));
        add_member(&mut params, "version", opt_text_value(&self.agent_version));
        add_member(&mut params, "model", opt_text_value(&self.agent_model));
        add_member(&mut params, "state", text_value(state));
        proof {
            assert(json::members_view(params@) =~= seq![
                ("name"@, JsonView::Text(self@.agent_name)),
                ("version"@, model::text_or_null(self@.agent_version)),
                ("model"@, model::text_or_null(self@.agent_model)),
                ("state"@, JsonView::Text(state@)),
            ]);
        }
        let event = event_json("agent_status", params);
        self.publish(&event);
    }

    /// The fix for a pane is being looked for.
    pub(crate) fn emit_autofix_state_pending(&mut self, pane_id: &str, summary: &str)
        ensures
            final(self)@ == old(self)@.publishes(
                model::fix_event(
                    "pending"@,
                    pane_id@,
                    seq![("summary"@, JsonView::Text(summary@))],
                ),
            ),
    {
        let mut more: Vec<(String, Json)> = Vec::new();
        assert(json::members_view(more@) =~= Seq::<(Seq<char>, JsonView)>::empty());
        add_member(&mut more, "summary", text_value(summary));
        assert(json::members_view(more@) =~= seq![("summary"@, JsonView::Text(summary@))]);
        let event = fix_json("pending", pane_id, more);
        self.publish(&event);
    }

    /// A fix for a pane is ready to run.
    pub(crate) fn emit_autofix_state_armed(&mut self, pane_id: &str, fix_preview: &str)
        ensures
            final(self)@ == old(self)@.publishes(
                model::fix_event(
                    "armed"@,
                    pane_id@,
                    seq![
                        ("fix_preview"@, JsonView::Text(fix_preview@)),
                        ("hotkey_hint"@, JsonView::Text("Ctrl+Alt+."@)),
                    ],
                ),
            ),
    {
        let mut more: Vec<(String, Json)> = Vec::new();
        assert(json::members_view(more@) =~= Seq::<(Seq<char>, JsonView)>::empty());
        add_member(&mut more, "fix_preview", text_value(fix_preview));
        add_member(&mut more, "hotkey_hint", text_value("Ctrl+Alt+."));
        assert(json::members_view(more@) =~= seq![
            ("fix_preview"@, JsonView::Text(fix_preview@)),
            ("hotkey_hint"@, JsonView::Text("Ctrl+Alt+."@)),
        ]);
        let event = fix_json("armed", pane_id, more);
        self.publish(&event);
    }

    /// The fix for a pane is no longer on offer.
    pub(crate) fn emit_autofix_state_cleared(&mut self, pane_id: &str)
        ensures
            final(self)@ == old(self)@.publishes_cleared(pane_id@),
    {
        let more: Vec<(String, Json)> = Vec::new();
        assert(json::members_view(more@) =~= Seq::<(Seq<char>, JsonView)>::empty());
        let event = fix_json("cleared", pane_id, more);
        self.publish(&event);
    }

    /// There is an explanation of what went wrong in a pane, but no fix.
    pub(crate) fn emit_autofix_state_suggested(&mut self, pane_id: &str, title: &str)
        ensures
            final(self)@ == old(self)@.publishes(
                model::fix_event(
                    "suggested"@,
                    pane_id@,
                    seq![("suggestion_title"@, JsonView::Text(title@))],
                ),
            ),
    {
        let mut more: Vec<(String, Json)> = Vec::new();
        assert(json::members_view(more@) =~= Seq::<(Seq<char>, JsonView)>::empty());
        add_member(&mut more, "suggestion_title", text_value(title));
        assert(json::members_view(more@) =~= seq![("suggestion_title"@, JsonView::Text(title@))]);
        let event = fix_json("suggested", pane_id, more);
        self.publish(&event);
    }

    pub(crate) fn scroll_to_bottom(&mut self)
        ensures
            final(self)@ == old(self)@.scrolled_down(),
    {
        self.scroll_offset = 0;
    }

    /// Adds a message to the chat.
    pub(crate) fn say(&mut self, message: ChatMessage)
        ensures
            final(self)@ == old(self)@.says(message@),
    {
        self.messages.push(message);
        assert(types::chat_view(self.messages@) =~= types::chat_view(old(self).messages@).push(
            message@,
        ));
    }

    pub(crate) fn clear_recommendations(&mut self)
        ensures
            final(self)@ == old(self)@.without_recommendations(),
    {
        self.recommendations = None;
        self.selected_recommendation = 0;
        self.selected_button = 2;
        self.rec_scroll = 0;
    }

    pub(crate) fn clear_chat_history(&mut self)
        ensures
            final(self)@ == old(self)@.with_new_chat(),
    {
        self.messages = Vec::new();
        self.tool_calls.clear();
        self.permission = None;
        self.progress_status = None;
        self.pending_thought_response = String::new();
        self.activity_frame = 0;
        self.pending_agent_response = String::new();
        self.agent_streaming = false;
        self.scroll_offset = 0;
        self.timing_note = None;
        self.selection_visible_pending = false;
        self.current_prompt_text = None;
        self.current_prompt_stamp = None;
        self.pending_completed_turn = None;
        assert(types::chat_view(self.messages@) =~= Seq::empty());
        assert(types::tools_map(self.tool_calls@) =~= Map::empty());
        self.clear_recommendations();
    }

    pub(crate) fn clear_completed_turn_history(&mut self)
        ensures
            final(self)@ == old(self)@.with_turn_put_away(),
    {
        self.messages = Vec::new();
        self.tool_calls.clear();
        self.permission = None;
        self.progress_status = None;
        self.pending_thought_response = String::new();
        self.activity_frame = 0;
        self.pending_agent_response = String::new();
        self.agent_streaming = false;
        self.scroll_offset = 0;
        self.selection_visible_pending = false;
        self.current_prompt_text = None;
        self.current_prompt_stamp = None;
        assert(types::chat_view(self.messages@) =~= Seq::empty());
        assert(types::tools_map(self.tool_calls@) =~= Map::empty());
    }

    pub(crate) fn prepare_for_new_prompt(&mut self, prompt_text: &str)
        ensures
            final(self)@ == old(self)@.with_prompt(prompt_text@),
    {
        self.clear_chat_history();
        self.current_prompt_text = Some(prompt_text.to_owned());
        self.prompt_in_flight = true;
        self.progress_status = Some("Preparing context...".to_owned());
        self.activity_frame = 0;
    }

    /// The messages of the turn that are not the user's.
    pub(crate) fn current_turn_details(&self) -> (details: Vec<ChatMessage>)
        ensures
            types::chat_view(details@) == model::not_by_user(self@.messages),
    {
        let mut details: Vec<ChatMessage> = Vec::new();
        let mut i: usize = 0;
        assert(types::chat_view(details@) =~= Seq::<ChatView>::empty());
        assert(self@.messages.take(0) =~= Seq::<ChatView>::empty());
        while i < self.messages.len()
            invariant
                i <= self.messages@.len(),
                types::chat_view(details@) == model::not_by_user(self@.messages.take(i as int)),
            decreases self.messages@.len() - i,
        {
            let ghost part = self@.messages.take(i + 1);
            assert(part.drop_last() =~= self@.messages.take(i as int));
            assert(part.last() == self.messages@[i as int]@);
            let message = &self.messages[i];
            let by_user: bool = match message {
                ChatMessage::User(_) => true,
                _ => false,
            };
            if !by_user {
                let ghost earlier = details@;
                details.push(message.clone());
                assert(types::chat_view(details@) =~= types::chat_view(earlier).push(message@));
            }
            i += 1;
        }
        assert(self@.messages.take(i as int) =~= self@.messages);
        details
    }

    pub(crate) fn stage_completed_turn(&mut self, agent_text: String)
        ensures
            final(self)@ == old(self)@.with_staged_turn(agent_text@),
    {
        let prompt = match &self.current_prompt_text {
            Some(prompt) => prompt.clone(),
            None => {
                self.pending_completed_turn = None;
                return;
            },
        };
        let mut details = self.current_turn_details();
        let ghost earlier = details@;
        details.push(ChatMessage::Agent(agent_text));
        assert(types::chat_view(details@) =~= types::chat_view(earlier).push(
            ChatView::Agent(agent_text@),
        ));
        self.pending_completed_turn = Some(CompletedTurn { prompt, details });
    }

    pub(crate) fn focus_latest_completed_turn(&mut self)
        ensures
            final(self)@ == old(self)@.with_latest_turn(),
    {
        let count: usize = self.completed_turns.len();
        if count == 0 {
            self.selected_history = None;
            self.expanded_history = None;
            return;
        }
        self.selected_history = Some(count - 1);
        self.expanded_history = None;
        self.scroll_to_bottom();
    }

    pub(crate) fn commit_pending_completed_turn(&mut self)
        ensures
            final(self)@ == old(self)@.with_committed_turn(),
    {
        match self.pending_completed_turn.take() {
            Some(turn) => {
                self.completed_turns.push(turn);
                assert(types::turns_view(self.completed_turns@) =~= types::turns_view(
                    old(self).completed_turns@,
                ).push(turn@));
                self.focus_latest_completed_turn();
            },
            None => {},
        }
    }

    /// Nothing is on its way any more.
    pub(crate) fn rest(&mut self)
        ensures
            final(self)@ == old(self)@.at_rest(),
    {
        self.prompt_in_flight = false;
        self.progress_status = None;
        self.agent_streaming = false;
    }

    pub(crate) fn has_activity_indicator(&self) -> (yes: bool)
        ensures
            yes == self@.is_busy(),
    {
        let installing: bool = match &self.setup {
            Some(setup) => setup.install_in_progress,
            None => false,
        };
        self.prompt_in_flight || self.agent_streaming || self.progress_status.is_some()
            || installing
    }

    /// Where a prompt of the user comes from.
    pub(crate) fn pane_context(&self) -> (context: PaneContext)
        ensures
            context@ == self@.own_context(),
    {
        PaneContext {
            session_id: clone_text(&self.pane_session_id),
            tab_id: clone_text(&self.tab_id),
            window_id: clone_text(&self.window_id),
            cwd: clone_text(&self.source_cwd),
            source_session_id: clone_text(&self.source_session_id),
        }
    }

    /// Whether the user may walk through the history: nothing else is going on,
    /// and there is one.
    pub fn history_navigation_enabled(&self) -> (yes: bool)
        ensures
            yes == self@.walks_history(),
    {
        self.input.as_str().is_empty() && self.recommendations.is_none()
            && self.permission.is_none() && !self.prompt_in_flight && !self.agent_streaming
            && self.messages.len() == 0 && self.pending_agent_response.as_str().is_empty()
            && self.pending_thought_response.as_str().is_empty() && self.completed_turns.len() > 0
    }

    /// Whether the turn at `index` is selected.
    pub fn history_row_selected(&self, index: usize) -> (yes: bool)
        ensures
            yes == (self@.selected_history == Some(index)),
    {
        match self.selected_history {
            Some(selected) => selected == index,
            None => false,
        }
    }

    /// Whether the turn at `index` is open.
    pub fn history_row_expanded(&self, index: usize) -> (yes: bool)
        ensures
            yes == (self@.expanded_history == Some(index)),
    {
        match self.expanded_history {
            Some(expanded) => expanded == index,
            None => false,
        }
    }

    /// The most recent notification that was not seen yet.
    pub fn active_notification(&self) -> (n: Option<&WtNotification>)
        ensures
            match n {
                Some(n) => model::latest_open(self@.wt_notifications) == Some(n@),
                None => model::latest_open(self@.wt_notifications) is None,
            },
    {
        let mut i: usize = self.wt_notifications.len();
        assert(self@.wt_notifications.take(i as int) =~= self@.wt_notifications);
        while i > 0
            invariant
                i <= self.wt_notifications@.len(),
                model::latest_open(self@.wt_notifications) == model::latest_open(
                    self@.wt_notifications.take(i as int),
                ),
            decreases i,
        {
            assert(self@.wt_notifications.take(i as int).last()
                == self.wt_notifications@[i - 1]@);
            if !self.wt_notifications[i - 1].acknowledged {
                return Some(&self.wt_notifications[i - 1]);
            }
            assert(self@.wt_notifications.take(i as int).drop_last()
                =~= self@.wt_notifications.take(i - 1));
            i -= 1;
        }
        None
    }

    /// What the badge of the status bar says: the most recent notification that
    /// was not seen yet.
    pub fn notification_badge(&self) -> (badge: Option<(&str, WtEventSeverity)>)
        ensures
            match badge {
                Some(badge) => model::latest_open(self@.wt_notifications) matches Some(n)
                    && n.summary == badge.0@ && n.severity == badge.1,
                None => model::latest_open(self@.wt_notifications) is None,
            },
    {
        match self.active_notification() {
            Some(n) => Some((n.summary.as_str(), n.severity)),
            None => None,
        }
    }

    /// How many notifications that are more than informational were not seen
    /// yet.
    pub fn unacknowledged_count(&self) -> (count: usize)
        ensures
            count == model::open_count(self@.wt_notifications),
    {
        let mut count: usize = 0;
        let mut i: usize = 0;
        assert(self@.wt_notifications.take(0) =~= Seq::empty());
        while i < self.wt_notifications.len()
            invariant
                i <= self.wt_notifications@.len(),
                count <= i,
                count == model::open_count(self@.wt_notifications.take(i as int)),
            decreases self.wt_notifications@.len() - i,
        {
            let n = &self.wt_notifications[i];
            assert(self@.wt_notifications.take(i + 1).drop_last()
                =~= self@.wt_notifications.take(i as int));
            assert(self@.wt_notifications.take(i + 1).last() == n@);
            if !n.acknowledged && n.severity != WtEventSeverity::Informational {
                count += 1;
            }
            i += 1;
        }
        assert(self@.wt_notifications.take(i as int) =~= self@.wt_notifications);
        count
    }

    /// Puts the notifications away: the banner is hidden, and all count as seen.
    pub fn dismiss_notifications(&mut self)
        ensures
            final(self)@ == old(self)@.with_notifications_dismissed(),
    {
        self.show_notification_banner = false;
        let mut seen: Vec<WtNotification> = Vec::new();
        let mut rest: Vec<WtNotification> = Vec::new();
        std::mem::swap(&mut rest, &mut self.wt_notifications);
        let ghost all = rest@;
        let ghost wanted = model::all_acknowledged(old(self)@.wt_notifications);
        while rest.len() > 0
            invariant
                rest@.len() <= all.len(),
                rest@ == all.skip(all.len() - rest@.len()),
                wanted == model::all_acknowledged(notifications::notifications_view(all)),
                notifications::notifications_view(seen@) == wanted.take(all.len() - rest@.len()),
            decreases rest@.len(),
        {
            let ghost k = all.len() - rest@.len();
            let ghost earlier = seen@;
            let mut n = rest.remove(0);
            assert(n == all[k]);
            n.acknowledged = true;
            seen.push(n);
            assert(notifications::notifications_view(seen@)
                =~= notifications::notifications_view(earlier).push(n@));
            assert(wanted.take(k + 1) =~= wanted.take(k).push(n@));
            assert(rest@ =~= all.skip(k + 1));
        }
        assert(wanted.take(all.len() as int) =~= wanted);
        self.wt_notifications = seen;
    }

    /// The height of the panel of recommendations.
    pub fn rec_panel_height(&self) -> (height: u16)
        ensures
            height == self@.panel_height(),
            self.recommendations is None ==> height == 0,
            self.terminal_rows >= 20 ==> height <= self.terminal_rows * 2 / 5,
    {
        rec_panel_height(&self.recommendations, self.terminal_rows, self.terminal_cols)
    }

    /// Hands out what the application asks for, and forgets it.
    pub fn take_effects(&mut self) -> (effects: Vec<Effect>)
        ensures
            types::effects_view(effects@) == old(self)@.effects,
            final(self)@ == (AppView { effects: Seq::empty(), ..old(self)@ }),
    {
        let mut effects: Vec<Effect> = Vec::new();
        std::mem::swap(&mut effects, &mut self.effects);
        assert(types::effects_view(self.effects@) =~= Seq::empty());
        effects
    }
}

} // verus!
