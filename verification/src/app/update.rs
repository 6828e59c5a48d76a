//! What the events do to the application.
use super::keys;
use super::model::AppView;
use super::notifications;
use super::notifications::{NotificationView, WtNotification};
use super::state::App;
use super::types;
use super::types::{
    AppEvent, ChatMessage, ChatView, ConnectionState, ConnectionView, DebugMessage, DebugView,
    Effect, EffectView, EventContext, FocusPaneFailureReason, PermOption, PermissionState,
    PermissionView, SessionEvent, SessionView, ToolCallEntry, ToolView,
};
use crate::coordinator;
use crate::text;
use crate::text::{chars_of, number_text, same_text, string_between};
use vstd::prelude::*;

verus! {

/// How much of the agent's thoughts is shown.
pub const THOUGHT_PREVIEW_MAX_CHARS: usize = 1024;

/// How many messages of the debug panel are kept.
pub const MAX_DEBUG_MESSAGES: usize = 500;

/// The thoughts with a piece more; only the end of long ones is kept.
pub open spec fn thoughts(shown: Seq<char>, piece: Seq<char>) -> Seq<char> {
    let all = shown + piece;
    if piece.len() == 0 {
        shown
    } else if all.len() <= THOUGHT_PREVIEW_MAX_CHARS {
        all
    } else {
        "..."@ + all.skip(all.len() - THOUGHT_PREVIEW_MAX_CHARS)
    }
}

/// The message, with another status where it is the tool call `id`.
pub open spec fn with_status(message: ChatView, id: Seq<char>, status: Seq<char>) -> ChatView {
    match message {
        ChatView::ToolCall { id: own, title, .. } => if own == id {
            ChatView::ToolCall { id: own, title, status }
        } else {
            message
        },
        _ => message,
    }
}

/// The messages, with another status for the tool call `id`.
pub open spec fn messages_with_status(
    messages: Seq<ChatView>,
    id: Seq<char>,
    status: Seq<char>,
) -> Seq<ChatView> {
    messages.map_values(|message: ChatView| with_status(message, id, status))
}

/// The tool calls, with another status for `id`.
pub open spec fn tools_with_status(
    tools: Map<Seq<char>, ToolView>,
    id: Seq<char>,
    status: Seq<char>,
) -> Map<Seq<char>, ToolView> {
    if tools.dom().contains(id) {
        tools.insert(id, ToolView { status, ..tools[id] })
    } else {
        tools
    }
}

/// The messages of the debug panel with one more; the oldest goes where there
/// are too many.
pub open spec fn recorded(list: Seq<DebugView>, message: DebugView) -> Seq<DebugView> {
    let all = list.push(message);
    if all.len() > MAX_DEBUG_MESSAGES {
        all.skip(1)
    } else {
        all
    }
}

/// The notifications one tick later: each is older, and those whose time is
/// over are gone.
pub open spec fn ticked(list: Seq<NotificationView>) -> Seq<NotificationView>
    decreases list.len(),
{
    if list.len() == 0 {
        Seq::empty()
    } else {
        let before = ticked(list.drop_last());
        let last = list.last().aged();
        if last.expired() {
            before
        } else {
            before.push(last)
        }
    }
}

/// Every notification was seen.
pub open spec fn all_seen(list: Seq<NotificationView>) -> bool {
    forall|i: int| 0 <= i < list.len() ==> (#[trigger] list[i]).acknowledged
}

/// The name of an event in the trace.
pub open spec fn name_of(event: AppEvent) -> Seq<char> {
    match event {
        AppEvent::Key(_) => "key"@,
        AppEvent::MouseScroll { .. } => "mouse_scroll"@,
        AppEvent::Tick => "tick"@,
        AppEvent::Resize(_, _) => "resize"@,
        AppEvent::ConnectionStage(_) => "connection_stage"@,
        AppEvent::ProgressStatus(_) => "progress_status"@,
        AppEvent::UserMessage(_) => "user_message"@,
        AppEvent::AgentConnected { .. } => "agent_connected"@,
        AppEvent::PromptTemplateLoaded { .. } => "prompt_template_loaded"@,
        AppEvent::AgentError(_) => "agent_error"@,
        AppEvent::ExecutionInfo(_) => "execution_info"@,
        AppEvent::AgentThoughtChunk(_) => "agent_thought_chunk"@,
        AppEvent::AgentMessageChunk(_) => "agent_message_chunk"@,
        AppEvent::AgentMessageEnd(_) => "agent_message_end"@,
        AppEvent::TimingMetric(_) => "timing_metric"@,
        AppEvent::ToolCall { .. } => "tool_call"@,
        AppEvent::ToolCallUpdate { .. } => "tool_call_update"@,
        AppEvent::Plan(_) => "plan"@,
        AppEvent::PermissionRequest { .. } => "permission_request"@,
        AppEvent::SharedPermissionRequest { .. } => "shared_permission_request"@,
        AppEvent::PermissionCleared => "permission_cleared"@,
        AppEvent::SystemMessage(_) => "system_message"@,
        AppEvent::DebugPipeMessage(_) => "debug_pipe_message"@,
        AppEvent::SharedStateSnapshot(_) => "shared_state_snapshot"@,
        AppEvent::WtEvent { .. } => "wt_event"@,
        AppEvent::PreflightComplete(_) => "preflight_complete"@,
        AppEvent::InstallStarted => "install_started"@,
        AppEvent::InstallProgress(_) => "install_progress"@,
        AppEvent::InstallComplete(_) => "install_complete"@,
        AppEvent::ResumePaneCreated { .. } => "resume_pane_created"@,
        AppEvent::PaneFocusFailed { .. } => "pane_focus_failed"@,
    }
}

/// A line of the timing log of a prompt.
#[derive(Debug)]
pub struct SelectionNote {
    pub prompt_id: u64,
    pub stamp: u64,
    pub details: String,
}

/// What an event is about.
#[derive(Debug, Clone, Copy, PartialEq, Eq, Structural)]
pub enum EventKind {
    Window,
    Connection,
    Conversation,
    Permission,
    Setup,
    Outside,
}

/// What an event is about.
pub open spec fn kind_of(event: AppEvent) -> EventKind {
    match event {
        AppEvent::Key(_) => EventKind::Window,
        AppEvent::MouseScroll { .. } => EventKind::Window,
        AppEvent::Tick => EventKind::Window,
        AppEvent::Resize(_, _) => EventKind::Window,
        AppEvent::ConnectionStage(_) => EventKind::Connection,
        AppEvent::ProgressStatus(_) => EventKind::Connection,
        AppEvent::AgentConnected { .. } => EventKind::Connection,
        AppEvent::PromptTemplateLoaded { .. } => EventKind::Connection,
        AppEvent::AgentError(_) => EventKind::Connection,
        AppEvent::TimingMetric(_) => EventKind::Connection,
        AppEvent::PermissionRequest { .. } => EventKind::Permission,
        AppEvent::SharedPermissionRequest { .. } => EventKind::Permission,
        AppEvent::PermissionCleared => EventKind::Permission,
        AppEvent::PreflightComplete(_) => EventKind::Setup,
        AppEvent::InstallStarted => EventKind::Setup,
        AppEvent::InstallProgress(_) => EventKind::Setup,
        AppEvent::InstallComplete(_) => EventKind::Setup,
        AppEvent::DebugPipeMessage(_) => EventKind::Outside,
        AppEvent::SharedStateSnapshot(_) => EventKind::Outside,
        AppEvent::WtEvent { .. } => EventKind::Outside,
        AppEvent::ResumePaneCreated { .. } => EventKind::Outside,
        AppEvent::PaneFocusFailed { .. } => EventKind::Outside,
        _ => EventKind::Conversation,
    }
}

/// What an event is about.
fn event_kind(event: &AppEvent) -> (kind: EventKind)
    ensures
        kind == kind_of(*event),
{
    match event {
        AppEvent::Key(_) => EventKind::Window,
        AppEvent::MouseScroll { .. } => EventKind::Window,
        AppEvent::Tick => EventKind::Window,
        AppEvent::Resize(_, _) => EventKind::Window,
        AppEvent::ConnectionStage(_) => EventKind::Connection,
        AppEvent::ProgressStatus(_) => EventKind::Connection,
        AppEvent::AgentConnected { .. } => EventKind::Connection,
        AppEvent::PromptTemplateLoaded { .. } => EventKind::Connection,
        AppEvent::AgentError(_) => EventKind::Connection,
        AppEvent::TimingMetric(_) => EventKind::Connection,
        AppEvent::PermissionRequest { .. } => EventKind::Permission,
        AppEvent::SharedPermissionRequest { .. } => EventKind::Permission,
        AppEvent::PermissionCleared => EventKind::Permission,
        AppEvent::PreflightComplete(_) => EventKind::Setup,
        AppEvent::InstallStarted => EventKind::Setup,
        AppEvent::InstallProgress(_) => EventKind::Setup,
        AppEvent::InstallComplete(_) => EventKind::Setup,
        AppEvent::DebugPipeMessage(_) => EventKind::Outside,
        AppEvent::SharedStateSnapshot(_) => EventKind::Outside,
        AppEvent::WtEvent { .. } => EventKind::Outside,
        AppEvent::ResumePaneCreated { .. } => EventKind::Outside,
        AppEvent::PaneFocusFailed { .. } => EventKind::Outside,
        _ => EventKind::Conversation,
    }
}

impl AppView {
    /// The top row of the panel of recommendations, which stands above the
    /// input.
    pub open spec fn panel_top(self) -> int {
        if self.terminal_rows < 3 + self.panel_height() {
            0
        } else {
            self.terminal_rows - (3 + self.panel_height())
        }
    }

    /// The wheel scrolls the panel of recommendations.
    pub open spec fn with_cards_turned(self, delta: i32) -> AppView {
        AppView {
            rec_scroll: if delta > 0 {
                keys::raised(self.rec_scroll, delta as int)
            } else {
                keys::lowered(self.rec_scroll, -delta)
            },
            ..self
        }
    }

    /// The wheel scrolls the chat.
    pub open spec fn with_chat_turned(self, delta: i32) -> AppView {
        self.with_scroll(
            if delta < 0 {
                keys::raised(self.scroll_offset, -delta)
            } else {
                keys::lowered(self.scroll_offset, delta as int)
            },
        )
    }

    /// The mouse wheel is turned over a row: it scrolls the panel of
    /// recommendations there, and else the chat.
    pub open spec fn with_wheel(self, delta: i32, row: u16) -> AppView {
        if self.recommendations is Some && row >= self.panel_top() {
            self.with_cards_turned(delta)
        } else {
            self.with_chat_turned(delta)
        }
    }

    pub open spec fn with_next_frame(self) -> AppView {
        if self.is_busy() {
            AppView { activity_frame: ((self.activity_frame + 1) % 10) as usize, ..self }
        } else {
            self
        }
    }

    pub open spec fn with_notifications(self, list: Seq<NotificationView>) -> AppView {
        AppView { wt_notifications: list, ..self }
    }

    pub open spec fn without_banner(self) -> AppView {
        AppView { show_notification_banner: false, ..self }
    }

    /// Time passes.
    pub open spec fn with_tick(self) -> AppView {
        let aged = self.with_next_frame().with_notifications(ticked(self.wt_notifications));
        if all_seen(aged.wt_notifications) {
            aged.without_banner()
        } else {
            aged
        }
    }

    pub open spec fn with_size(self, cols: u16, rows: u16) -> AppView {
        AppView { terminal_cols: cols, terminal_rows: rows, ..self }
    }

    pub open spec fn with_state(self, state: ConnectionView) -> AppView {
        AppView { state, ..self }
    }

    pub open spec fn with_progress(self, status: Option<Seq<char>>) -> AppView {
        AppView { progress_status: status, ..self }
    }

    /// The agent is there.
    pub open spec fn with_agent(
        self,
        name: Seq<char>,
        agent_model: Option<Seq<char>>,
        version: Option<Seq<char>>,
        session: Seq<char>,
    ) -> AppView {
        AppView {
            agent_name: name,
            agent_model,
            agent_version: version,
            session_id: session,
            state: ConnectionView::Connected,
            ..self
        }
    }

    pub open spec fn with_prompt_name(self, name: Seq<char>) -> AppView {
        AppView { prompt_name: Some(name), ..self }
    }

    /// The agent thinks aloud.
    pub open spec fn with_thought(self, piece: Seq<char>) -> AppView {
        AppView {
            prompt_in_flight: true,
            progress_status: match self.progress_status {
                Some(status) => Some(status),
                None => Some("Thinking..."@),
            },
            pending_thought_response: thoughts(self.pending_thought_response, piece),
            ..self
        }
    }

    /// The agent answers, piece by piece.
    pub open spec fn with_piece(self, piece: Seq<char>) -> AppView {
        AppView {
            agent_streaming: true,
            prompt_in_flight: true,
            progress_status: None,
            pending_thought_response: Seq::empty(),
            pending_agent_response: self.pending_agent_response + piece,
            ..self
        }
    }

    pub open spec fn with_timing(self, note: Seq<char>) -> AppView {
        AppView { timing_note: Some(note), ..self }
    }

    /// The agent calls a tool.
    pub open spec fn with_tool(self, id: Seq<char>, title: Seq<char>, status: Seq<char>) -> AppView {
        AppView { tool_calls: self.tool_calls.insert(id, ToolView { id, title, status }), ..self }
    }

    /// A tool call goes on.
    pub open spec fn with_tool_status(self, id: Seq<char>, status: Seq<char>) -> AppView {
        AppView {
            tool_calls: tools_with_status(self.tool_calls, id, status),
            messages: messages_with_status(self.messages, id, status),
            ..self
        }
    }

    pub open spec fn with_debug_message(self, message: DebugView) -> AppView {
        AppView { debug_messages: recorded(self.debug_messages, message), ..self }
    }

    /// The application is ready for the event: an answer that ends was read as
    /// what it is, and a key asks for nothing that is not there.
    pub open spec fn can_take(self, event: AppEvent) -> bool {
        match event {
            AppEvent::Key(key) => self.takes(key),
            AppEvent::AgentMessageEnd(parsed) => self.expects(parsed),
            _ => true,
        }
    }

    /// A permission is asked for.
    pub open spec fn with_request(
        self,
        description: Seq<char>,
        options: Seq<PermOption>,
        direct: bool,
    ) -> AppView {
        self.with_permission(
            Some(
                PermissionView {
                    description,
                    options: types::options_view(options),
                    selected: 0,
                    direct,
                },
            ),
        )
    }

    /// An event of the terminal window.
    pub open spec fn with_window_event(self, event: AppEvent, ctx: EventContext) -> AppView {
        match event {
            AppEvent::Key(key) => self.with_key(key, ctx),
            AppEvent::MouseScroll { delta, row } => self.with_wheel(delta, row),
            AppEvent::Tick => self.with_tick(),
            AppEvent::Resize(cols, rows) => self.with_size(cols, rows),
            _ => self,
        }
    }

    pub open spec fn with_stage(self, stage: Seq<char>) -> AppView {
        self.with_state(ConnectionView::Connecting(stage)).publishes_status()
    }

    pub open spec fn with_connection(
        self,
        name: Seq<char>,
        agent_model: Option<Seq<char>>,
        version: Option<Seq<char>>,
        session: Seq<char>,
    ) -> AppView {
        self.with_agent(name, agent_model, version, session).publishes_status()
    }

    /// The agent comes, fails, or says how far it is.
    pub open spec fn with_connection_event(self, event: AppEvent, ctx: EventContext) -> AppView {
        match event {
            AppEvent::ConnectionStage(stage) => self.with_stage(stage@),
            AppEvent::ProgressStatus(status) => self.with_progress(Some(status@)).scrolled_down(),
            AppEvent::AgentConnected { name, model, version, session_id } => self.with_connection(
                name@,
                coordinator::seen(model),
                coordinator::seen(version),
                session_id@,
            ),
            AppEvent::PromptTemplateLoaded { name } => self.with_prompt_name(name@),
            AppEvent::AgentError(message) => self.with_agent_error(message@, ctx.profile),
            AppEvent::TimingMetric(note) => self.with_timing(note@),
            _ => self,
        }
    }

    /// A message is added to the chat, whose end is shown.
    pub open spec fn tells(self, message: ChatView) -> AppView {
        self.says(message).scrolled_down()
    }

    /// The conversation goes on.
    pub open spec fn with_conversation_event(self, event: AppEvent) -> AppView {
        match event {
            AppEvent::UserMessage(message) => self.with_prompt(message@).tells(
                ChatView::User(message@),
            ),
            AppEvent::ExecutionInfo(_) => self.scrolled_down(),
            AppEvent::AgentThoughtChunk(piece) => self.with_thought(piece@),
            AppEvent::AgentMessageChunk(piece) => self.with_piece(piece@),
            AppEvent::AgentMessageEnd(parsed) => self.with_message_end(parsed),
            AppEvent::ToolCall { id, title, status } => self.with_tool(
                id@,
                title@,
                status@,
            ).tells(ChatView::ToolCall { id: id@, title: title@, status: status@ }),
            AppEvent::ToolCallUpdate { id, status } => self.with_tool_status(id@, status@),
            AppEvent::Plan(entries) => self.tells(ChatView::Plan(types::plan_view(entries@))),
            AppEvent::SystemMessage(message) => self.tells(ChatView::System(message@)),
            _ => self,
        }
    }

    /// A permission is asked for, or no longer needed.
    pub open spec fn with_permission_event(self, event: AppEvent) -> AppView {
        match event {
            AppEvent::PermissionRequest { description, options } => self.with_request(
                description@,
                options@,
                true,
            ),
            AppEvent::SharedPermissionRequest { description, options } => self.with_request(
                description@,
                options@,
                false,
            ),
            AppEvent::PermissionCleared => self.with_permission(None),
            _ => self,
        }
    }

    /// The agent's program is checked and installed.
    pub open spec fn with_setup_event(self, event: AppEvent) -> AppView {
        match event {
            AppEvent::PreflightComplete(result) => self.with_preflight(result@),
            AppEvent::InstallStarted => self.with_install_started(),
            AppEvent::InstallProgress(line) => self.with_install_line(line@),
            AppEvent::InstallComplete(result) => self.with_install_done(result),
            _ => self,
        }
    }

    /// A pane could not be brought to the front: where it is gone, its session
    /// is over.
    pub open spec fn with_focus_failure(
        self,
        pane: Seq<char>,
        reason: FocusPaneFailureReason,
    ) -> AppView {
        match reason {
            FocusPaneFailureReason::NotFound => self.asks(
                EffectView::ChangeSession(SessionView::PaneClosed { pane_session_id: pane }),
            ),
            FocusPaneFailureReason::Other { .. } => self,
        }
    }

    /// Something happens in another pane, or in another application.
    pub open spec fn with_outside_event(self, event: AppEvent, ctx: EventContext) -> AppView {
        match event {
            AppEvent::DebugPipeMessage(message) => self.with_debug_message(message@),
            AppEvent::SharedStateSnapshot(shared) => self.with_snapshot(shared, ctx.profile),
            AppEvent::WtEvent { method, session_id, params } => self.with_terminal_event(
                method@,
                session_id@,
                params@,
                ctx,
            ),
            AppEvent::ResumePaneCreated { key, pane_session_id } => self.asks(
                EffectView::ChangeSession(
                    SessionView::ResumePaneAssigned {
                        key: key@,
                        pane_session_id: pane_session_id@,
                    },
                ),
            ),
            AppEvent::PaneFocusFailed { pane_session_id, reason } => self.with_focus_failure(
                pane_session_id@,
                reason,
            ),
            _ => self,
        }
    }

    /// An event happens.
    pub open spec fn with_event(self, event: AppEvent, ctx: EventContext) -> AppView {
        match kind_of(event) {
            EventKind::Window => self.with_window_event(event, ctx),
            EventKind::Connection => self.with_connection_event(event, ctx),
            EventKind::Conversation => self.with_conversation_event(event),
            EventKind::Permission => self.with_permission_event(event),
            EventKind::Setup => self.with_setup_event(event),
            EventKind::Outside => self.with_outside_event(event, ctx),
        }
    }

    /// The recommendations are on the screen for the first time.
    pub open spec fn shows_new_cards(self) -> bool {
        self.selection_visible_pending && self.recommendations is Some
    }

    /// The recommendations have been seen.
    pub open spec fn with_cards_seen(self) -> AppView {
        if self.shows_new_cards() {
            AppView { selection_visible_pending: false, ..self }
        } else {
            self
        }
    }

    /// What the timing log says when the recommendations are on the screen.
    pub open spec fn selection_details(self) -> Seq<char> {
        "choice_count="@ + text::decimal(self.recommendations->0.choices.len())
            + " selected_index="@ + text::decimal(self.selected_recommendation as nat)
    }

    /// The event changes what the screen shows.
    pub open spec fn needs_redraw(self, event: AppEvent) -> bool {
        match event {
            AppEvent::Tick => self.is_busy() || self.show_notification_banner,
            AppEvent::DebugPipeMessage(_) => self.show_debug_panel,
            _ => true,
        }
    }
}

/// The name of an event in the trace.
pub fn event_name(event: &AppEvent) -> (name: &'static str)
    ensures
        name@ == name_of(*event),
{
    match event {
        AppEvent::Key(_) => "key",
        AppEvent::MouseScroll { .. } => "mouse_scroll",
        AppEvent::Tick => "tick",
        AppEvent::Resize(_, _) => "resize",
        AppEvent::ConnectionStage(_) => "connection_stage",
        AppEvent::ProgressStatus(_) => "progress_status",
        AppEvent::UserMessage(_) => "user_message",
        AppEvent::AgentConnected { .. } => "agent_connected",
        AppEvent::PromptTemplateLoaded { .. } => "prompt_template_loaded",
        AppEvent::AgentError(_) => "agent_error",
        AppEvent::ExecutionInfo(_) => "execution_info",
        AppEvent::AgentThoughtChunk(_) => "agent_thought_chunk",
        AppEvent::AgentMessageChunk(_) => "agent_message_chunk",
        AppEvent::AgentMessageEnd(_) => "agent_message_end",
        AppEvent::TimingMetric(_) => "timing_metric",
        AppEvent::ToolCall { .. } => "tool_call",
        AppEvent::ToolCallUpdate { .. } => "tool_call_update",
        AppEvent::Plan(_) => "plan",
        AppEvent::PermissionRequest { .. } => "permission_request",
        AppEvent::SharedPermissionRequest { .. } => "shared_permission_request",
        AppEvent::PermissionCleared => "permission_cleared",
        AppEvent::SystemMessage(_) => "system_message",
        AppEvent::DebugPipeMessage(_) => "debug_pipe_message",
        AppEvent::SharedStateSnapshot(_) => "shared_state_snapshot",
        AppEvent::WtEvent { .. } => "wt_event",
        AppEvent::PreflightComplete(_) => "preflight_complete",
        AppEvent::InstallStarted => "install_started",
        AppEvent::InstallProgress(_) => "install_progress",
        AppEvent::InstallComplete(_) => "install_complete",
        AppEvent::ResumePaneCreated { .. } => "resume_pane_created",
        AppEvent::PaneFocusFailed { .. } => "pane_focus_failed",
    }
}

/// A number without its sign.
fn magnitude(delta: i32) -> (amount: usize)
    ensures
        amount == if delta < 0 {
            -delta
        } else {
            delta as int
        },
{
    if delta < 0 {
        (0 - delta as i64) as usize
    } else {
        delta as usize
    }
}

/// Adds a piece to the thoughts that are shown.
pub fn append_thought_preview(buffer: &mut String, chunk: &str)
    ensures
        final(buffer)@ == thoughts(old(buffer)@, chunk@),
{
    if chunk.is_empty() {
        return;
    }
    buffer.append(chunk);
    let chars = chars_of(buffer.as_str());
    let n: usize = chars.len();
    if n <= THOUGHT_PREVIEW_MAX_CHARS {
        return;
    }
    let tail = string_between(&chars, n - THOUGHT_PREVIEW_MAX_CHARS, n);
    assert(chars@.subrange(n - THOUGHT_PREVIEW_MAX_CHARS, n as int) =~= chars@.skip(
        n - THOUGHT_PREVIEW_MAX_CHARS,
    ));
    let mut shown = "...".to_owned();
    shown.append(tail.as_str());
    *buffer = shown;
}

/// Adds a message of the debug panel, and drops the oldest where there are too
/// many.
fn record(list: &mut Vec<DebugMessage>, message: DebugMessage)
    ensures
        types::debug_view(final(list)@) == recorded(types::debug_view(old(list)@), message@),
{
    let ghost before = list@;
    list.push(message);
    assert(types::debug_view(list@) =~= types::debug_view(before).push(message@));
    if list.len() > MAX_DEBUG_MESSAGES {
        let ghost all = list@;
        let _ = list.remove(0);
        assert(types::debug_view(list@) =~= types::debug_view(all).skip(1));
    }
}

/// The notifications one tick later.
fn later(list: Vec<WtNotification>) -> (kept: Vec<WtNotification>)
    ensures
        notifications::notifications_view(kept@) == ticked(
            notifications::notifications_view(list@),
        ),
{
    let ghost all = notifications::notifications_view(list@);
    let mut kept: Vec<WtNotification> = Vec::new();
    let mut rest = list;
    assert(all.take(0) =~= Seq::<NotificationView>::empty());
    assert(notifications::notifications_view(kept@) =~= Seq::<NotificationView>::empty());
    while rest.len() > 0
        invariant
            all == notifications::notifications_view(list@),
            rest@.len() <= list@.len(),
            rest@ == list@.skip(list@.len() - rest@.len()),
            notifications::notifications_view(kept@) == ticked(
                all.take(list@.len() - rest@.len()),
            ),
        decreases rest@.len(),
    {
        let ghost k = list@.len() - rest@.len();
        let ghost part = all.take(k + 1);
        assert(part.drop_last() =~= all.take(k));
        let mut n = rest.remove(0);
        assert(n == list@[k]);
        assert(part.last() == n@);
        assert(rest@ =~= list@.skip(k + 1));
        n.age_ticks = n.age_ticks.saturating_add(1);
        assert(n@ == part.last().aged());
        if !n.should_auto_dismiss() {
            let ghost earlier = kept@;
            kept.push(n);
            assert(notifications::notifications_view(kept@) =~= notifications::notifications_view(
                earlier,
            ).push(n@));
        }
    }
    assert(all.take(list@.len() as int) =~= all);
    kept
}

/// Whether every notification was seen.
fn seen_all(list: &Vec<WtNotification>) -> (yes: bool)
    ensures
        yes == all_seen(notifications::notifications_view(list@)),
{
    let mut i: usize = 0;
    while i < list.len()
        invariant
            i <= list@.len(),
            forall|j: int|
                0 <= j < i ==> (#[trigger] notifications::notifications_view(
                    list@,
                )[j]).acknowledged,
        decreases list@.len() - i,
    {
        assert(notifications::notifications_view(list@)[i as int] == list@[i as int]@);
        if !list[i].acknowledged {
            return false;
        }
        i += 1;
    }
    true
}

fn with_new_status(message: &ChatMessage, id: &str, status: &str) -> (changed: ChatMessage)
    ensures
        changed@ == with_status(message@, id@, status@),
{
    match message {
        ChatMessage::ToolCall { id: own, title, .. } => if same_text(own.as_str(), id) {
            ChatMessage::ToolCall {
                id: own.clone(),
                title: title.clone(),
                status: status.to_owned(),
            }
        } else {
            message.clone()
        },
        _ => message.clone(),
    }
}

/// The messages, with another status for a tool call.
fn change_messages(messages: &Vec<ChatMessage>, id: &str, status: &str) -> (changed: Vec<
    ChatMessage,
>)
    ensures
        types::chat_view(changed@) == messages_with_status(
            types::chat_view(messages@),
            id@,
            status@,
        ),
{
    let ghost wanted = messages_with_status(types::chat_view(messages@), id@, status@);
    let mut changed: Vec<ChatMessage> = Vec::new();
    let mut i: usize = 0;
    while i < messages.len()
        invariant
            i <= messages@.len(),
            wanted == messages_with_status(types::chat_view(messages@), id@, status@),
            types::chat_view(changed@) == wanted.take(i as int),
        decreases messages@.len() - i,
    {
        let ghost earlier = changed@;
        let message = with_new_status(&messages[i], id, status);
        assert(types::chat_view(messages@)[i as int] == messages@[i as int]@);
        assert(wanted[i as int] == message@);
        changed.push(message);
        i += 1;
        assert(types::chat_view(changed@) =~= types::chat_view(earlier).push(message@));
        assert(wanted.take(i as int) =~= wanted.take(i - 1).push(wanted[i - 1]));
    }
    assert(wanted.take(i as int) =~= wanted);
    changed
}

impl App {
    fn panel_top(&self) -> (top: u16)
        ensures
            top == self@.panel_top(),
    {
        let height: u16 = self.rec_panel_height();
        self.terminal_rows.saturating_sub(height + 3)
    }

    fn set_rec_scroll(&mut self, lines: usize)
        ensures
            final(self)@ == (AppView { rec_scroll: lines, ..old(self)@ }),
    {
        self.rec_scroll = lines;
    }

    fn scroll_cards(&mut self, delta: i32)
        ensures
            final(self)@ == old(self)@.with_cards_turned(delta),
    {
        let amount: usize = magnitude(delta);
        if delta > 0 {
            self.set_rec_scroll(self.rec_scroll.saturating_add(amount));
        } else {
            self.set_rec_scroll(self.rec_scroll.saturating_sub(amount));
        }
    }

    fn scroll_chat(&mut self, delta: i32)
        ensures
            final(self)@ == old(self)@.with_chat_turned(delta),
    {
        let amount: usize = magnitude(delta);
        if delta < 0 {
            self.set_scroll(self.scroll_offset.saturating_add(amount));
        } else {
            self.set_scroll(self.scroll_offset.saturating_sub(amount));
        }
    }

    fn turn_wheel(&mut self, delta: i32, row: u16)
        ensures
            final(self)@ == old(self)@.with_wheel(delta, row),
    {
        if self.recommendations.is_some() && row >= self.panel_top() {
            self.scroll_cards(delta);
        } else {
            self.scroll_chat(delta);
        }
    }

    fn next_frame(&mut self)
        ensures
            final(self)@ == old(self)@.with_next_frame(),
    {
        if self.has_activity_indicator() {
            let frame: usize = self.activity_frame % 10;
            assert((frame + 1) % 10 == (self.activity_frame + 1) % 10);
            self.activity_frame = (frame + 1) % 10;
        }
    }

    fn age_notifications(&mut self)
        ensures
            final(self)@ == old(self)@.with_notifications(ticked(old(self)@.wt_notifications)),
    {
        let mut list: Vec<WtNotification> = Vec::new();
        std::mem::swap(&mut list, &mut self.wt_notifications);
        self.wt_notifications = later(list);
    }

    fn hide_banner(&mut self)
        ensures
            final(self)@ == old(self)@.without_banner(),
    {
        self.show_notification_banner = false;
    }

    fn tick(&mut self)
        ensures
            final(self)@ == old(self)@.with_tick(),
    {
        self.next_frame();
        self.age_notifications();
        if seen_all(&self.wt_notifications) {
            self.hide_banner();
        }
    }

    fn resize(&mut self, cols: u16, rows: u16)
        ensures
            final(self)@ == old(self)@.with_size(cols, rows),
    {
        self.terminal_cols = cols;
        self.terminal_rows = rows;
    }

    fn set_progress(&mut self, status: Option<String>)
        ensures
            final(self)@ == old(self)@.with_progress(coordinator::seen(status)),
    {
        self.progress_status = status;
    }

    fn set_agent(
        &mut self,
        name: String,
        agent_model: Option<String>,
        version: Option<String>,
        session: String,
    )
        ensures
            final(self)@ == old(self)@.with_agent(
                name@,
                coordinator::seen(agent_model),
                coordinator::seen(version),
                session@,
            ),
    {
        self.agent_name = name;
        self.agent_model = agent_model;
        self.agent_version = version;
        self.session_id = session;
        self.state = ConnectionState::Connected;
    }

    fn set_prompt_name(&mut self, name: String)
        ensures
            final(self)@ == old(self)@.with_prompt_name(name@),
    {
        self.prompt_name = Some(name);
    }

    fn take_thought(&mut self, piece: &str)
        ensures
            final(self)@ == old(self)@.with_thought(piece@),
    {
        let mut shown = self.pending_thought_response.clone();
        append_thought_preview(&mut shown, piece);
        self.pending_thought_response = shown;
        self.prompt_in_flight = true;
        if self.progress_status.is_none() {
            self.progress_status = Some("Thinking...".to_owned());
        }
    }

    fn take_piece(&mut self, piece: &str)
        ensures
            final(self)@ == old(self)@.with_piece(piece@),
    {
        let mut answer = self.pending_agent_response.clone();
        answer.append(piece);
        self.pending_agent_response = answer;
        self.agent_streaming = true;
        self.prompt_in_flight = true;
        self.progress_status = None;
        self.pending_thought_response = String::new();
    }

    fn set_timing(&mut self, note: String)
        ensures
            final(self)@ == old(self)@.with_timing(note@),
    {
        self.timing_note = Some(note);
    }

    fn add_tool(&mut self, id: &str, title: &str, status: &str)
        ensures
            final(self)@ == old(self)@.with_tool(id@, title@, status@),
    {
        let entry = ToolCallEntry {
            id: id.to_owned(),
            title: title.to_owned(),
            status: status.to_owned(),
        };
        let ghost seen = entry@;
        self.tool_calls.insert(id.to_owned(), entry);
        assert(types::tools_map(self.tool_calls@) =~= types::tools_map(
            old(self).tool_calls@,
        ).insert(id@, seen));
    }

    fn set_tool_status(&mut self, id: &str, status: &str)
        ensures
            final(self)@ == (AppView {
                tool_calls: tools_with_status(old(self)@.tool_calls, id@, status@),
                ..old(self)@
            }),
    {
        let ghost before = self.tool_calls@;
        match self.tool_calls.remove(id) {
            Some(entry) => {
                let changed = ToolCallEntry {
                    id: entry.id,
                    title: entry.title,
                    status: status.to_owned(),
                };
                let ghost seen = changed@;
                self.tool_calls.insert(id.to_owned(), changed);
                assert(types::tools_map(self.tool_calls@) =~= types::tools_map(before).insert(
                    id@,
                    seen,
                ));
            },
            None => {
                assert(self.tool_calls@ =~= before);
            },
        }
    }

    fn set_messages(&mut self, messages: Vec<ChatMessage>)
        ensures
            final(self)@ == (AppView { messages: types::chat_view(messages@), ..old(self)@ }),
    {
        self.messages = messages;
    }

    fn update_tool(&mut self, id: &str, status: &str)
        ensures
            final(self)@ == old(self)@.with_tool_status(id@, status@),
    {
        self.set_tool_status(id, status);
        let messages = change_messages(&self.messages, id, status);
        self.set_messages(messages);
    }

    fn add_debug_message(&mut self, message: DebugMessage)
        ensures
            final(self)@ == old(self)@.with_debug_message(message@),
    {
        record(&mut self.debug_messages, message);
    }

    fn open_request(&mut self, description: String, options: Vec<PermOption>, direct: bool)
        ensures
            final(self)@ == old(self)@.with_request(description@, options@, direct),
    {
        self.set_permission(Some(PermissionState { description, options, selected: 0, direct }));
    }

    fn take_stage(&mut self, stage: String)
        ensures
            final(self)@ == old(self)@.with_stage(stage@),
    {
        self.set_state(ConnectionState::Connecting(stage));
        self.publish_agent_status();
    }

    fn connect(
        &mut self,
        name: String,
        agent_model: Option<String>,
        version: Option<String>,
        session: String,
    )
        ensures
            final(self)@ == old(self)@.with_connection(
                name@,
                coordinator::seen(agent_model),
                coordinator::seen(version),
                session@,
            ),
    {
        self.set_agent(name, agent_model, version, session);
        self.publish_agent_status();
    }

    fn tell(&mut self, message: ChatMessage)
        ensures
            final(self)@ == old(self)@.tells(message@),
    {
        self.say(message);
        self.scroll_to_bottom();
    }

    fn handle_window_event(&mut self, event: AppEvent, ctx: &EventContext)
        requires
            old(self)@.can_take(event),
        ensures
            final(self)@ == old(self)@.with_window_event(event, *ctx),
    {
        match event {
            AppEvent::Key(key) => self.handle_key(key, ctx),
            AppEvent::MouseScroll { delta, row } => self.turn_wheel(delta, row),
            AppEvent::Tick => self.tick(),
            AppEvent::Resize(cols, rows) => self.resize(cols, rows),
            _ => {},
        }
    }

    fn handle_connection_event(&mut self, event: AppEvent, ctx: &EventContext)
        ensures
            final(self)@ == old(self)@.with_connection_event(event, *ctx),
    {
        match event {
            AppEvent::ConnectionStage(stage) => self.take_stage(stage),
            AppEvent::ProgressStatus(status) => {
                self.set_progress(Some(status));
                self.scroll_to_bottom();
            },
            AppEvent::AgentConnected { name, model, version, session_id } => {
                self.connect(name, model, version, session_id);
            },
            AppEvent::PromptTemplateLoaded { name } => self.set_prompt_name(name),
            AppEvent::AgentError(message) => self.take_agent_error(message, &ctx.profile),
            AppEvent::TimingMetric(note) => self.set_timing(note),
            _ => {},
        }
    }

    fn handle_conversation_event(&mut self, event: AppEvent)
        requires
            old(self)@.can_take(event),
        ensures
            final(self)@ == old(self)@.with_conversation_event(event),
    {
        match event {
            AppEvent::UserMessage(message) => {
                self.prepare_for_new_prompt(message.as_str());
                self.tell(ChatMessage::User(message));
            },
            AppEvent::ExecutionInfo(_) => self.scroll_to_bottom(),
            AppEvent::AgentThoughtChunk(piece) => self.take_thought(piece.as_str()),
            AppEvent::AgentMessageChunk(piece) => self.take_piece(piece.as_str()),
            AppEvent::AgentMessageEnd(parsed) => self.end_message(parsed),
            AppEvent::ToolCall { id, title, status } => {
                self.add_tool(id.as_str(), title.as_str(), status.as_str());
                self.tell(ChatMessage::ToolCall { id, title, status });
            },
            AppEvent::ToolCallUpdate { id, status } => {
                self.update_tool(id.as_str(), status.as_str());
            },
            AppEvent::Plan(entries) => self.tell(ChatMessage::Plan(entries)),
            AppEvent::SystemMessage(message) => self.tell(ChatMessage::System(message)),
            _ => {},
        }
    }

    fn handle_permission_event(&mut self, event: AppEvent)
        ensures
            final(self)@ == old(self)@.with_permission_event(event),
    {
        match event {
            AppEvent::PermissionRequest { description, options } => {
                self.open_request(description, options, true);
            },
            AppEvent::SharedPermissionRequest { description, options } => {
                self.open_request(description, options, false);
            },
            AppEvent::PermissionCleared => self.set_permission(None),
            _ => {},
        }
    }

    fn handle_setup_event(&mut self, event: AppEvent)
        ensures
            final(self)@ == old(self)@.with_setup_event(event),
    {
        match event {
            AppEvent::PreflightComplete(result) => self.take_preflight(result),
            AppEvent::InstallStarted => self.start_install(),
            AppEvent::InstallProgress(line) => self.log_install(line),
            AppEvent::InstallComplete(result) => self.finish_install(result),
            _ => {},
        }
    }

    fn take_focus_failure(&mut self, pane_session_id: String, reason: FocusPaneFailureReason)
        ensures
            final(self)@ == old(self)@.with_focus_failure(pane_session_id@, reason),
    {
        match reason {
            FocusPaneFailureReason::NotFound => {
                self.ask(Effect::ChangeSession(SessionEvent::PaneClosed { pane_session_id }));
            },
            FocusPaneFailureReason::Other { .. } => {},
        }
    }

    fn handle_outside_event(&mut self, event: AppEvent, ctx: &EventContext)
        ensures
            final(self)@ == old(self)@.with_outside_event(event, *ctx),
    {
        match event {
            AppEvent::DebugPipeMessage(message) => self.add_debug_message(message),
            AppEvent::SharedStateSnapshot(shared) => {
                self.apply_shared_snapshot(shared, &ctx.profile);
            },
            AppEvent::WtEvent { method, session_id, params } => {
                self.handle_wt_event(method.as_str(), session_id.as_str(), &params, ctx);
            },
            AppEvent::ResumePaneCreated { key, pane_session_id } => {
                self.ask(
                    Effect::ChangeSession(
                        SessionEvent::ResumePaneAssigned { key, pane_session_id },
                    ),
                );
            },
            AppEvent::PaneFocusFailed { pane_session_id, reason } => {
                self.take_focus_failure(pane_session_id, reason);
            },
            _ => {},
        }
    }

    /// Takes an event.
    pub fn handle_event(&mut self, event: AppEvent, ctx: &EventContext)
        requires
            old(self)@.can_take(event),
        ensures
            final(self)@ == old(self)@.with_event(event, *ctx),
    {
        match event_kind(&event) {
            EventKind::Window => self.handle_window_event(event, ctx),
            EventKind::Connection => self.handle_connection_event(event, ctx),
            EventKind::Conversation => self.handle_conversation_event(event),
            EventKind::Permission => self.handle_permission_event(event),
            EventKind::Setup => self.handle_setup_event(event),
            EventKind::Outside => self.handle_outside_event(event, ctx),
        }
    }

    fn forget_pending_selection(&mut self)
        ensures
            final(self)@ == (AppView { selection_visible_pending: false, ..old(self)@ }),
    {
        self.selection_visible_pending = false;
    }

    /// After the screen was drawn: where it shows recommendations for the first
    /// time, what the timing log of the prompt says about them.
    pub fn log_selection_visible_if_needed(&mut self) -> (note: Option<SelectionNote>)
        ensures
            final(self)@ == old(self)@.with_cards_seen(),
            match note {
                Some(note) => old(self)@.shows_new_cards() && old(self)@.current_prompt_id == Some(
                    note.prompt_id,
                ) && old(self)@.current_prompt_stamp == Some(note.stamp) && note.details@ == old(
                    self,
                )@.selection_details(),
                None => !old(self)@.shows_new_cards() || old(self)@.current_prompt_id is None
                    || old(self)@.current_prompt_stamp is None,
            },
    {
        let count: usize = match &self.recommendations {
            Some(set) => set.choices.len(),
            None => return None,
        };
        if !self.selection_visible_pending {
            return None;
        }
        let note = match (self.current_prompt_id, self.current_prompt_stamp) {
            (Some(prompt_id), Some(stamp)) => {
                let mut details = "choice_count=".to_owned();
                details.append(number_text(count as u64).as_str());
                details.append(" selected_index=");
                details.append(number_text(self.selected_recommendation as u64).as_str());
                Some(SelectionNote { prompt_id, stamp, details })
            },
            _ => None,
        };
        self.forget_pending_selection();
        note
    }

    /// Whether the event changes what the screen shows.
    pub fn event_requires_redraw(&self, event: &AppEvent) -> (yes: bool)
        ensures
            yes == self@.needs_redraw(*event),
    {
        match event {
            AppEvent::Tick => self.has_activity_indicator() || self.show_notification_banner,
            AppEvent::DebugPipeMessage(_) => self.show_debug_panel,
            _ => true,
        }
    }
}

} // verus!
