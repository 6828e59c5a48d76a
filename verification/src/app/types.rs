//! The data that the application holds, takes and hands out.
use crate::coordinator;
use crate::coordinator::{RecommendationChoice, RecommendationSet};
use crate::json::Json;
use crate::preflight;
use crate::preflight::{AgentProfile, PreflightResult};
use crate::text;
use vstd::prelude::*;

verus! {

/// Which way a message of the debug panel went.
#[derive(Debug, Clone, Copy, PartialEq, Eq, Structural)]
pub enum DebugDir {
    Sent,
    Received,
}

/// A message of the debug panel. The stamp says when it was seen.
#[derive(Debug)]
pub struct DebugMessage {
    pub stamp: u64,
    pub direction: DebugDir,
    pub content: String,
}

pub ghost struct DebugView {
    pub stamp: u64,
    pub direction: DebugDir,
    pub content: Seq<char>,
}

impl View for DebugMessage {
    type V = DebugView;

    open spec fn view(&self) -> DebugView {
        DebugView { stamp: self.stamp, direction: self.direction, content: self.content@ }
    }
}

pub open spec fn debug_view(messages: Seq<DebugMessage>) -> Seq<DebugView> {
    messages.map_values(|message: DebugMessage| message@)
}

/// The connection to the agent.
#[derive(Debug, PartialEq)]
pub enum ConnectionState {
    Disconnected,
    Connecting(String),
    Connected,
    Failed(String),
}

pub ghost enum ConnectionView {
    Disconnected,
    Connecting(Seq<char>),
    Connected,
    Failed(Seq<char>),
}

impl View for ConnectionState {
    type V = ConnectionView;

    open spec fn view(&self) -> ConnectionView {
        match *self {
            ConnectionState::Disconnected => ConnectionView::Disconnected,
            ConnectionState::Connecting(stage) => ConnectionView::Connecting(stage@),
            ConnectionState::Connected => ConnectionView::Connected,
            ConnectionState::Failed(reason) => ConnectionView::Failed(reason@),
        }
    }
}

impl ConnectionState {
    pub fn is_connected(&self) -> (yes: bool)
        ensures
            yes == (self@ is Connected),
    {
        match self {
            ConnectionState::Connected => true,
            _ => false,
        }
    }
}

/// How far a step of a plan is.
#[derive(Debug, Clone, Copy, PartialEq, Eq, Structural)]
pub enum PlanEntryStatus {
    Pending,
    InProgress,
    Completed,
}

/// A step of a plan.
#[derive(Debug, PartialEq)]
pub struct PlanEntry {
    pub content: String,
    pub status: PlanEntryStatus,
}

pub ghost struct PlanView {
    pub content: Seq<char>,
    pub status: PlanEntryStatus,
}

impl View for PlanEntry {
    type V = PlanView;

    open spec fn view(&self) -> PlanView {
        PlanView { content: self.content@, status: self.status }
    }
}

pub open spec fn plan_view(entries: Seq<PlanEntry>) -> Seq<PlanView> {
    entries.map_values(|entry: PlanEntry| entry@)
}

/// A line of the chat.
#[derive(Debug, PartialEq)]
pub enum ChatMessage {
    User(String),
    Agent(String),
    System(String),
    ToolCall { id: String, title: String, status: String },
    Plan(Vec<PlanEntry>),
    Error(String),
    AgentEvent(String),
}

pub ghost enum ChatView {
    User(Seq<char>),
    Agent(Seq<char>),
    System(Seq<char>),
    ToolCall { id: Seq<char>, title: Seq<char>, status: Seq<char> },
    Plan(Seq<PlanView>),
    Error(Seq<char>),
    AgentEvent(Seq<char>),
}

impl View for ChatMessage {
    type V = ChatView;

    open spec fn view(&self) -> ChatView {
        match *self {
            ChatMessage::User(text) => ChatView::User(text@),
            ChatMessage::Agent(text) => ChatView::Agent(text@),
            ChatMessage::System(text) => ChatView::System(text@),
            ChatMessage::ToolCall { id, title, status } => ChatView::ToolCall {
                id: id@,
                title: title@,
                status: status@,
            },
            ChatMessage::Plan(entries) => ChatView::Plan(plan_view(entries@)),
            ChatMessage::Error(text) => ChatView::Error(text@),
            ChatMessage::AgentEvent(text) => ChatView::AgentEvent(text@),
        }
    }
}

pub open spec fn chat_view(messages: Seq<ChatMessage>) -> Seq<ChatView> {
    messages.map_values(|message: ChatMessage| message@)
}

fn clone_plan(entries: &Vec<PlanEntry>) -> (copy: Vec<PlanEntry>)
    ensures
        plan_view(copy@) == plan_view(entries@),
{
    let mut copy: Vec<PlanEntry> = Vec::new();
    let mut i: usize = 0;
    while i < entries.len()
        invariant
            i <= entries@.len(),
            plan_view(copy@) == plan_view(entries@).take(i as int),
        decreases entries@.len() - i,
    {
        let ghost earlier = copy@;
        copy.push(
            PlanEntry { content: entries[i].content.clone(), status: entries[i].status },
        );
        i += 1;
        assert(plan_view(copy@) =~= plan_view(earlier).push(entries@[i - 1]@));
        assert(plan_view(entries@).take(i as int) =~= plan_view(entries@).take(i - 1).push(
            entries@[i - 1]@,
        ));
    }
    assert(plan_view(entries@).take(i as int) =~= plan_view(entries@));
    copy
}

impl Clone for ChatMessage {
    fn clone(&self) -> (copy: Self)
        ensures
            copy@ == self@,
    {
        match self {
            ChatMessage::User(text) => ChatMessage::User(text.clone()),
            ChatMessage::Agent(text) => ChatMessage::Agent(text.clone()),
            ChatMessage::System(text) => ChatMessage::System(text.clone()),
            ChatMessage::ToolCall { id, title, status } => ChatMessage::ToolCall {
                id: id.clone(),
                title: title.clone(),
                status: status.clone(),
            },
            ChatMessage::Plan(entries) => ChatMessage::Plan(clone_plan(entries)),
            ChatMessage::Error(text) => ChatMessage::Error(text.clone()),
            ChatMessage::AgentEvent(text) => ChatMessage::AgentEvent(text.clone()),
        }
    }
}

/// A prompt that was answered, with what was said.
#[derive(Debug, PartialEq)]
pub struct CompletedTurn {
    pub prompt: String,
    pub details: Vec<ChatMessage>,
}

pub ghost struct TurnView {
    pub prompt: Seq<char>,
    pub details: Seq<ChatView>,
}

impl View for CompletedTurn {
    type V = TurnView;

    open spec fn view(&self) -> TurnView {
        TurnView { prompt: self.prompt@, details: chat_view(self.details@) }
    }
}

pub open spec fn turns_view(turns: Seq<CompletedTurn>) -> Seq<TurnView> {
    turns.map_values(|turn: CompletedTurn| turn@)
}

pub open spec fn turn_seen(turn: Option<CompletedTurn>) -> Option<TurnView> {
    match turn {
        Some(turn) => Some(turn@),
        None => None,
    }
}

/// An answer that the user may give to a permission request.
#[derive(Debug, PartialEq)]
pub struct PermOption {
    pub id: String,
    pub name: String,
    pub kind: String,
}

pub ghost struct OptionView {
    pub id: Seq<char>,
    pub name: Seq<char>,
    pub kind: Seq<char>,
}

impl View for PermOption {
    type V = OptionView;

    open spec fn view(&self) -> OptionView {
        OptionView { id: self.id@, name: self.name@, kind: self.kind@ }
    }
}

pub open spec fn options_view(options: Seq<PermOption>) -> Seq<OptionView> {
    options.map_values(|option: PermOption| option@)
}

/// A permission request that is open. It is answered directly where it came
/// with a responder of its own.
#[derive(Debug)]
pub struct PermissionState {
    pub description: String,
    pub options: Vec<PermOption>,
    pub selected: usize,
    pub direct: bool,
}

pub ghost struct PermissionView {
    pub description: Seq<char>,
    pub options: Seq<OptionView>,
    pub selected: usize,
    pub direct: bool,
}

impl View for PermissionState {
    type V = PermissionView;

    open spec fn view(&self) -> PermissionView {
        PermissionView {
            description: self.description@,
            options: options_view(self.options@),
            selected: self.selected,
            direct: self.direct,
        }
    }
}

pub open spec fn permission_seen(permission: Option<PermissionState>) -> Option<PermissionView> {
    match permission {
        Some(permission) => Some(permission@),
        None => None,
    }
}

/// Which of its two faces the application shows.
#[derive(Debug, Clone, Copy, PartialEq, Eq, Structural)]
pub enum AppMode {
    /// The chat with the agent.
    Chat,
    /// The setup wizard: the agent's program is missing or the user is not
    /// logged in.
    Setup,
}

/// The setup wizard.
#[derive(Debug)]
pub struct SetupState {
    pub preflight: PreflightResult,
    /// The row that is selected: the program, or the login.
    pub selected_index: usize,
    pub install_in_progress: bool,
    /// The last lines that the installation wrote.
    pub install_log: Vec<String>,
    pub install_error: Option<String>,
}

pub ghost struct SetupView {
    pub preflight: preflight::PreflightView,
    pub selected_index: usize,
    pub install_in_progress: bool,
    pub install_log: Seq<Seq<char>>,
    pub install_error: Option<Seq<char>>,
}

impl View for SetupState {
    type V = SetupView;

    open spec fn view(&self) -> SetupView {
        SetupView {
            preflight: self.preflight@,
            selected_index: self.selected_index,
            install_in_progress: self.install_in_progress,
            install_log: text::texts(self.install_log@),
            install_error: coordinator::seen(self.install_error),
        }
    }
}

pub open spec fn setup_seen(setup: Option<SetupState>) -> Option<SetupView> {
    match setup {
        Some(setup) => Some(setup@),
        None => None,
    }
}

/// What fills the screen.
#[derive(Debug, Clone, Copy, PartialEq, Eq, Structural)]
pub enum Screen {
    Chat,
    Agents,
}

/// A tool call of the agent.
#[derive(Debug)]
pub struct ToolCallEntry {
    pub id: String,
    pub title: String,
    pub status: String,
}

pub ghost struct ToolView {
    pub id: Seq<char>,
    pub title: Seq<char>,
    pub status: Seq<char>,
}

impl View for ToolCallEntry {
    type V = ToolView;

    open spec fn view(&self) -> ToolView {
        ToolView { id: self.id@, title: self.title@, status: self.status@ }
    }
}

/// The tool calls by their ids.
pub open spec fn tools_map(tools: Map<Seq<char>, ToolCallEntry>) -> Map<Seq<char>, ToolView> {
    tools.map_values(|tool: ToolCallEntry| tool@)
}

/// The conversation of a tab that is not in front.
#[derive(Debug)]
pub struct TabSession {
    pub messages: Vec<ChatMessage>,
    pub completed_turns: Vec<CompletedTurn>,
    pub selected_history: Option<usize>,
    pub expanded_history: Option<usize>,
    pub scroll_offset: usize,
}

pub ghost struct TabView {
    pub messages: Seq<ChatView>,
    pub completed_turns: Seq<TurnView>,
    pub selected_history: Option<usize>,
    pub expanded_history: Option<usize>,
    pub scroll_offset: usize,
}

impl View for TabSession {
    type V = TabView;

    open spec fn view(&self) -> TabView {
        TabView {
            messages: chat_view(self.messages@),
            completed_turns: turns_view(self.completed_turns@),
            selected_history: self.selected_history,
            expanded_history: self.expanded_history,
            scroll_offset: self.scroll_offset,
        }
    }
}

/// The conversations of the tabs, by tab.
pub open spec fn tabs_map(tabs: Map<Seq<char>, TabSession>) -> Map<Seq<char>, TabView> {
    tabs.map_values(|tab: TabSession| tab@)
}

/// Where a prompt comes from.
#[derive(Debug)]
pub struct PaneContext {
    pub session_id: Option<String>,
    pub tab_id: Option<String>,
    pub window_id: Option<String>,
    pub cwd: Option<String>,
    pub source_session_id: Option<String>,
}

pub ghost struct ContextView {
    pub session_id: Option<Seq<char>>,
    pub tab_id: Option<Seq<char>>,
    pub window_id: Option<Seq<char>>,
    pub cwd: Option<Seq<char>>,
    pub source_session_id: Option<Seq<char>>,
}

impl View for PaneContext {
    type V = ContextView;

    open spec fn view(&self) -> ContextView {
        ContextView {
            session_id: coordinator::seen(self.session_id),
            tab_id: coordinator::seen(self.tab_id),
            window_id: coordinator::seen(self.window_id),
            cwd: coordinator::seen(self.cwd),
            source_session_id: coordinator::seen(self.source_session_id),
        }
    }
}

/// The number of the next prompt, and when it is submitted.
#[derive(Debug, Clone, Copy, PartialEq, Eq, Structural)]
pub struct PromptTicket {
    pub id: u64,
    pub stamp: u64,
}

/// A key of the keyboard.
#[derive(Debug, Clone, Copy, PartialEq, Eq, Structural)]
pub enum KeyCode {
    Up,
    Down,
    Left,
    Right,
    Home,
    End,
    PageUp,
    PageDown,
    Tab,
    Enter,
    Esc,
    Backspace,
    Delete,
    F(u8),
    Char(char),
    Other,
}

/// The keys that are held down with another one. `others` stands for those
/// besides Control and Shift.
#[derive(Debug, Clone, Copy, PartialEq, Eq, Structural)]
pub struct KeyModifiers {
    pub control: bool,
    pub shift: bool,
    pub others: bool,
}

/// A key that was pressed.
#[derive(Debug, Clone, Copy, PartialEq, Eq, Structural)]
pub struct KeyEvent {
    pub code: KeyCode,
    pub modifiers: KeyModifiers,
}

/// What an agent in another pane is doing.
#[derive(Debug, Clone, Copy, PartialEq, Eq, Structural)]
pub enum AgentStatus {
    Idle,
    Working,
    Attention,
    Error,
    Ended,
    Historical,
}

/// The program that an agent session runs in.
#[derive(Debug, Clone, Copy, PartialEq, Eq, Structural)]
pub enum CliSource {
    Claude,
    Copilot,
    Gemini,
    Unknown,
}

/// An agent session as the list of agents shows it.
#[derive(Debug)]
pub struct AgentSession {
    pub key: String,
    pub cli_source: CliSource,
    pub pane_session_id: Option<String>,
    pub cwd: String,
    pub status: AgentStatus,
}

/// How the session of a program is resumed.
#[derive(Debug)]
pub struct ResumeProfile {
    /// The name of the program.
    pub id: String,
    /// The option that resumes a session; empty where there is none.
    pub resume_flag: String,
    pub install_hint: String,
    /// Whether the program is on the path.
    pub available: bool,
    /// The name under which the program is launched.
    pub program: String,
}

/// Why a pane could not be brought to the front.
#[derive(Debug)]
pub enum FocusPaneFailureReason {
    /// The pane is gone.
    NotFound,
    Other { exit_code: Option<i32>, stderr: String },
}

/// What is known outside the application when an event arrives.
#[derive(Debug)]
pub struct EventContext {
    /// The agent sessions, as the list of agents shows them.
    pub rows: Vec<AgentSession>,
    /// Whether the pane that an event is about runs a known agent.
    pub agent_pane: bool,
    /// The key of the agent session that an event is about.
    pub session_key: String,
    /// Whether there is a session with that key.
    pub session_known: bool,
    /// The last part of the directory that an event names.
    pub cwd_label: String,
    /// The tools that wait for the user.
    pub user_input_tools: Vec<String>,
    /// The profile of the agent that the application talks to.
    pub profile: AgentProfile,
    /// How the selected session is resumed.
    pub resume: ResumeProfile,
    pub ticket: PromptTicket,
}

/// A change to the agent sessions.
#[derive(Debug)]
pub enum SessionEvent {
    SessionStarted {
        key: String,
        cli_source: Option<String>,
        pane_session_id: String,
        cwd: String,
        title: String,
    },
    ToolStarting { key: String, tool_name: String },
    ToolCompleted { key: String },
    Notification { key: String, message: String },
    SessionStopped { key: String, reason: String },
    ConnectionFailed { pane_session_id: String, reason: String },
    PaneClosed { pane_session_id: String },
    ResumeDispatched { key: String },
    ResumePaneAssigned { key: String, pane_session_id: String },
}

pub ghost enum SessionView {
    SessionStarted {
        key: Seq<char>,
        cli_source: Option<Seq<char>>,
        pane_session_id: Seq<char>,
        cwd: Seq<char>,
        title: Seq<char>,
    },
    ToolStarting { key: Seq<char>, tool_name: Seq<char> },
    ToolCompleted { key: Seq<char> },
    Notification { key: Seq<char>, message: Seq<char> },
    SessionStopped { key: Seq<char>, reason: Seq<char> },
    ConnectionFailed { pane_session_id: Seq<char>, reason: Seq<char> },
    PaneClosed { pane_session_id: Seq<char> },
    ResumeDispatched { key: Seq<char> },
    ResumePaneAssigned { key: Seq<char>, pane_session_id: Seq<char> },
}

impl View for SessionEvent {
    type V = SessionView;

    open spec fn view(&self) -> SessionView {
        match *self {
            SessionEvent::SessionStarted { key, cli_source, pane_session_id, cwd, title } => {
                SessionView::SessionStarted {
                    key: key@,
                    cli_source: coordinator::seen(cli_source),
                    pane_session_id: pane_session_id@,
                    cwd: cwd@,
                    title: title@,
                }
            },
            SessionEvent::ToolStarting { key, tool_name } => SessionView::ToolStarting {
                key: key@,
                tool_name: tool_name@,
            },
            SessionEvent::ToolCompleted { key } => SessionView::ToolCompleted { key: key@ },
            SessionEvent::Notification { key, message } => SessionView::Notification {
                key: key@,
                message: message@,
            },
            SessionEvent::SessionStopped { key, reason } => SessionView::SessionStopped {
                key: key@,
                reason: reason@,
            },
            SessionEvent::ConnectionFailed { pane_session_id, reason } => {
                SessionView::ConnectionFailed {
                    pane_session_id: pane_session_id@,
                    reason: reason@,
                }
            },
            SessionEvent::PaneClosed { pane_session_id } => SessionView::PaneClosed {
                pane_session_id: pane_session_id@,
            },
            SessionEvent::ResumeDispatched { key } => SessionView::ResumeDispatched { key: key@ },
            SessionEvent::ResumePaneAssigned { key, pane_session_id } => {
                SessionView::ResumePaneAssigned {
                    key: key@,
                    pane_session_id: pane_session_id@,
                }
            },
        }
    }
}

/// What the application asks for.
#[derive(Debug)]
pub enum Effect {
    /// Hand a prompt to the agent.
    SubmitPrompt { id: u64, prompt: String, context: PaneContext, autofix: bool },
    /// Carry out a choice; with `insert_only` its input is typed without Enter.
    ExecuteChoice { choice: RecommendationChoice, insert_only: bool },
    /// Answer the open permission request.
    ReplyPermission { direct: bool, option_id: String },
    /// Publish an event, given as JSON text.
    Publish(String),
    /// Record the messages of the debug panel, or stop it.
    CaptureDebug(bool),
    /// Put a text on the clipboard.
    CopyText(String),
    /// Start the installation of the agent's program.
    RequestInstall,
    /// Open a page in the browser.
    OpenUrl(String),
    /// Delegate a prompt to an agent in a new tab.
    Delegate(String),
    /// Bring a pane to the front.
    FocusPane(String),
    /// Open a pane that resumes the session `key`.
    ResumeSession { key: String, commandline: String },
    /// Change the agent sessions.
    ChangeSession(SessionEvent),
    /// Drop the placeholder session of a pane.
    DropPlaceholder(String),
    /// Give the session `key` the title that its program wrote, where it has
    /// none of its own yet.
    RefreshTitle(String),
    /// Forget an agent session.
    RemoveSession(String),
}

pub ghost enum EffectView {
    SubmitPrompt { id: u64, prompt: Seq<char>, context: ContextView, autofix: bool },
    ExecuteChoice { choice: coordinator::ChoiceView, insert_only: bool },
    ReplyPermission { direct: bool, option_id: Seq<char> },
    Publish(Seq<char>),
    CaptureDebug(bool),
    CopyText(Seq<char>),
    RequestInstall,
    OpenUrl(Seq<char>),
    Delegate(Seq<char>),
    FocusPane(Seq<char>),
    ResumeSession { key: Seq<char>, commandline: Seq<char> },
    ChangeSession(SessionView),
    DropPlaceholder(Seq<char>),
    RefreshTitle(Seq<char>),
    RemoveSession(Seq<char>),
}

impl View for Effect {
    type V = EffectView;

    open spec fn view(&self) -> EffectView {
        match *self {
            Effect::SubmitPrompt { id, prompt, context, autofix } => EffectView::SubmitPrompt {
                id,
                prompt: prompt@,
                context: context@,
                autofix,
            },
            Effect::ExecuteChoice { choice, insert_only } => EffectView::ExecuteChoice {
                choice: choice@,
                insert_only,
            },
            Effect::ReplyPermission { direct, option_id } => EffectView::ReplyPermission {
                direct,
                option_id: option_id@,
            },
            Effect::Publish(json) => EffectView::Publish(json@),
            Effect::CaptureDebug(on) => EffectView::CaptureDebug(on),
            Effect::CopyText(text) => EffectView::CopyText(text@),
            Effect::RequestInstall => EffectView::RequestInstall,
            Effect::OpenUrl(url) => EffectView::OpenUrl(url@),
            Effect::Delegate(prompt) => EffectView::Delegate(prompt@),
            Effect::FocusPane(pane) => EffectView::FocusPane(pane@),
            Effect::ResumeSession { key, commandline } => EffectView::ResumeSession {
                key: key@,
                commandline: commandline@,
            },
            Effect::ChangeSession(event) => EffectView::ChangeSession(event@),
            Effect::DropPlaceholder(pane) => EffectView::DropPlaceholder(pane@),
            Effect::RefreshTitle(key) => EffectView::RefreshTitle(key@),
            Effect::RemoveSession(key) => EffectView::RemoveSession(key@),
        }
    }
}

pub open spec fn effects_view(effects: Seq<Effect>) -> Seq<EffectView> {
    effects.map_values(|effect: Effect| effect@)
}

/// What a fix of a failed command came to.
#[derive(Debug)]
pub enum AutofixDecision {
    Fix(RecommendationSet),
    Explain { title: String, explanation: String },
    Ignore,
}

/// What was read from the agent's answer.
#[derive(Debug)]
pub enum ParsedResponse {
    /// The answer to a prompt of the user: the recommendations, or why there
    /// are none.
    Recommendations(Result<RecommendationSet, String>),
    /// The answer to a failed command.
    Autofix(AutofixDecision),
    /// There is no answer to read.
    Nothing,
}

/// A permission request that another application answers too.
#[derive(Debug)]
pub struct SharedPermission {
    pub description: String,
    pub options: Vec<PermOption>,
}

/// The state that attached applications share.
#[derive(Debug)]
pub struct SharedStateSnapshot {
    pub state: ConnectionState,
    pub agent_name: String,
    pub agent_model: Option<String>,
    pub agent_version: Option<String>,
    pub prompt_name: Option<String>,
    pub progress_status: Option<String>,
    pub session_id: String,
    pub wt_connected: bool,
    pub messages: Vec<ChatMessage>,
    pub completed_turns: Vec<CompletedTurn>,
    pub recommendations: Option<RecommendationSet>,
    pub agent_streaming: bool,
    pub pending_thought_response: String,
    pub pending_agent_response: String,
    pub timing_note: Option<String>,
    pub prompt_in_flight: bool,
    pub permission: Option<SharedPermission>,
}

/// What happens to the application.
#[derive(Debug)]
pub enum AppEvent {
    Key(KeyEvent),
    /// The mouse wheel, turned up where `delta` is negative, over a row of the
    /// screen.
    MouseScroll { delta: i32, row: u16 },
    Tick,
    Resize(u16, u16),
    ConnectionStage(String),
    ProgressStatus(String),
    UserMessage(String),
    AgentConnected {
        name: String,
        model: Option<String>,
        version: Option<String>,
        session_id: String,
    },
    PromptTemplateLoaded { name: String },
    AgentError(String),
    ExecutionInfo(String),
    AgentThoughtChunk(String),
    AgentMessageChunk(String),
    /// The answer is complete, and this was read from it.
    AgentMessageEnd(ParsedResponse),
    TimingMetric(String),
    ToolCall { id: String, title: String, status: String },
    ToolCallUpdate { id: String, status: String },
    Plan(Vec<PlanEntry>),
    PermissionRequest { description: String, options: Vec<PermOption> },
    SharedPermissionRequest { description: String, options: Vec<PermOption> },
    PermissionCleared,
    SystemMessage(String),
    DebugPipeMessage(DebugMessage),
    SharedStateSnapshot(SharedStateSnapshot),
    WtEvent { method: String, session_id: String, params: Json },
    PreflightComplete(PreflightResult),
    InstallStarted,
    InstallProgress(String),
    InstallComplete(Result<(), String>),
    ResumePaneCreated { key: String, pane_session_id: String },
    PaneFocusFailed { pane_session_id: String, reason: FocusPaneFailureReason },
}

} // verus!
