//! What the keys do.
use super::autofix;
use super::autofix::fill_parent;
use super::cards;
use super::cards::{first_send_input, is_send_choice};
use super::model;
use super::model::AppView;
use super::state::App;
use super::types;
use super::types::{
    AgentSession, AgentStatus, AppMode, ChatMessage, ChatView, CliSource, Effect, EffectView,
    EventContext, KeyCode, KeyEvent, OptionView, PermOption, PermissionState, PermissionView,
    PromptTicket, ResumeProfile, Screen, SessionEvent, SessionView,
};
use crate::coordinator;
use crate::coordinator::{ChoiceView, RecommendationChoice};
use crate::editing;
use crate::text;
use crate::text::{byte_count, clone_text, contains, starts_with};
use vstd::prelude::*;

verus! {

/// A number raised by `by`, as far as its type goes.
pub open spec fn raised(n: usize, by: int) -> usize {
    if n + by > usize::MAX {
        usize::MAX
    } else {
        (n + by) as usize
    }
}

/// A number lowered by `by`, but not below zero.
pub open spec fn lowered(n: usize, by: int) -> usize {
    if n < by {
        0
    } else {
        (n - by) as usize
    }
}

/// The key switches between the chat and the list of agents: F2 alone, or Tab
/// with Control.
pub open spec fn toggles_screen(key: KeyEvent) -> bool {
    ||| key.code == KeyCode::F(2) && !key.modifiers.control && !key.modifiers.shift
        && !key.modifiers.others
    ||| key.code == KeyCode::Tab && key.modifiers.control && !key.modifiers.shift
        && !key.modifiers.others
}

/// The agent of the session is running.
pub open spec fn is_live(status: AgentStatus) -> bool {
    status != AgentStatus::Ended && status != AgentStatus::Historical
}

/// The name of the program that a session runs in, where it is known. Of the
/// sessions that are neither Copilot's nor Gemini's it is the name `named` under
/// which the program was looked up.
pub open spec fn program_name(source: CliSource, named: Seq<char>) -> Option<Seq<char>> {
    match source {
        CliSource::Claude => Some(named),
        CliSource::Copilot => Some("copilot"@),
        CliSource::Gemini => Some("gemini"@),
        CliSource::Unknown => None,
    }
}

/// The program that can resume the session, where there is one. A placeholder
/// cannot be resumed, nor a session of a program that is not known.
pub open spec fn resumes_with(s: AgentSession, resume: ResumeProfile) -> Option<Seq<char>> {
    if text::has_prefix(s.key@, "pane:"@) || resume.resume_flag@.len() == 0 {
        None
    } else {
        program_name(s.cli_source, resume.id@)
    }
}

/// What the chat says where the program is missing.
pub open spec fn missing_program(id: Seq<char>, hint: Seq<char>) -> Seq<char> {
    "Cannot resume: '"@ + id + "' is not installed or not on PATH.\n  Install hint: "@ + hint
}

/// The command that resumes the session, in the directory where it ran.
pub open spec fn resume_command(s: AgentSession, resume: ResumeProfile) -> Seq<char> {
    let inner = resume.program@ + " "@ + resume.resume_flag@ + " "@ + s.key@;
    if s.cwd@.len() == 0 {
        inner
    } else {
        "cmd.exe /d /s /c \"cd /d \""@ + s.cwd@ + "\" && "@ + inner + "\""@
    }
}

/// The permission request with another answer selected.
pub open spec fn answer_above(permission: PermissionView) -> PermissionView {
    PermissionView { selected: lowered(permission.selected, 1), ..permission }
}

pub open spec fn answer_below(permission: PermissionView) -> PermissionView {
    PermissionView {
        selected: if permission.selected < permission.options.len() - 1 {
            (permission.selected + 1) as usize
        } else {
            permission.selected
        },
        ..permission
    }
}

/// The first answer whose kind holds `word`, looking from `from` on.
pub open spec fn answer_of_kind(
    options: Seq<OptionView>,
    word: Seq<char>,
    from: int,
) -> Option<Seq<char>>
    decreases options.len() - from,
{
    if from < 0 || from >= options.len() {
        None
    } else if text::has(options[from].kind, word) {
        Some(options[from].id)
    } else {
        answer_of_kind(options, word, from + 1)
    }
}

impl AppView {
    /// The other screen is shown.
    pub open spec fn with_other_screen(self) -> AppView {
        AppView {
            current_view: match self.current_view {
                Screen::Chat => Screen::Agents,
                Screen::Agents => Screen::Chat,
            },
            ..self
        }
    }

    pub open spec fn with_screen(self, screen: Screen) -> AppView {
        AppView { current_view: screen, ..self }
    }

    pub open spec fn with_agent_row(self, row: usize) -> AppView {
        AppView { agents_selected: Some(row), ..self }
    }

    /// The row that is selected in the list of agents.
    pub open spec fn agent_row(self) -> usize {
        match self.agents_selected {
            Some(row) => row,
            None => 0,
        }
    }

    /// The session that is selected in the list of agents.
    pub open spec fn agent_session(self, rows: Seq<AgentSession>) -> Option<AgentSession> {
        match self.agents_selected {
            Some(row) => if row < rows.len() {
                Some(rows[row as int])
            } else {
                None
            },
            None => None,
        }
    }

    /// A session that is over is resumed, where its program can do that.
    pub open spec fn with_session_resumed(self, s: AgentSession, resume: ResumeProfile) -> AppView {
        match resumes_with(s, resume) {
            None => self,
            Some(id) => if !resume.available {
                self.says(
                    ChatView::Error(missing_program(id, resume.install_hint@)),
                ).scrolled_down()
            } else {
                self.asks(
                    EffectView::ResumeSession {
                        key: s.key@,
                        commandline: resume_command(s, resume),
                    },
                ).asks(EffectView::ChangeSession(SessionView::ResumeDispatched { key: s.key@ }))
            },
        }
    }

    /// A session of the list is chosen: the pane of a running one comes to the
    /// front, and one that is over is resumed.
    pub open spec fn with_session_activated(
        self,
        s: AgentSession,
        resume: ResumeProfile,
    ) -> AppView {
        if is_live(s.status) {
            match s.pane_session_id {
                Some(pane) => self.asks(EffectView::FocusPane(pane@)),
                None => self,
            }
        } else {
            self.with_session_resumed(s, resume)
        }
    }

    /// The selected session is forgotten, where it is over.
    pub open spec fn with_session_removed(self, rows: Seq<AgentSession>) -> AppView {
        match self.agent_session(rows) {
            Some(s) => if is_live(s.status) {
                self
            } else {
                self.asks(EffectView::RemoveSession(s.key@))
            },
            None => self,
        }
    }

    /// A key is pressed in the list of agents.
    pub open spec fn with_agents_key(self, code: KeyCode, ctx: EventContext) -> AppView {
        match code {
            KeyCode::Down => self.with_agent_row(
                if self.agent_row() + 1 < ctx.rows@.len() {
                    (self.agent_row() + 1) as usize
                } else {
                    model::last_index(ctx.rows@.len())
                },
            ),
            KeyCode::Up => self.with_agent_row(lowered(self.agent_row(), 1)),
            KeyCode::Enter => match self.agent_session(ctx.rows@) {
                Some(s) => self.with_session_activated(s, ctx.resume),
                None => self,
            },
            KeyCode::Delete => self.with_session_removed(ctx.rows@),
            KeyCode::Esc => self.with_screen(Screen::Chat),
            _ => self,
        }
    }

    /// The permission request is answered.
    pub open spec fn with_reply(self, option_id: Seq<char>) -> AppView {
        self.with_permission(None).asks(
            EffectView::ReplyPermission { direct: self.permission->0.direct, option_id },
        )
    }

    /// The permission request is answered with the first answer of a kind.
    pub open spec fn with_quick_reply(self, word: Seq<char>) -> AppView {
        match answer_of_kind(self.permission->0.options, word, 0) {
            Some(id) => self.with_reply(id),
            None => self,
        }
    }

    /// A key is pressed while a permission request is open.
    pub open spec fn with_permission_key(self, code: KeyCode) -> AppView {
        let permission = self.permission->0;
        match code {
            KeyCode::Up => self.with_permission(Some(answer_above(permission))),
            KeyCode::Down => self.with_permission(Some(answer_below(permission))),
            KeyCode::Enter => self.with_reply(permission.options[permission.selected as int].id),
            KeyCode::Char(c) => if c == 'y' || c == 'Y' {
                self.with_quick_reply("allow"@)
            } else if c == 'n' || c == 'N' {
                self.with_quick_reply("reject"@)
            } else {
                self
            },
            _ => self,
        }
    }

    /// The keys go to the cards of the recommendations.
    pub open spec fn on_cards(self) -> bool {
        self.input.len() == 0 && self.recommendations is Some
    }

    pub open spec fn with_card_above(self) -> AppView {
        if self.selected_recommendation > 0 {
            self.with_selected_card((self.selected_recommendation - 1) as usize)
        } else {
            self
        }
    }

    pub open spec fn with_card_below(self) -> AppView {
        match self.recommendations {
            Some(set) => if self.selected_recommendation + 1 < set.choices.len() {
                self.with_selected_card((self.selected_recommendation + 1) as usize)
            } else {
                self
            },
            None => self,
        }
    }

    /// The next button of the card is selected, and after the last the first.
    pub open spec fn with_next_button(self) -> AppView {
        if self.button_count() > 1 {
            AppView {
                selected_button: ((self.selected_button + 1) % self.button_count()) as usize,
                ..self
            }
        } else {
            self
        }
    }

    /// The button before is selected, and before the first the last.
    pub open spec fn with_button_before(self) -> AppView {
        if self.button_count() > 1 {
            AppView {
                selected_button: ((self.selected_button + self.button_count() - 1)
                    % self.button_count()) as usize,
                ..self
            }
        } else {
            self
        }
    }

    /// The debug panel is shown or hidden.
    pub open spec fn with_debug_toggled(self) -> AppView {
        AppView { show_debug_panel: !self.show_debug_panel, debug_scroll: 0, ..self }.asks(
            EffectView::CaptureDebug(!self.show_debug_panel),
        )
    }

    pub open spec fn with_debug_scroll(self, lines: usize) -> AppView {
        AppView { debug_scroll: lines, ..self }
    }

    pub open spec fn with_scroll(self, lines: usize) -> AppView {
        AppView { scroll_offset: lines, ..self }
    }

    /// The answer that streams in is interrupted, or else the application ends.
    pub open spec fn with_interrupt(self) -> AppView {
        if self.agent_streaming {
            AppView { agent_streaming: false, ..self }
        } else {
            self.quitting()
        }
    }

    /// The fix that is on offer or on its way counts no more.
    pub open spec fn with_fix_withdrawn(self) -> AppView {
        AppView {
            autofix_generation: self.autofix_generation.wrapping_add(1),
            autofix_session_id: None,
            ..self
        }.without_recommendations().at_rest()
    }

    /// The user declines the fix.
    pub open spec fn with_fix_declined(self) -> AppView {
        let declined = AppView { inflight_autofix_generation: None, ..self.with_fix_withdrawn() };
        match self.autofix_session_id {
            Some(pane) => declined.publishes_cleared(pane),
            None => declined,
        }
    }

    /// The explanation of a failure is no longer on offer.
    pub open spec fn without_suggestion(self) -> AppView {
        match self.suggested_session_id {
            Some(pane) => AppView { suggested_session_id: None, ..self }.publishes_cleared(pane),
            None => self,
        }
    }

    pub open spec fn without_input(self) -> AppView {
        AppView { input: Seq::empty(), cursor_pos: 0, ..self }
    }

    /// Escape takes back one thing at a time: the notifications, the fix, the
    /// explanation, the open turn, and the input.
    pub open spec fn with_escape(self) -> AppView {
        if self.show_notification_banner {
            self.with_notifications_dismissed()
        } else if self.recommendations is Some || (self.autofix_session_id is Some
            && self.prompt_in_flight) {
            self.with_fix_declined()
        } else if self.suggested_session_id is Some {
            self.without_suggestion()
        } else if self.input.len() == 0 {
            self.with_turn_closed()
        } else {
            self.without_input()
        }
    }

    /// The input of the choice is copied, and the card goes.
    pub open spec fn with_choice_copied(self, choice: ChoiceView) -> AppView {
        let copied = match cards::first_input(choice.actions, 0) {
            Some(input) => self.asks(EffectView::CopyText(input)),
            None => self,
        };
        copied.without_fix().with_committed_turn().without_recommendations()
    }

    /// The selected button of the selected card is pressed.
    pub open spec fn with_choice_taken(self, choice: ChoiceView) -> AppView {
        let done = if self.selected_button == 0 && cards::sends_input(choice) {
            self.with_choice_copied(choice)
        } else {
            self.without_fix().executes(
                match self.autofix_session_id {
                    Some(pane) => autofix::aimed(choice, pane),
                    None => choice,
                },
                self.selected_button == 1 && cards::sends_input(choice),
            )
        };
        match self.autofix_session_id {
            Some(pane) => done.publishes_cleared(pane),
            None => done,
        }
    }

    /// The prompt has its number.
    pub open spec fn with_ticket(self, ticket: PromptTicket) -> AppView {
        AppView {
            current_prompt_id: Some(ticket.id),
            current_prompt_stamp: Some(ticket.stamp),
            selection_visible_pending: false,
            ..self
        }
    }

    /// The input becomes a prompt.
    pub open spec fn with_submission(self, ticket: PromptTicket) -> AppView {
        let prompt = self.input;
        let said = self.without_input().with_prompt(prompt).says(
            ChatView::User(prompt),
        ).scrolled_down().with_ticket(ticket);
        said.asks(
            EffectView::SubmitPrompt {
                id: ticket.id,
                prompt,
                context: said.own_context(),
                autofix: false,
            },
        )
    }

    /// Enter takes the selected choice, opens the selected turn, or submits the
    /// input.
    pub open spec fn with_enter(self, ticket: PromptTicket) -> AppView {
        if self.on_cards() && self.state is Connected {
            match self.selected_choice() {
                Some(choice) => self.with_choice_taken(choice),
                None => self,
            }
        } else if self.walks_history() {
            self.with_turn_toggled()
        } else if self.input.len() > 0 && self.state is Connected {
            self.with_submission(ticket)
        } else {
            self
        }
    }

    pub open spec fn with_up(self) -> AppView {
        if self.on_cards() {
            self.with_card_above()
        } else if self.walks_history() {
            self.with_previous_turn()
        } else {
            self
        }
    }

    pub open spec fn with_down(self) -> AppView {
        if self.on_cards() {
            self.with_card_below()
        } else if self.walks_history() {
            self.with_next_turn()
        } else {
            self
        }
    }

    pub open spec fn with_left(self, control: bool) -> AppView {
        let pos = self.cursor_pos as int;
        if self.on_cards() {
            self.with_button_before()
        } else if control {
            self.with_cursor(editing::word_start(self.input, pos))
        } else {
            self.with_cursor(editing::before(self.input, pos))
        }
    }

    pub open spec fn with_right(self, control: bool) -> AppView {
        let pos = self.cursor_pos as int;
        if self.on_cards() {
            self.with_next_button()
        } else if control {
            self.with_cursor(editing::word_end(self.input, pos))
        } else {
            self.with_cursor(editing::after(self.input, pos))
        }
    }

    pub open spec fn with_page_up(self, shift: bool) -> AppView {
        if shift && self.show_debug_panel {
            self.with_debug_scroll(raised(self.debug_scroll, 10))
        } else {
            self.with_scroll(raised(self.scroll_offset, 10))
        }
    }

    pub open spec fn with_page_down(self, shift: bool) -> AppView {
        if shift && self.show_debug_panel {
            self.with_debug_scroll(lowered(self.debug_scroll, 10))
        } else {
            self.with_scroll(lowered(self.scroll_offset, 10))
        }
    }

    /// A key is pressed in the chat.
    pub open spec fn with_chat_key(self, key: KeyEvent, ticket: PromptTicket) -> AppView {
        match key.code {
            KeyCode::Up => self.with_up(),
            KeyCode::Down => self.with_down(),
            KeyCode::Left => self.with_left(key.modifiers.control),
            KeyCode::Right => self.with_right(key.modifiers.control),
            KeyCode::Tab => if self.on_cards() {
                self.with_next_button()
            } else {
                self
            },
            KeyCode::Home => self.with_cursor(0),
            KeyCode::End => self.with_cursor(text::byte_len(self.input)),
            KeyCode::PageUp => self.with_page_up(key.modifiers.shift),
            KeyCode::PageDown => self.with_page_down(key.modifiers.shift),
            KeyCode::Enter => if key.modifiers.shift {
                self.with_typed('\n')
            } else {
                self.with_enter(ticket)
            },
            KeyCode::Esc => self.with_escape(),
            KeyCode::Backspace => self.with_deleted_before(),
            KeyCode::Delete => self.with_deleted_after(),
            KeyCode::F(n) => if n == 12 {
                self.with_debug_toggled()
            } else {
                self
            },
            KeyCode::Char(c) => if c == 'c' && key.modifiers.control {
                self.with_interrupt()
            } else {
                self.with_typed(c)
            },
            KeyCode::Other => self,
        }
    }

    /// The selected answer of an open permission request is one that exists.
    pub open spec fn can_answer(self) -> bool {
        self.permission matches Some(permission) ==> permission.selected < permission.options.len()
    }

    /// The key asks for nothing that is not there.
    pub open spec fn takes(self, key: KeyEvent) -> bool {
        toggles_screen(key) || self.current_view == Screen::Agents || self.mode == AppMode::Setup
            || key.code != KeyCode::Enter || self.can_answer()
    }

    /// A key is pressed.
    pub open spec fn with_key(self, key: KeyEvent, ctx: EventContext) -> AppView {
        if toggles_screen(key) {
            self.with_other_screen()
        } else if self.current_view == Screen::Agents {
            self.with_agents_key(key.code, ctx)
        } else if self.mode == AppMode::Setup {
            self.with_setup_key(key)
        } else if self.permission is Some {
            self.with_permission_key(key.code)
        } else {
            self.with_chat_key(key, ctx.ticket)
        }
    }
}

fn is_toggle(key: KeyEvent) -> (yes: bool)
    ensures
        yes == toggles_screen(key),
{
    if key.modifiers.shift || key.modifiers.others {
        return false;
    }
    match key.code {
        KeyCode::F(n) => n == 2 && !key.modifiers.control,
        KeyCode::Tab => key.modifiers.control,
        _ => false,
    }
}

fn live(status: AgentStatus) -> (yes: bool)
    ensures
        yes == is_live(status),
{
    status != AgentStatus::Ended && status != AgentStatus::Historical
}

/// The name of the program that a session runs in; `named` is the name under
/// which the program was looked up.
pub fn session_program(source: CliSource, named: &str) -> (name: Option<String>)
    ensures
        coordinator::seen(name) == program_name(source, named@),
{
    match source {
        CliSource::Claude => Some(named.to_owned()),
        CliSource::Copilot => Some("copilot".to_owned()),
        CliSource::Gemini => Some("gemini".to_owned()),
        CliSource::Unknown => None,
    }
}

/// The program that can resume the session.
fn resuming_program(s: &AgentSession, resume: &ResumeProfile) -> (id: Option<String>)
    ensures
        match id {
            Some(id) => resumes_with(*s, *resume) == Some(id@),
            None => resumes_with(*s, *resume) is None,
        },
{
    if starts_with(s.key.as_str(), "pane:") || resume.resume_flag.as_str().is_empty() {
        None
    } else {
        session_program(s.cli_source, resume.id.as_str())
    }
}

fn missing_program_text(id: &str, hint: &str) -> (said: String)
    ensures
        said@ == missing_program(id@, hint@),
{
    let mut said = "Cannot resume: '".to_owned();
    said.append(id);
    said.append("' is not installed or not on PATH.\n  Install hint: ");
    said.append(hint);
    said
}

/// The command line that resumes a session.
pub fn resume_commandline(s: &AgentSession, resume: &ResumeProfile) -> (commandline: String)
    ensures
        commandline@ == resume_command(*s, *resume),
{
    let mut inner = resume.program.clone();
    inner.append(" ");
    inner.append(resume.resume_flag.as_str());
    inner.append(" ");
    inner.append(s.key.as_str());
    if s.cwd.as_str().is_empty() {
        return inner;
    }
    let mut commandline = "cmd.exe /d /s /c \"cd /d \"".to_owned();
    commandline.append(s.cwd.as_str());
    commandline.append("\" && ");
    commandline.append(inner.as_str());
    commandline.append("\"");
    commandline
}

fn moved_up(permission: PermissionState) -> (moved: PermissionState)
    ensures
        moved@ == answer_above(permission@),
{
    let mut moved = permission;
    if moved.selected > 0 {
        moved.selected = moved.selected - 1;
    }
    moved
}

fn moved_down(permission: PermissionState) -> (moved: PermissionState)
    ensures
        moved@ == answer_below(permission@),
{
    let mut moved = permission;
    let count: usize = moved.options.len();
    if count > 0 && moved.selected < count - 1 {
        moved.selected = moved.selected + 1;
    }
    moved
}

/// The first answer whose kind holds `word`.
#[verifier::loop_isolation(false)]
fn find_answer(options: &Vec<PermOption>, word: &str) -> (id: Option<String>)
    ensures
        match id {
            Some(id) => answer_of_kind(types::options_view(options@), word@, 0) == Some(id@),
            None => answer_of_kind(types::options_view(options@), word@, 0) is None,
        },
{
    let mut i: usize = 0;
    while i < options.len()
        invariant
            i <= options@.len(),
            answer_of_kind(types::options_view(options@), word@, 0) == answer_of_kind(
                types::options_view(options@),
                word@,
                i as int,
            ),
        decreases options@.len() - i,
    {
        assert(types::options_view(options@)[i as int] == options@[i as int]@);
        if contains(options[i].kind.as_str(), word) {
            return Some(options[i].id.clone());
        }
        i += 1;
    }
    None
}

impl App {
    fn show_other_screen(&mut self)
        ensures
            final(self)@ == old(self)@.with_other_screen(),
    {
        self.current_view = match self.current_view {
            Screen::Chat => Screen::Agents,
            Screen::Agents => Screen::Chat,
        };
    }

    fn show_screen(&mut self, screen: Screen)
        ensures
            final(self)@ == old(self)@.with_screen(screen),
    {
        self.current_view = screen;
    }

    fn select_agent_row(&mut self, row: usize)
        ensures
            final(self)@ == old(self)@.with_agent_row(row),
    {
        self.agents_selected = Some(row);
    }

    fn agent_row(&self) -> (row: usize)
        ensures
            row == self@.agent_row(),
    {
        match self.agents_selected {
            Some(row) => row,
            None => 0,
        }
    }

    fn selected_session<'a>(&self, rows: &'a Vec<AgentSession>) -> (s: Option<&'a AgentSession>)
        ensures
            match s {
                Some(s) => self@.agent_session(rows@) == Some(*s),
                None => self@.agent_session(rows@) is None,
            },
    {
        match self.agents_selected {
            Some(row) => if row < rows.len() {
                Some(&rows[row])
            } else {
                None
            },
            None => None,
        }
    }

    /// Resumes a session that is over, where its program can do that.
    pub(crate) fn dispatch_resume(&mut self, s: &AgentSession, resume: &ResumeProfile)
        ensures
            final(self)@ == old(self)@.with_session_resumed(*s, *resume),
    {
        let id = match resuming_program(s, resume) {
            Some(id) => id,
            None => return,
        };
        if !resume.available {
            let said = missing_program_text(id.as_str(), resume.install_hint.as_str());
            self.say(ChatMessage::Error(said));
            self.scroll_to_bottom();
            return;
        }
        let commandline = resume_commandline(s, resume);
        self.ask(Effect::ResumeSession { key: s.key.clone(), commandline });
        self.ask(Effect::ChangeSession(SessionEvent::ResumeDispatched { key: s.key.clone() }));
    }

    /// Brings the pane of a running session to the front, or resumes one that
    /// is over. A running session whose pane is not known is left alone.
    pub(crate) fn activate_session(&mut self, s: &AgentSession, resume: &ResumeProfile)
        ensures
            final(self)@ == old(self)@.with_session_activated(*s, *resume),
    {
        if live(s.status) {
            if let Some(pane) = &s.pane_session_id {
                self.ask(Effect::FocusPane(pane.clone()));
            }
        } else {
            self.dispatch_resume(s, resume);
        }
    }

    fn activate_selected(&mut self, ctx: &EventContext)
        ensures
            final(self)@ == match old(self)@.agent_session(ctx.rows@) {
                Some(s) => old(self)@.with_session_activated(s, ctx.resume),
                None => old(self)@,
            },
    {
        if let Some(s) = self.selected_session(&ctx.rows) {
            self.activate_session(s, &ctx.resume);
        }
    }

    fn remove_selected(&mut self, rows: &Vec<AgentSession>)
        ensures
            final(self)@ == old(self)@.with_session_removed(rows@),
    {
        if let Some(s) = self.selected_session(rows) {
            if !live(s.status) {
                self.ask(Effect::RemoveSession(s.key.clone()));
            }
        }
    }

    fn handle_agents_key(&mut self, code: KeyCode, ctx: &EventContext)
        ensures
            final(self)@ == old(self)@.with_agents_key(code, *ctx),
    {
        match code {
            KeyCode::Down => {
                let count: usize = ctx.rows.len();
                let row: usize = self.agent_row();
                let last: usize = if count > 0 {
                    count - 1
                } else {
                    0
                };
                self.select_agent_row(
                    if row < last {
                        row + 1
                    } else {
                        last
                    },
                );
            },
            KeyCode::Up => {
                let row: usize = self.agent_row();
                self.select_agent_row(
                    if row > 0 {
                        row - 1
                    } else {
                        0
                    },
                );
            },
            KeyCode::Enter => self.activate_selected(ctx),
            KeyCode::Delete => self.remove_selected(&ctx.rows),
            KeyCode::Esc => self.show_screen(Screen::Chat),
            _ => {},
        }
    }

    fn take_permission(&mut self) -> (permission: Option<PermissionState>)
        ensures
            types::permission_seen(permission) == old(self)@.permission,
            final(self)@ == old(self)@.with_permission(None),
    {
        self.permission.take()
    }

    fn select_answer_above(&mut self)
        requires
            old(self)@.permission is Some,
        ensures
            final(self)@ == old(self)@.with_permission(
                Some(answer_above(old(self)@.permission->0)),
            ),
    {
        if let Some(permission) = self.take_permission() {
            self.set_permission(Some(moved_up(permission)));
        }
    }

    fn select_answer_below(&mut self)
        requires
            old(self)@.permission is Some,
        ensures
            final(self)@ == old(self)@.with_permission(
                Some(answer_below(old(self)@.permission->0)),
            ),
    {
        if let Some(permission) = self.take_permission() {
            self.set_permission(Some(moved_down(permission)));
        }
    }

    fn reply(&mut self, option_id: String)
        requires
            old(self)@.permission is Some,
        ensures
            final(self)@ == old(self)@.with_reply(option_id@),
    {
        if let Some(permission) = self.take_permission() {
            self.ask(Effect::ReplyPermission { direct: permission.direct, option_id });
        }
    }

    fn reply_selected(&mut self)
        requires
            old(self)@.permission is Some,
            old(self)@.can_answer(),
        ensures
            final(self)@ == old(self)@.with_reply(
                old(self)@.permission->0.options[old(self)@.permission->0.selected as int].id,
            ),
    {
        let id: Option<String> = match &self.permission {
            Some(permission) => {
                assert(permission@.options[permission.selected as int]
                    == permission.options@[permission.selected as int]@);
                Some(permission.options[permission.selected].id.clone())
            },
            None => None,
        };
        if let Some(id) = id {
            self.reply(id);
        }
    }

    fn reply_quickly(&mut self, word: &str)
        requires
            old(self)@.permission is Some,
        ensures
            final(self)@ == old(self)@.with_quick_reply(word@),
    {
        let id: Option<String> = match &self.permission {
            Some(permission) => find_answer(&permission.options, word),
            None => None,
        };
        if let Some(id) = id {
            self.reply(id);
        }
    }

    fn handle_permission_key(&mut self, code: KeyCode)
        requires
            old(self)@.permission is Some,
            code == KeyCode::Enter ==> old(self)@.can_answer(),
        ensures
            final(self)@ == old(self)@.with_permission_key(code),
    {
        match code {
            KeyCode::Up => self.select_answer_above(),
            KeyCode::Down => self.select_answer_below(),
            KeyCode::Enter => self.reply_selected(),
            KeyCode::Char(c) => {
                if c == 'y' || c == 'Y' {
                    self.reply_quickly("allow");
                } else if c == 'n' || c == 'N' {
                    self.reply_quickly("reject");
                }
            },
            _ => {},
        }
    }
}

impl App {
    fn on_cards(&self) -> (yes: bool)
        ensures
            yes == self@.on_cards(),
    {
        self.input.as_str().is_empty() && self.recommendations.is_some()
    }

    fn select_card_above(&mut self)
        ensures
            final(self)@ == old(self)@.with_card_above(),
    {
        if self.selected_recommendation > 0 {
            self.select_card(self.selected_recommendation - 1);
        }
    }

    fn select_card_below(&mut self)
        ensures
            final(self)@ == old(self)@.with_card_below(),
    {
        let count: usize = match &self.recommendations {
            Some(set) => set.choices.len(),
            None => return,
        };
        if count > 0 && self.selected_recommendation < count - 1 {
            self.select_card(self.selected_recommendation + 1);
        }
    }

    fn set_button(&mut self, button: usize)
        ensures
            final(self)@ == (AppView { selected_button: button, ..old(self)@ }),
    {
        self.selected_button = button;
    }

    fn select_next_button(&mut self)
        ensures
            final(self)@ == old(self)@.with_next_button(),
    {
        let count: usize = self.button_count_for_selected();
        if count > 1 {
            let button: usize = self.selected_button % 3;
            assert((button + 1) % 3 == (self.selected_button + 1) % 3);
            self.set_button((button + 1) % 3);
        }
    }

    fn select_button_before(&mut self)
        ensures
            final(self)@ == old(self)@.with_button_before(),
    {
        let count: usize = self.button_count_for_selected();
        if count > 1 {
            let button: usize = self.selected_button % 3;
            assert((button + 2) % 3 == (self.selected_button + 3 - 1) % 3);
            self.set_button((button + 2) % 3);
        }
    }

    fn set_debug_panel(&mut self, shown: bool)
        ensures
            final(self)@ == (AppView { show_debug_panel: shown, debug_scroll: 0, ..old(self)@ }),
    {
        self.show_debug_panel = shown;
        self.debug_scroll = 0;
    }

    fn toggle_debug_panel(&mut self)
        ensures
            final(self)@ == old(self)@.with_debug_toggled(),
    {
        let shown: bool = !self.show_debug_panel;
        self.set_debug_panel(shown);
        self.ask(Effect::CaptureDebug(shown));
    }

    fn set_debug_scroll(&mut self, lines: usize)
        ensures
            final(self)@ == old(self)@.with_debug_scroll(lines),
    {
        self.debug_scroll = lines;
    }

    pub(crate) fn set_scroll(&mut self, lines: usize)
        ensures
            final(self)@ == old(self)@.with_scroll(lines),
    {
        self.scroll_offset = lines;
    }

    fn page_up(&mut self, shift: bool)
        ensures
            final(self)@ == old(self)@.with_page_up(shift),
    {
        if shift && self.show_debug_panel {
            self.set_debug_scroll(self.debug_scroll.saturating_add(10));
        } else {
            self.set_scroll(self.scroll_offset.saturating_add(10));
        }
    }

    fn page_down(&mut self, shift: bool)
        ensures
            final(self)@ == old(self)@.with_page_down(shift),
    {
        if shift && self.show_debug_panel {
            self.set_debug_scroll(self.debug_scroll.saturating_sub(10));
        } else {
            self.set_scroll(self.scroll_offset.saturating_sub(10));
        }
    }

    fn interrupt(&mut self)
        ensures
            final(self)@ == old(self)@.with_interrupt(),
    {
        if self.agent_streaming {
            self.agent_streaming = false;
        } else {
            self.quit();
        }
    }

    fn count_generation(&mut self)
        ensures
            final(self)@ == (AppView {
                autofix_generation: old(self)@.autofix_generation.wrapping_add(1),
                ..old(self)@
            }),
    {
        self.autofix_generation = self.autofix_generation.wrapping_add(1);
    }

    pub(crate) fn withdraw_fix(&mut self)
        ensures
            final(self)@ == old(self)@.with_fix_withdrawn(),
    {
        self.count_generation();
        self.forget_fix();
        self.clear_recommendations();
        self.rest();
    }

    fn forget_inflight(&mut self)
        ensures
            final(self)@ == (AppView { inflight_autofix_generation: None, ..old(self)@ }),
    {
        self.inflight_autofix_generation = None;
    }

    fn decline_fix(&mut self)
        ensures
            final(self)@ == old(self)@.with_fix_declined(),
    {
        let pane = clone_text(&self.autofix_session_id);
        self.withdraw_fix();
        self.forget_inflight();
        if let Some(pane) = pane {
            self.emit_autofix_state_cleared(pane.as_str());
        }
    }

    fn forget_suggestion(&mut self)
        ensures
            final(self)@ == (AppView { suggested_session_id: None, ..old(self)@ }),
    {
        self.suggested_session_id = None;
    }

    pub(crate) fn dismiss_suggestion(&mut self)
        ensures
            final(self)@ == old(self)@.without_suggestion(),
    {
        if let Some(pane) = clone_text(&self.suggested_session_id) {
            self.forget_suggestion();
            self.emit_autofix_state_cleared(pane.as_str());
        }
    }

    fn clear_input(&mut self)
        ensures
            final(self)@ == old(self)@.without_input(),
    {
        self.input = String::new();
        self.cursor_pos = 0;
    }

    fn escape(&mut self)
        ensures
            final(self)@ == old(self)@.with_escape(),
    {
        if self.show_notification_banner {
            self.dismiss_notifications();
        } else if self.recommendations.is_some() || (self.autofix_session_id.is_some()
            && self.prompt_in_flight) {
            self.decline_fix();
        } else if self.suggested_session_id.is_some() {
            self.dismiss_suggestion();
        } else if self.input.as_str().is_empty() {
            self.collapse_selected_history_turn();
        } else {
            self.clear_input();
        }
    }

    fn copy_choice(&mut self, choice: &RecommendationChoice)
        ensures
            final(self)@ == old(self)@.with_choice_copied(choice@),
    {
        if let Some(input) = first_send_input(choice) {
            self.ask(Effect::CopyText(input));
        }
        self.forget_fix();
        self.commit_pending_completed_turn();
        self.clear_recommendations();
    }

    fn take_choice(&mut self, choice: RecommendationChoice)
        ensures
            final(self)@ == old(self)@.with_choice_taken(choice@),
    {
        let pane = clone_text(&self.autofix_session_id);
        let sends: bool = is_send_choice(&choice);
        let button: usize = self.selected_button;
        if button == 0 && sends {
            self.copy_choice(&choice);
        } else {
            let aimed = match &pane {
                Some(pane) => fill_parent(&choice, pane.as_str()),
                None => choice,
            };
            self.forget_fix();
            self.execute(aimed, button == 1 && sends);
        }
        if let Some(pane) = pane {
            self.emit_autofix_state_cleared(pane.as_str());
        }
    }

    fn number_prompt(&mut self, ticket: PromptTicket)
        ensures
            final(self)@ == old(self)@.with_ticket(ticket),
    {
        self.current_prompt_id = Some(ticket.id);
        self.current_prompt_stamp = Some(ticket.stamp);
        self.selection_visible_pending = false;
    }

    fn submit(&mut self, ticket: PromptTicket)
        ensures
            final(self)@ == old(self)@.with_submission(ticket),
    {
        let prompt = self.input.clone();
        self.clear_input();
        self.prepare_for_new_prompt(prompt.as_str());
        self.say(ChatMessage::User(prompt.clone()));
        self.scroll_to_bottom();
        self.number_prompt(ticket);
        let context = self.pane_context();
        self.ask(Effect::SubmitPrompt { id: ticket.id, prompt, context, autofix: false });
    }

    fn enter(&mut self, ticket: PromptTicket)
        ensures
            final(self)@ == old(self)@.with_enter(ticket),
    {
        if self.on_cards() && self.state.is_connected() {
            let choice: Option<RecommendationChoice> = match self.selected_recommendation() {
                Some(choice) => Some(choice.clone()),
                None => None,
            };
            if let Some(choice) = choice {
                self.take_choice(choice);
            }
        } else if self.history_navigation_enabled() {
            self.toggle_selected_history_turn();
        } else if !self.input.as_str().is_empty() && self.state.is_connected() {
            self.submit(ticket);
        }
    }

    fn up(&mut self)
        ensures
            final(self)@ == old(self)@.with_up(),
    {
        if self.on_cards() {
            self.select_card_above();
        } else if self.history_navigation_enabled() {
            self.select_previous_history_turn();
        }
    }

    fn down(&mut self)
        ensures
            final(self)@ == old(self)@.with_down(),
    {
        if self.on_cards() {
            self.select_card_below();
        } else if self.history_navigation_enabled() {
            self.select_next_history_turn();
        }
    }

    fn left(&mut self, control: bool)
        ensures
            final(self)@ == old(self)@.with_left(control),
    {
        if self.on_cards() {
            self.select_button_before();
        } else if control {
            self.move_cursor_word_left();
        } else {
            self.move_cursor_left();
        }
    }

    fn right(&mut self, control: bool)
        ensures
            final(self)@ == old(self)@.with_right(control),
    {
        if self.on_cards() {
            self.select_next_button();
        } else if control {
            self.move_cursor_word_right();
        } else {
            self.move_cursor_right();
        }
    }

    fn place_cursor(&mut self, pos: usize)
        ensures
            final(self)@ == old(self)@.with_cursor(pos as nat),
    {
        self.cursor_pos = pos;
    }

    fn cursor_to_end(&mut self)
        ensures
            final(self)@ == old(self)@.with_cursor(text::byte_len(old(self)@.input)),
    {
        let end: usize = byte_count(self.input.as_str());
        self.place_cursor(end);
    }

    fn handle_chat_key(&mut self, key: KeyEvent, ticket: PromptTicket)
        ensures
            final(self)@ == old(self)@.with_chat_key(key, ticket),
    {
        match key.code {
            KeyCode::Up => self.up(),
            KeyCode::Down => self.down(),
            KeyCode::Left => self.left(key.modifiers.control),
            KeyCode::Right => self.right(key.modifiers.control),
            KeyCode::Tab => {
                if self.on_cards() {
                    self.select_next_button();
                }
            },
            KeyCode::Home => self.place_cursor(0),
            KeyCode::End => self.cursor_to_end(),
            KeyCode::PageUp => self.page_up(key.modifiers.shift),
            KeyCode::PageDown => self.page_down(key.modifiers.shift),
            KeyCode::Enter => {
                if key.modifiers.shift {
                    self.insert_input_char('\n');
                } else {
                    self.enter(ticket);
                }
            },
            KeyCode::Esc => self.escape(),
            KeyCode::Backspace => self.delete_before_cursor(),
            KeyCode::Delete => self.delete_at_cursor(),
            KeyCode::F(n) => {
                if n == 12 {
                    self.toggle_debug_panel();
                }
            },
            KeyCode::Char(c) => {
                if c == 'c' && key.modifiers.control {
                    self.interrupt();
                } else {
                    self.insert_input_char(c);
                }
            },
            KeyCode::Other => {},
        }
    }

    /// Takes a key.
    pub fn handle_key(&mut self, key: KeyEvent, ctx: &EventContext)
        requires
            old(self)@.takes(key),
        ensures
            final(self)@ == old(self)@.with_key(key, *ctx),
    {
        if is_toggle(key) {
            self.show_other_screen();
        } else if self.current_view == Screen::Agents {
            self.handle_agents_key(key.code, ctx);
        } else if self.mode == AppMode::Setup {
            self.handle_setup_key(key);
        } else if self.permission.is_some() {
            self.handle_permission_key(key.code);
        } else {
            self.handle_chat_key(key, ctx.ticket);
        }
    }
}

} // verus!
