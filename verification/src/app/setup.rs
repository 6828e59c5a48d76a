//! The setup wizard, errors that lead to it, and the state that attached
//! applications share.
use super::cards;
use super::model;
use super::model::AppView;
use super::sameness::{same_options, same_set, same_turns};
use super::state::App;
use super::types;
use super::types::{
    AppMode, ChatMessage, ChatView, ConnectionState, ConnectionView, Effect, EffectView, KeyCode,
    KeyEvent, PermissionState, PermissionView, SetupState, SetupView, SharedPermission,
    SharedStateSnapshot,
};
use crate::coordinator;
use crate::coordinator::recommended_choice_index;
use crate::preflight;
use crate::preflight::{AgentProfile, CheckStatus, PreflightResult, PreflightView, StatusView};
use crate::text;
use crate::text::{contains, lines, same_text, to_ascii_lowercase, trim};
use vstd::prelude::*;

verus! {

/// The message speaks of a login that is missing.
pub open spec fn speaks_of_login(message: Seq<char>) -> bool {
    let lower = text::lowered(message);
    text::has(lower, "auth"@) || text::has(lower, "login"@) || text::has(lower, "unauthorized"@)
        || text::has(lower, "401"@) || text::has(lower, "credentials"@)
}

/// Whether a message speaks of a login that is missing.
pub fn is_auth_error(message: &str) -> (yes: bool)
    ensures
        yes == speaks_of_login(message@),
{
    let lower = to_ascii_lowercase(message);
    let lower = lower.as_str();
    contains(lower, "auth") || contains(lower, "login") || contains(lower, "unauthorized")
        || contains(lower, "401") || contains(lower, "credentials")
}

/// The first line among `list[from..]` that speaks of a login.
pub open spec fn login_line(list: Seq<Seq<char>>, from: int) -> Option<Seq<char>>
    decreases list.len() - from,
{
    if from < 0 || from >= list.len() {
        None
    } else if text::has(text::lowered(list[from]), "auth"@) || text::has(
        text::lowered(list[from]),
        "login"@,
    ) {
        Some(list[from])
    } else {
        login_line(list, from + 1)
    }
}

/// Why the login failed, out of a message.
pub open spec fn login_reason(message: Seq<char>) -> Seq<char> {
    text::trimmed(
        match login_line(text::lines_of(message), 0) {
            Some(line) => line,
            None => "Not authenticated"@,
        },
    )
}

/// Why the login failed, out of a message.
#[verifier::loop_isolation(false)]
pub fn auth_reason(message: &str) -> (reason: String)
    ensures
        reason@ == login_reason(message@),
{
    let list = lines(message);
    let mut i: usize = 0;
    while i < list.len()
        invariant
            i <= list@.len(),
            text::texts(list@) == text::lines_of(message@),
            login_line(text::texts(list@), 0) == login_line(text::texts(list@), i as int),
        decreases list@.len() - i,
    {
        assert(text::texts(list@)[i as int] == list@[i as int]@);
        let lower = to_ascii_lowercase(list[i].as_str());
        if contains(lower.as_str(), "auth") || contains(lower.as_str(), "login") {
            return trim(list[i].as_str()).to_owned();
        }
        i += 1;
    }
    trim("Not authenticated").to_owned()
}

/// The id under which the profile of the agent called `name` is looked up.
pub fn profile_id(name: &str) -> (id: String)
    ensures
        id@ == if name@.len() == 0 {
            "copilot"@
        } else {
            text::lowered(name@)
        },
{
    if name.is_empty() {
        "copilot".to_owned()
    } else {
        to_ascii_lowercase(name)
    }
}

/// The checks of an agent whose login failed.
pub open spec fn failed_login(profile: AgentProfile, message: Seq<char>) -> PreflightView {
    PreflightView {
        agent_id: profile.id@,
        display_name: profile.display_name@,
        cli_status: StatusView::Passed,
        cli_path: None,
        auth_status: StatusView::Failed(login_reason(message)),
        install_hint: profile.install_hint@,
        install_url: profile.install_url@,
        auth_hint: profile.auth_hint@,
    }
}

/// The permission request is the shared one, with the same answer selected
/// where it is the same request.
pub open spec fn shared_permission(
    own: Option<PermissionView>,
    shared: Option<SharedPermission>,
) -> Option<PermissionView> {
    match shared {
        None => None,
        Some(shared) => {
            let options = types::options_view(shared.options@);
            let kept: usize = match own {
                Some(own) => if own.description == shared.description@ && own.options == options {
                    own.selected
                } else {
                    0
                },
                None => 0,
            };
            let last = model::last_index(options.len());
            Some(
                PermissionView {
                    description: shared.description@,
                    options,
                    selected: if kept < last {
                        kept
                    } else {
                        last
                    },
                    direct: false,
                },
            )
        },
    }
}

fn merge_permission(own: &Option<PermissionState>, shared: Option<SharedPermission>) -> (r: Option<
    PermissionState,
>)
    ensures
        types::permission_seen(r) == shared_permission(types::permission_seen(*own), shared),
{
    let shared = match shared {
        Some(shared) => shared,
        None => return None,
    };
    let kept: usize = match own {
        Some(own) => if same_text(own.description.as_str(), shared.description.as_str())
            && same_options(&own.options, &shared.options) {
            own.selected
        } else {
            0
        },
        None => 0,
    };
    let count: usize = shared.options.len();
    let last: usize = if count > 0 {
        count - 1
    } else {
        0
    };
    Some(
        PermissionState {
            description: shared.description,
            options: shared.options,
            selected: if kept < last {
                kept
            } else {
                last
            },
            direct: false,
        },
    )
}

/// The row of the wizard that is selected after a step up.
pub open spec fn row_above(setup: Option<SetupView>) -> Option<SetupView> {
    match setup {
        Some(setup) => Some(
            SetupView {
                selected_index: if setup.selected_index > 0 {
                    (setup.selected_index - 1) as usize
                } else {
                    setup.selected_index
                },
                ..setup
            },
        ),
        None => None,
    }
}

/// The row of the wizard that is selected after a step down.
pub open spec fn row_below(setup: Option<SetupView>) -> Option<SetupView> {
    match setup {
        Some(setup) => Some(
            SetupView {
                selected_index: if setup.selected_index < 1 {
                    (setup.selected_index + 1) as usize
                } else {
                    setup.selected_index
                },
                ..setup
            },
        ),
        None => None,
    }
}

/// The page that the wizard offers to open.
pub open spec fn install_page(setup: Option<SetupView>) -> Option<Seq<char>> {
    match setup {
        Some(setup) => if setup.selected_index == 0 && !(setup.preflight.cli_status is Passed)
            && setup.preflight.install_url.len() > 0 {
            Some(setup.preflight.install_url)
        } else {
            None
        },
        None => None,
    }
}

impl AppView {
    /// The wizard asks for the login.
    pub open spec fn with_login_wanted(self, message: Seq<char>, profile: AgentProfile) -> AppView {
        AppView {
            mode: AppMode::Setup,
            setup: Some(
                SetupView {
                    preflight: failed_login(profile, message),
                    selected_index: 1,
                    install_in_progress: false,
                    install_log: Seq::empty(),
                    install_error: None,
                },
            ),
            state: ConnectionView::Disconnected,
            ..self
        }
    }

    /// What was on its way to the agent or from it is given up.
    pub open spec fn with_stream_given_up(self) -> AppView {
        AppView {
            prompt_in_flight: false,
            agent_streaming: false,
            progress_status: None,
            pending_thought_response: Seq::empty(),
            activity_frame: 0,
            pending_agent_response: Seq::empty(),
            timing_note: None,
            pending_completed_turn: None,
            ..self
        }
    }

    /// The agent failed: the wizard is shown where the login is missing, and
    /// else the message.
    pub open spec fn with_agent_error(self, message: Seq<char>, profile: AgentProfile) -> AppView {
        if speaks_of_login(message) && self.mode != AppMode::Setup {
            self.with_login_wanted(message, profile).publishes_status().with_stream_given_up()
        } else {
            AppView { state: ConnectionView::Failed(message), ..self }.publishes_status()
                .with_stream_given_up().says(ChatView::Error(message))
        }
    }

    /// The checks before the launch are done.
    pub open spec fn with_preflight(self, result: PreflightView) -> AppView {
        if result.ready() {
            AppView {
                mode: AppMode::Chat,
                setup: None,
                state: ConnectionView::Connecting("Starting agent..."@),
                ..self
            }
        } else {
            AppView {
                mode: AppMode::Setup,
                setup: Some(
                    SetupView {
                        preflight: result,
                        selected_index: 0,
                        install_in_progress: false,
                        install_log: match self.setup {
                            Some(setup) => setup.install_log,
                            None => Seq::empty(),
                        },
                        install_error: match self.setup {
                            Some(setup) => setup.install_error,
                            None => None,
                        },
                    },
                ),
                state: ConnectionView::Disconnected,
                ..self
            }
        }
    }

    /// The wizard, where it is shown, is changed.
    pub open spec fn with_setup(self, setup: Option<SetupView>) -> AppView {
        AppView { setup, ..self }
    }

    /// The installation writes a line; the last eight are kept.
    pub open spec fn with_install_line(self, line: Seq<char>) -> AppView {
        match self.setup {
            Some(setup) => {
                let log = setup.install_log.push(line);
                self.with_setup(
                    Some(
                        SetupView {
                            install_log: if log.len() > 8 {
                                log.skip(log.len() - 8)
                            } else {
                                log
                            },
                            ..setup
                        },
                    ),
                )
            },
            None => self,
        }
    }

    /// The installation starts.
    pub open spec fn with_install_started(self) -> AppView {
        match self.setup {
            Some(setup) => self.with_setup(
                Some(SetupView { install_in_progress: true, install_error: None, ..setup }),
            ),
            None => self,
        }
    }

    /// The installation is over.
    pub open spec fn with_install_done(self, result: Result<(), String>) -> AppView {
        match self.setup {
            Some(setup) => self.with_setup(
                Some(
                    match result {
                        Ok(()) => SetupView {
                            install_in_progress: false,
                            install_log: setup.install_log.push("Installation complete."@),
                            install_error: None,
                            ..setup
                        },
                        Err(reason) => SetupView {
                            install_in_progress: false,
                            install_error: Some(reason@),
                            ..setup
                        },
                    },
                ),
            ),
            None => self,
        }
    }

    /// The wizard offers to install the agent's program.
    pub open spec fn may_install(self) -> bool {
        self.setup matches Some(setup) && setup.selected_index == 0
            && !(setup.preflight.cli_status is Passed) && !setup.install_in_progress
            && setup.preflight.agent_id == "copilot"@
    }

    /// The application ends.
    pub open spec fn quitting(self) -> AppView {
        AppView { should_quit: true, ..self }
    }

    /// The installation is asked for, where it is on offer.
    pub open spec fn with_install_requested(self) -> AppView {
        if self.may_install() && self.can_install {
            self.asks(EffectView::RequestInstall).with_setup(
                Some(
                    SetupView {
                        install_in_progress: true,
                        install_error: None,
                        install_log: seq!["Starting GitHub Copilot installation..."@],
                        ..self.setup->0
                    },
                ),
            )
        } else {
            self
        }
    }

    /// The page of the agent's program is opened, where it is on offer.
    pub open spec fn with_install_page(self) -> AppView {
        match install_page(self.setup) {
            Some(url) => self.asks(EffectView::OpenUrl(url)),
            None => self,
        }
    }

    /// A key is pressed in the wizard.
    pub open spec fn with_setup_key(self, key: KeyEvent) -> AppView {
        match key.code {
            KeyCode::Char(c) => if c == 'c' && key.modifiers.control {
                self.quitting()
            } else if c == 'o' || c == 'O' {
                self.with_install_page()
            } else {
                self
            },
            KeyCode::Esc => self.quitting(),
            KeyCode::Enter => self.with_install_requested(),
            KeyCode::Up => self.with_setup(row_above(self.setup)),
            KeyCode::Down => self.with_setup(row_below(self.setup)),
            _ => self,
        }
    }

    /// The shared state is taken over.
    pub open spec fn adopting(self, shared: SharedStateSnapshot) -> AppView {
        AppView {
            state: shared.state@,
            agent_name: shared.agent_name@,
            agent_model: coordinator::seen(shared.agent_model),
            agent_version: coordinator::seen(shared.agent_version),
            prompt_name: coordinator::seen(shared.prompt_name),
            progress_status: coordinator::seen(shared.progress_status),
            session_id: shared.session_id@,
            wt_connected: shared.wt_connected,
            messages: types::chat_view(shared.messages@),
            completed_turns: types::turns_view(shared.completed_turns@),
            recommendations: cards::set_seen(shared.recommendations),
            agent_streaming: shared.agent_streaming,
            pending_thought_response: shared.pending_thought_response@,
            pending_agent_response: shared.pending_agent_response@,
            timing_note: coordinator::seen(shared.timing_note),
            prompt_in_flight: shared.prompt_in_flight,
            ..self
        }
    }

    /// The recommended choice is selected.
    pub open spec fn with_recommended_selected(self) -> AppView {
        match self.recommendations {
            Some(set) => AppView {
                selected_recommendation: coordinator::recommended_index(set) as usize,
                selection_visible_pending: true,
                ..self
            },
            None => AppView { selected_recommendation: 0, ..self },
        }
    }

    pub open spec fn with_permission(self, permission: Option<PermissionView>) -> AppView {
        AppView { permission, ..self }
    }

    /// The state that attached applications share arrives.
    pub open spec fn with_snapshot(
        self,
        shared: SharedStateSnapshot,
        profile: AgentProfile,
    ) -> AppView {
        let login = match shared.state@ {
            ConnectionView::Failed(message) => speaks_of_login(message),
            _ => false,
        };
        if login && self.mode != AppMode::Setup {
            self.with_login_wanted(shared.state@->Failed_0, profile)
        } else {
            let adopted = self.adopting(shared);
            let selected = if self.recommendations != adopted.recommendations {
                adopted.with_recommended_selected()
            } else {
                adopted
            };
            let focused = if self.completed_turns != adopted.completed_turns {
                selected.with_latest_turn()
            } else {
                selected
            };
            focused.with_permission(
                shared_permission(focused.permission, shared.permission),
            ).with_history_in_range()
        }
    }
}

/// Keeps the last eight lines.
fn keep_last_lines(log: &mut Vec<String>)
    ensures
        text::texts(final(log)@) == if old(log)@.len() > 8 {
            text::texts(old(log)@).skip(old(log)@.len() - 8)
        } else {
            text::texts(old(log)@)
        },
{
    let ghost all = text::texts(log@);
    assert(all.skip(0) =~= all);
    while log.len() > 8
        invariant
            log@.len() <= all.len(),
            all.len() > 8 ==> log@.len() >= 8,
            all.len() <= 8 ==> log@.len() == all.len(),
            text::texts(log@) == all.skip(all.len() - log@.len()),
        decreases log@.len(),
    {
        let ghost kept = log@;
        let _ = log.remove(0);
        assert(text::texts(log@) =~= text::texts(kept).skip(1));
        assert(text::texts(log@) =~= all.skip(all.len() - log@.len()));
    }
}

impl App {
    fn want_login(&mut self, message: &str, profile: &AgentProfile)
        ensures
            final(self)@ == old(self)@.with_login_wanted(message@, *profile),
    {
        let preflight = PreflightResult {
            agent_id: profile.id.clone(),
            display_name: profile.display_name.clone(),
            cli_status: CheckStatus::Passed,
            cli_path: None,
            auth_status: CheckStatus::Failed(auth_reason(message)),
            install_hint: profile.install_hint.clone(),
            install_url: profile.install_url.clone(),
            auth_hint: profile.auth_hint.clone(),
        };
        let install_log: Vec<String> = Vec::new();
        assert(text::texts(install_log@) =~= Seq::empty());
        self.mode = AppMode::Setup;
        self.setup = Some(
            SetupState {
                preflight,
                selected_index: 1,
                install_in_progress: false,
                install_log,
                install_error: None,
            },
        );
        self.state = ConnectionState::Disconnected;
    }

    fn give_stream_up(&mut self)
        ensures
            final(self)@ == old(self)@.with_stream_given_up(),
    {
        self.prompt_in_flight = false;
        self.agent_streaming = false;
        self.progress_status = None;
        self.pending_thought_response = String::new();
        self.activity_frame = 0;
        self.pending_agent_response = String::new();
        self.timing_note = None;
        self.pending_completed_turn = None;
    }

    pub(crate) fn set_state(&mut self, state: ConnectionState)
        ensures
            final(self)@ == (AppView { state: state@, ..old(self)@ }),
    {
        self.state = state;
    }

    /// Takes an error of the agent.
    pub(crate) fn take_agent_error(&mut self, message: String, profile: &AgentProfile)
        ensures
            final(self)@ == old(self)@.with_agent_error(message@, *profile),
    {
        if is_auth_error(message.as_str()) && self.mode != AppMode::Setup {
            self.want_login(message.as_str(), profile);
            self.publish_agent_status();
            self.give_stream_up();
        } else {
            self.set_state(ConnectionState::Failed(message.clone()));
            self.publish_agent_status();
            self.give_stream_up();
            self.say(ChatMessage::Error(message));
        }
    }

    /// Takes the outcome of the checks before the launch.
    pub(crate) fn take_preflight(&mut self, result: PreflightResult)
        ensures
            final(self)@ == old(self)@.with_preflight(result@),
    {
        if result.all_passed() {
            self.mode = AppMode::Chat;
            self.setup = None;
            self.state = ConnectionState::Connecting("Starting agent...".to_owned());
            return;
        }
        let (install_log, install_error): (Vec<String>, Option<String>) = match self.setup.take() {
            Some(earlier) => (earlier.install_log, earlier.install_error),
            None => {
                let log: Vec<String> = Vec::new();
                assert(text::texts(log@) =~= Seq::empty());
                (log, None)
            },
        };
        self.mode = AppMode::Setup;
        self.setup = Some(
            SetupState {
                preflight: result,
                selected_index: 0,
                install_in_progress: false,
                install_log,
                install_error,
            },
        );
        self.state = ConnectionState::Disconnected;
    }

    fn set_setup(&mut self, setup: Option<SetupState>)
        ensures
            final(self)@ == old(self)@.with_setup(types::setup_seen(setup)),
    {
        self.setup = setup;
    }

    fn take_setup(&mut self) -> (setup: Option<SetupState>)
        ensures
            types::setup_seen(setup) == old(self)@.setup,
            final(self)@ == old(self)@.with_setup(None),
    {
        self.setup.take()
    }

    pub(crate) fn start_install(&mut self)
        ensures
            final(self)@ == old(self)@.with_install_started(),
    {
        if let Some(mut setup) = self.take_setup() {
            setup.install_in_progress = true;
            setup.install_error = None;
            self.set_setup(Some(setup));
        }
    }

    pub(crate) fn log_install(&mut self, line: String)
        ensures
            final(self)@ == old(self)@.with_install_line(line@),
    {
        if let Some(mut setup) = self.take_setup() {
            let ghost before = setup.install_log@;
            setup.install_log.push(line);
            assert(text::texts(setup.install_log@) =~= text::texts(before).push(line@));
            keep_last_lines(&mut setup.install_log);
            self.set_setup(Some(setup));
        }
    }

    pub(crate) fn finish_install(&mut self, result: Result<(), String>)
        ensures
            final(self)@ == old(self)@.with_install_done(result),
    {
        if let Some(mut setup) = self.take_setup() {
            setup.install_in_progress = false;
            match result {
                Ok(()) => {
                    let ghost before = setup.install_log@;
                    setup.install_log.push("Installation complete.".to_owned());
                    assert(text::texts(setup.install_log@) =~= text::texts(before).push(
                        "Installation complete."@,
                    ));
                    setup.install_error = None;
                },
                Err(reason) => {
                    setup.install_error = Some(reason);
                },
            }
            self.set_setup(Some(setup));
        }
    }
}

impl App {
    /// Takes a key in the wizard.
    pub(crate) fn handle_setup_key(&mut self, key: KeyEvent)
        ensures
            final(self)@ == old(self)@.with_setup_key(key),
    {
        match key.code {
            KeyCode::Char(c) => {
                if c == 'c' && key.modifiers.control {
                    self.quit();
                } else if c == 'o' || c == 'O' {
                    self.open_install_page();
                }
            },
            KeyCode::Esc => self.quit(),
            KeyCode::Enter => self.request_install(),
            KeyCode::Up => self.select_row_above(),
            KeyCode::Down => self.select_row_below(),
            _ => {},
        }
    }

    pub(crate) fn quit(&mut self)
        ensures
            final(self)@ == old(self)@.quitting(),
    {
        self.should_quit = true;
    }

    fn select_row_above(&mut self)
        ensures
            final(self)@ == old(self)@.with_setup(row_above(old(self)@.setup)),
    {
        if let Some(mut setup) = self.take_setup() {
            if setup.selected_index > 0 {
                setup.selected_index = setup.selected_index - 1;
            }
            self.set_setup(Some(setup));
        }
    }

    fn select_row_below(&mut self)
        ensures
            final(self)@ == old(self)@.with_setup(row_below(old(self)@.setup)),
    {
        if let Some(mut setup) = self.take_setup() {
            if setup.selected_index < 1 {
                setup.selected_index = setup.selected_index + 1;
            }
            self.set_setup(Some(setup));
        }
    }

    fn open_install_page(&mut self)
        ensures
            final(self)@ == old(self)@.with_install_page(),
    {
        let url: Option<String> = match &self.setup {
            Some(setup) => if setup.selected_index == 0 && !is_passed(&setup.preflight.cli_status)
                && !setup.preflight.install_url.as_str().is_empty() {
                Some(setup.preflight.install_url.clone())
            } else {
                None
            },
            None => None,
        };
        if let Some(url) = url {
            self.ask(Effect::OpenUrl(url));
        }
    }

    fn request_install(&mut self)
        ensures
            final(self)@ == old(self)@.with_install_requested(),
    {
        let wanted: bool = match &self.setup {
            Some(setup) => setup.selected_index == 0 && !is_passed(&setup.preflight.cli_status)
                && !setup.install_in_progress && same_text(
                setup.preflight.agent_id.as_str(),
                "copilot",
            ),
            None => false,
        };
        if !wanted || !self.can_install {
            return;
        }
        self.ask(Effect::RequestInstall);
        if let Some(mut setup) = self.take_setup() {
            let mut log: Vec<String> = Vec::new();
            log.push("Starting GitHub Copilot installation...".to_owned());
            assert(text::texts(log@) =~= seq!["Starting GitHub Copilot installation..."@]);
            setup.install_in_progress = true;
            setup.install_error = None;
            setup.install_log = log;
            self.set_setup(Some(setup));
        }
    }

    fn adopt(&mut self, shared: SharedStateSnapshot) -> (permission: Option<SharedPermission>)
        ensures
            permission == shared.permission,
            final(self)@ == old(self)@.adopting(shared),
    {
        self.state = shared.state;
        self.agent_name = shared.agent_name;
        self.agent_model = shared.agent_model;
        self.agent_version = shared.agent_version;
        self.prompt_name = shared.prompt_name;
        self.progress_status = shared.progress_status;
        self.session_id = shared.session_id;
        self.wt_connected = shared.wt_connected;
        self.messages = shared.messages;
        self.completed_turns = shared.completed_turns;
        self.recommendations = shared.recommendations;
        self.agent_streaming = shared.agent_streaming;
        self.pending_thought_response = shared.pending_thought_response;
        self.pending_agent_response = shared.pending_agent_response;
        self.timing_note = shared.timing_note;
        self.prompt_in_flight = shared.prompt_in_flight;
        shared.permission
    }

    fn select_recommended(&mut self)
        ensures
            final(self)@ == old(self)@.with_recommended_selected(),
    {
        let index: Option<usize> = match &self.recommendations {
            Some(set) => Some(recommended_choice_index(set)),
            None => None,
        };
        match index {
            Some(index) => {
                self.selected_recommendation = index;
                self.selection_visible_pending = true;
            },
            None => {
                self.selected_recommendation = 0;
            },
        }
    }

    pub(crate) fn set_permission(&mut self, permission: Option<PermissionState>)
        ensures
            final(self)@ == old(self)@.with_permission(types::permission_seen(permission)),
    {
        self.permission = permission;
    }

    /// Takes the state that attached applications share.
    pub(crate) fn apply_shared_snapshot(
        &mut self,
        snapshot: SharedStateSnapshot,
        profile: &AgentProfile,
    )
        ensures
            final(self)@ == old(self)@.with_snapshot(snapshot, *profile),
    {
        if let ConnectionState::Failed(message) = &snapshot.state {
            if is_auth_error(message.as_str()) && self.mode != AppMode::Setup {
                self.want_login(message.as_str(), profile);
                return;
            }
        }
        let recommendations_changed: bool = !same_set(
            &self.recommendations,
            &snapshot.recommendations,
        );
        let turns_changed: bool = !same_turns(&self.completed_turns, &snapshot.completed_turns);
        let permission = self.adopt(snapshot);
        if recommendations_changed {
            self.select_recommended();
        }
        if turns_changed {
            self.focus_latest_completed_turn();
        }
        let merged = merge_permission(&self.permission, permission);
        self.set_permission(merged);
        self.normalize_history_state();
    }
}

fn is_passed(status: &CheckStatus) -> (yes: bool)
    ensures
        yes == (status@ is Passed),
{
    match status {
        CheckStatus::Passed => true,
        _ => false,
    }
}

} // verus!
