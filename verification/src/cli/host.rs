//! The host that several panes share: how it is started, when it is ready, and
//! what a pane tells it.
use super::walk::{IdentityView, PaneIdentity};
use crate::app::types::{ContextView, PaneContext};
use crate::coordinator;
use crate::text;
use crate::text::{clone_text, is_blank, trim};
use crate::wt_channel::discovery::ConnectionInfo;
use std::collections::hash_map::DefaultHasher;
use std::hash::Hasher;
use vstd::prelude::*;
use vstd::std_specs::hash::DefaultHasherAdditionalSpecFns;

verus! {

/// The arguments of the host.
pub open spec fn host_args(
    agent: Seq<char>,
    delegate: Option<Seq<char>>,
    pipe: Option<(Seq<char>, Seq<char>)>,
) -> Seq<Seq<char>> {
    let started = seq!["host"@, "--agent"@, agent];
    let delegating = match delegate {
        Some(delegate) => if text::blank(delegate) {
            started
        } else {
            started + seq!["--delegate-agent"@, delegate]
        },
        None => started,
    };
    match pipe {
        Some((name, token)) => if token.len() > 0 {
            delegating + seq!["--pipe-name"@, name, "--pipe-token"@, token]
        } else {
            delegating + seq!["--pipe-name"@, name]
        },
        None => delegating,
    }
}

/// The pipe and the token of a connection.
pub open spec fn pipe_of(info: Option<ConnectionInfo>) -> Option<(Seq<char>, Seq<char>)> {
    match info {
        Some(info) => Some((info.pipe_name@, info.token@)),
        None => None,
    }
}

/// The arguments with which the host is started in the background.
pub fn host_arguments(
    agent_cmd: &str,
    delegate_agent_cmd: Option<&str>,
    pipe_info: &Option<ConnectionInfo>,
) -> (args: Vec<String>)
    ensures
        text::texts(args@) == host_args(
            agent_cmd@,
            match delegate_agent_cmd {
                Some(delegate) => Some(delegate@),
                None => None,
            },
            pipe_of(*pipe_info),
        ),
{
    let mut args: Vec<String> = Vec::new();
    args.push("host".to_owned());
    args.push("--agent".to_owned());
    args.push(agent_cmd.to_owned());
    assert(text::texts(args@) =~= seq!["host"@, "--agent"@, agent_cmd@]);
    if let Some(delegate) = delegate_agent_cmd {
        if !is_blank(delegate) {
            let ghost before = text::texts(args@);
            args.push("--delegate-agent".to_owned());
            args.push(delegate.to_owned());
            assert(text::texts(args@) =~= before + seq!["--delegate-agent"@, delegate@]);
        }
    }
    if let Some(info) = pipe_info {
        let ghost before = text::texts(args@);
        args.push("--pipe-name".to_owned());
        args.push(info.pipe_name.clone());
        assert(text::texts(args@) =~= before + seq!["--pipe-name"@, info.pipe_name@]);
        if !info.token.as_str().is_empty() {
            args.push("--pipe-token".to_owned());
            args.push(info.token.clone());
            assert(text::texts(args@) =~= before + seq![
                "--pipe-name"@,
                info.pipe_name@,
                "--pipe-token"@,
                info.token@,
            ]);
        }
    }
    args
}

/// The arguments with which a prompt is delegated.
pub open spec fn delegate_args(
    prompt: Seq<char>,
    pipe: Option<Seq<char>>,
    token: Option<Seq<char>>,
) -> Seq<Seq<char>> {
    let started = seq!["delegate"@, prompt];
    let piped = match pipe {
        Some(pipe) => started + seq!["--pipe-name"@, pipe],
        None => started,
    };
    match token {
        Some(token) => piped + seq!["--pipe-token"@, token],
        None => piped,
    }
}

/// The arguments with which a prompt is delegated to an agent in a new tab.
pub fn delegate_arguments(
    prompt: &str,
    pipe_name: &Option<String>,
    token: &Option<String>,
) -> (args: Vec<String>)
    ensures
        text::texts(args@) == delegate_args(
            prompt@,
            coordinator::seen(*pipe_name),
            coordinator::seen(*token),
        ),
{
    let mut args: Vec<String> = Vec::new();
    args.push("delegate".to_owned());
    args.push(prompt.to_owned());
    assert(text::texts(args@) =~= seq!["delegate"@, prompt@]);
    if let Some(pipe) = pipe_name {
        let ghost before = text::texts(args@);
        args.push("--pipe-name".to_owned());
        args.push(pipe.clone());
        assert(text::texts(args@) =~= before + seq!["--pipe-name"@, pipe@]);
    }
    if let Some(token) = token {
        let ghost before = text::texts(args@);
        args.push("--pipe-token".to_owned());
        args.push(token.clone());
        assert(text::texts(args@) =~= before + seq!["--pipe-token"@, token@]);
    }
    args
}

/// The value of a variable without the blanks around it; none where nothing is
/// left.
pub open spec fn nonblank(value: Option<Seq<char>>) -> Option<Seq<char>> {
    match value {
        Some(value) => if text::trimmed(value).len() > 0 {
            Some(text::trimmed(value))
        } else {
            None
        },
        None => None,
    }
}

/// The value of a variable without the blanks around it.
pub fn non_empty_env_var(value: &Option<String>) -> (r: Option<String>)
    ensures
        coordinator::seen(r) == nonblank(coordinator::seen(*value)),
{
    match value {
        Some(value) => {
            let rest = trim(value.as_str());
            if rest.is_empty() {
                None
            } else {
                Some(rest.to_owned())
            }
        },
        None => None,
    }
}

/// What the environment says of the pane that a prompt is about.
#[derive(Debug)]
pub struct SourceVariables {
    pub pane_id: Option<String>,
    pub tab_id: Option<String>,
    pub window_id: Option<String>,
    pub cwd: Option<String>,
}

pub open spec fn first_known(a: Option<Seq<char>>, b: Option<Seq<char>>) -> Option<Seq<char>> {
    match a {
        Some(a) => Some(a),
        None => b,
    }
}

fn or_else(a: Option<String>, b: Option<String>) -> (r: Option<String>)
    ensures
        coordinator::seen(r) == first_known(coordinator::seen(a), coordinator::seen(b)),
{
    match a {
        Some(a) => Some(a),
        None => b,
    }
}

/// Where a prompt comes from: what the environment says goes before the own
/// pane and the own directory.
pub open spec fn context_of(
    identity: Option<IdentityView>,
    source: SourceVariables,
    current_cwd: Option<Seq<char>>,
) -> ContextView {
    let pane = nonblank(coordinator::seen(source.pane_id));
    let tab = nonblank(coordinator::seen(source.tab_id));
    let window = nonblank(coordinator::seen(source.window_id));
    let cwd = first_known(nonblank(coordinator::seen(source.cwd)), current_cwd);
    match identity {
        Some(own) => ContextView {
            session_id: Some(own.pane_id),
            tab_id: first_known(tab, Some(own.tab_id)),
            window_id: first_known(window, Some(own.window_id)),
            cwd,
            source_session_id: first_known(pane, Some(own.pane_id)),
        },
        None => ContextView {
            session_id: None,
            tab_id: tab,
            window_id: window,
            cwd,
            source_session_id: pane,
        },
    }
}

/// Where a prompt comes from.
pub fn pane_context_from_identity(
    pane_identity: &Option<PaneIdentity>,
    source: &SourceVariables,
    current_cwd: &Option<String>,
) -> (context: PaneContext)
    ensures
        context@ == context_of(
            super::walk::identity_seen(*pane_identity),
            *source,
            coordinator::seen(*current_cwd),
        ),
{
    let pane = non_empty_env_var(&source.pane_id);
    let tab = non_empty_env_var(&source.tab_id);
    let window = non_empty_env_var(&source.window_id);
    let cwd = or_else(non_empty_env_var(&source.cwd), clone_text(current_cwd));
    match pane_identity {
        Some(own) => PaneContext {
            session_id: Some(own.pane_id.clone()),
            tab_id: or_else(tab, Some(own.tab_id.clone())),
            window_id: or_else(window, Some(own.window_id.clone())),
            cwd,
            source_session_id: or_else(pane, Some(own.pane_id.clone())),
        },
        None => PaneContext {
            session_id: None,
            tab_id: tab,
            window_id: window,
            cwd,
            source_session_id: pane,
        },
    }
}

/// A digit of a hexadecimal number.
pub open spec fn hex_digit(n: int) -> char {
    if n < 10 {
        (('0' as int) + n) as char
    } else {
        (('a' as int) + n - 10) as char
    }
}

/// The last `width` hexadecimal digits of a number.
pub open spec fn hex(n: int, width: nat) -> Seq<char>
    decreases width,
{
    if width == 0 {
        Seq::empty()
    } else {
        hex(n / 16, (width - 1) as nat).push(hex_digit(n % 16))
    }
}

fn hex_char(n: u64) -> (c: char)
    requires
        n < 16,
    ensures
        c == hex_digit(n as int),
{
    if n < 10 {
        (48u8 + n as u8) as char
    } else {
        (97u8 + (n as u8 - 10)) as char
    }
}

fn hex_text(n: u64, width: u32) -> (digits: String)
    ensures
        digits@ == hex(n as int, width as nat),
    decreases width,
{
    if width == 0 {
        return String::new();
    }
    let mut digits = hex_text(n / 16, width - 1);
    digits.push(hex_char(n % 16));
    digits
}

/// The name of the lock that belongs to a hash.
pub open spec fn mutex_text(hash: u64) -> Seq<char> {
    "Local\\wta-shared-host-"@ + hex(hash as int, 16)
}

/// The name of the lock that belongs to a hash.
pub fn mutex_name(hash: u64) -> (name: String)
    ensures
        name@ == mutex_text(hash),
{
    let mut name = "Local\\wta-shared-host-".to_owned();
    name.append(hex_text(hash, 16).as_str());
    name
}

/// What a text writes to a hasher.
pub uninterp spec fn hash_writes(text: Seq<char>) -> Seq<Seq<u8>>;

/// `std::hash::Hash::hash` of a text: it writes the text to the hasher. What it
/// writes is named, not described; it depends on the text alone.
#[verifier::external_body]
fn hash_text(text: &str, hasher: &mut DefaultHasher)
    ensures
        final(hasher)@ == old(hasher)@ + hash_writes(text@),
{
    std::hash::Hash::hash(text, hasher);
}

/// The name of the lock under which the host of a pipe is started.
pub open spec fn host_mutex(host_pipe_name: Seq<char>) -> Seq<char> {
    mutex_text(DefaultHasher::spec_finish(hash_writes(host_pipe_name)))
}

/// The name of the lock under which the host of a pipe is started.
pub fn host_mutex_name(host_pipe_name: &str) -> (name: String)
    ensures
        name@ == host_mutex(host_pipe_name@),
{
    let mut hasher = DefaultHasher::new();
    hash_text(host_pipe_name, &mut hasher);
    assert(hasher@ =~= hash_writes(host_pipe_name@));
    mutex_name(hasher.finish())
}

/// What is known of the host so far.
#[derive(Debug, Clone, Copy, PartialEq, Eq, Structural)]
pub enum HostStage {
    /// A pane attaches: perhaps the host is ready.
    Attaching,
    /// It is not; perhaps it is about to be.
    AttachProbing,
    /// It runs, and becomes ready.
    AttachWaiting,
    /// The host has to run: perhaps it does.
    Checking,
    /// It does not seem to; the lock is to be taken.
    Locking,
    /// With the lock taken: perhaps another pane has started it.
    CheckingLocked,
    /// It is not ready; perhaps it was started.
    Probing,
    /// It is being started.
    Starting,
    /// It was started, and becomes ready.
    Waiting,
}

/// What is done next about the host.
#[derive(Debug, Clone, Copy, PartialEq, Eq, Structural)]
pub enum HostAction {
    /// Wait for the host to be ready, so many milliseconds.
    WaitReady(u64),
    /// Ask the host for its state, and wait so many milliseconds.
    Probe(u64),
    /// Take the lock.
    Lock,
    /// Start the host.
    Spawn,
}

/// The action of a stage.
pub open spec fn action_of(stage: HostStage) -> HostAction {
    match stage {
        HostStage::Attaching => HostAction::WaitReady(75),
        HostStage::AttachProbing => HostAction::Probe(200),
        HostStage::AttachWaiting => HostAction::WaitReady(30_000),
        HostStage::Checking => HostAction::WaitReady(200),
        HostStage::Locking => HostAction::Lock,
        HostStage::CheckingLocked => HostAction::WaitReady(200),
        HostStage::Probing => HostAction::Probe(200),
        HostStage::Starting => HostAction::Spawn,
        HostStage::Waiting => HostAction::WaitReady(30_000),
    }
}

/// The action of a stage.
pub fn host_action(stage: HostStage) -> (action: HostAction)
    ensures
        action == action_of(stage),
{
    match stage {
        HostStage::Attaching => HostAction::WaitReady(75),
        HostStage::AttachProbing => HostAction::Probe(200),
        HostStage::AttachWaiting => HostAction::WaitReady(30_000),
        HostStage::Checking => HostAction::WaitReady(200),
        HostStage::Locking => HostAction::Lock,
        HostStage::CheckingLocked => HostAction::WaitReady(200),
        HostStage::Probing => HostAction::Probe(200),
        HostStage::Starting => HostAction::Spawn,
        HostStage::Waiting => HostAction::WaitReady(30_000),
    }
}

/// Where the action of a stage leads: to another stage, or to an end.
#[derive(Debug, Clone, Copy, PartialEq, Eq, Structural)]
pub enum HostStep {
    Go(HostStage),
    /// The host is ready.
    Ready,
    /// The action failed, and that ends it.
    GiveUp,
}

/// Where the action of a stage leads, by whether it succeeded.
pub open spec fn host_next(stage: HostStage, succeeded: bool) -> HostStep {
    match stage {
        HostStage::Attaching => if succeeded {
            HostStep::Ready
        } else {
            HostStep::Go(HostStage::AttachProbing)
        },
        HostStage::AttachProbing => if succeeded {
            HostStep::Go(HostStage::AttachWaiting)
        } else {
            HostStep::Go(HostStage::Checking)
        },
        HostStage::AttachWaiting => if succeeded {
            HostStep::Ready
        } else {
            HostStep::GiveUp
        },
        HostStage::Checking => if succeeded {
            HostStep::Ready
        } else {
            HostStep::Go(HostStage::Locking)
        },
        HostStage::Locking => if succeeded {
            HostStep::Go(HostStage::CheckingLocked)
        } else {
            HostStep::GiveUp
        },
        HostStage::CheckingLocked => if succeeded {
            HostStep::Ready
        } else {
            HostStep::Go(HostStage::Probing)
        },
        HostStage::Probing => if succeeded {
            HostStep::Go(HostStage::Waiting)
        } else {
            HostStep::Go(HostStage::Starting)
        },
        HostStage::Starting => if succeeded {
            HostStep::Go(HostStage::Waiting)
        } else {
            HostStep::GiveUp
        },
        HostStage::Waiting => if succeeded {
            HostStep::Ready
        } else {
            HostStep::GiveUp
        },
    }
}

/// Where the action of a stage leads.
pub fn host_step(stage: HostStage, succeeded: bool) -> (step: HostStep)
    ensures
        step == host_next(stage, succeeded),
{
    match (stage, succeeded) {
        (HostStage::Attaching, true) => HostStep::Ready,
        (HostStage::Attaching, false) => HostStep::Go(HostStage::AttachProbing),
        (HostStage::AttachProbing, true) => HostStep::Go(HostStage::AttachWaiting),
        (HostStage::AttachProbing, false) => HostStep::Go(HostStage::Checking),
        (HostStage::AttachWaiting, true) => HostStep::Ready,
        (HostStage::AttachWaiting, false) => HostStep::GiveUp,
        (HostStage::Checking, true) => HostStep::Ready,
        (HostStage::Checking, false) => HostStep::Go(HostStage::Locking),
        (HostStage::Locking, true) => HostStep::Go(HostStage::CheckingLocked),
        (HostStage::Locking, false) => HostStep::GiveUp,
        (HostStage::CheckingLocked, true) => HostStep::Ready,
        (HostStage::CheckingLocked, false) => HostStep::Go(HostStage::Probing),
        (HostStage::Probing, true) => HostStep::Go(HostStage::Waiting),
        (HostStage::Probing, false) => HostStep::Go(HostStage::Starting),
        (HostStage::Starting, true) => HostStep::Go(HostStage::Waiting),
        (HostStage::Starting, false) => HostStep::GiveUp,
        (HostStage::Waiting, true) => HostStep::Ready,
        (HostStage::Waiting, false) => HostStep::GiveUp,
    }
}

/// What a pane that attaches is told when a stage begins.
pub fn stage_message(stage: HostStage) -> (message: Option<&'static str>)
    ensures
        match message {
            Some(message) => {
                ||| stage == HostStage::AttachWaiting && message@
                    == "Waiting for shared host session..."@
                ||| stage == HostStage::Checking && message@ == "Starting shared host..."@
            },
            None => stage != HostStage::AttachWaiting && stage != HostStage::Checking,
        },
{
    match stage {
        HostStage::AttachWaiting => Some("Waiting for shared host session..."),
        HostStage::Checking => Some("Starting shared host..."),
        _ => None,
    }
}

/// How many stages may still follow.
pub open spec fn stages_left(stage: HostStage) -> int {
    match stage {
        HostStage::Attaching => 8,
        HostStage::AttachProbing => 7,
        HostStage::Checking => 6,
        HostStage::Locking => 5,
        HostStage::CheckingLocked => 4,
        HostStage::Probing => 3,
        HostStage::Starting => 2,
        HostStage::Waiting => 1,
        HostStage::AttachWaiting => 1,
    }
}

/// The search for the host comes to an end, whatever happens.
pub proof fn law_host_search_ends(stage: HostStage, succeeded: bool)
    ensures
        host_next(stage, succeeded) matches HostStep::Go(next) ==> stages_left(next) < stages_left(
            stage,
        ),
{
}

/// The host is started only under the lock, after it was seen not to run, and
/// never twice.
pub proof fn law_host_is_started_once(stage: HostStage, succeeded: bool)
    ensures
        host_next(stage, succeeded) == HostStep::Go(HostStage::Starting) ==> stage
            == HostStage::Probing && !succeeded,
        host_next(stage, succeeded) == HostStep::Go(HostStage::Probing) ==> stage
            == HostStage::CheckingLocked && !succeeded,
        host_next(stage, succeeded) == HostStep::Go(HostStage::CheckingLocked) ==> stage
            == HostStage::Locking && succeeded,
        stage == HostStage::Starting ==> host_next(stage, succeeded) != HostStep::Go(
            HostStage::Starting,
        ),
{
}

} // verus!
