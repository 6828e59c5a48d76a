//! Checks made before an agent is launched: is its program there, and is the
//! user logged in.
use crate::coordinator;
use crate::text;
use crate::text::{
    chars_of, is_blank, is_whitespace, lines, strip_suffix, trim, words,
};
use vstd::prelude::*;

verus! {

/// Where one check stands.
#[derive(Debug, PartialEq)]
pub enum CheckStatus {
    /// The check is in progress.
    Checking,
    /// The check passed.
    Passed,
    /// The check failed, for this reason.
    Failed(String),
    /// The check was left out, because another one failed or it is not needed.
    Skipped,
}

pub ghost enum StatusView {
    Checking,
    Passed,
    Failed(Seq<char>),
    Skipped,
}

impl View for CheckStatus {
    type V = StatusView;

    open spec fn view(&self) -> StatusView {
        match *self {
            CheckStatus::Checking => StatusView::Checking,
            CheckStatus::Passed => StatusView::Passed,
            CheckStatus::Failed(reason) => StatusView::Failed(reason@),
            CheckStatus::Skipped => StatusView::Skipped,
        }
    }
}

impl Clone for CheckStatus {
    fn clone(&self) -> (copy: Self)
        ensures
            copy == *self,
    {
        match self {
            CheckStatus::Checking => CheckStatus::Checking,
            CheckStatus::Passed => CheckStatus::Passed,
            CheckStatus::Failed(reason) => CheckStatus::Failed(reason.clone()),
            CheckStatus::Skipped => CheckStatus::Skipped,
        }
    }
}

/// The checks of one agent.
#[derive(Debug)]
pub struct PreflightResult {
    pub agent_id: String,
    pub display_name: String,
    pub cli_status: CheckStatus,
    pub cli_path: Option<String>,
    pub auth_status: CheckStatus,
    pub install_hint: String,
    pub install_url: String,
    pub auth_hint: String,
}

pub ghost struct PreflightView {
    pub agent_id: Seq<char>,
    pub display_name: Seq<char>,
    pub cli_status: StatusView,
    pub cli_path: Option<Seq<char>>,
    pub auth_status: StatusView,
    pub install_hint: Seq<char>,
    pub install_url: Seq<char>,
    pub auth_hint: Seq<char>,
}

impl View for PreflightResult {
    type V = PreflightView;

    open spec fn view(&self) -> PreflightView {
        PreflightView {
            agent_id: self.agent_id@,
            display_name: self.display_name@,
            cli_status: self.cli_status@,
            cli_path: coordinator::seen(self.cli_path),
            auth_status: self.auth_status@,
            install_hint: self.install_hint@,
            install_url: self.install_url@,
            auth_hint: self.auth_hint@,
        }
    }
}

impl PreflightView {
    /// The program is there, and the login is known to be good or is not
    /// checked.
    pub open spec fn ready(self) -> bool {
        self.cli_status is Passed && (self.auth_status is Passed || self.auth_status is Skipped)
    }
}

impl PreflightResult {
    /// Whether all the checks that are needed passed.
    pub fn all_passed(&self) -> (yes: bool)
        ensures
            yes == self@.ready(),
    {
        let cli: bool = match self.cli_status {
            CheckStatus::Passed => true,
            _ => false,
        };
        let auth: bool = match self.auth_status {
            CheckStatus::Passed => true,
            CheckStatus::Skipped => true,
            _ => false,
        };
        cli && auth
    }
}

/// When the user logs in to an agent.
#[derive(Debug, Clone, Copy, PartialEq, Eq, Structural)]
pub enum AcpAuthFlow {
    /// By a command of the agent's own, before it is launched.
    External,
    /// While the agent runs.
    InProtocol,
    /// Not at all.
    NotNeeded,
}

/// What is known of an agent's program.
#[derive(Debug)]
pub struct AgentProfile {
    pub id: String,
    pub display_name: String,
    pub install_hint: String,
    pub install_url: String,
    pub auth_hint: String,
    pub acp_auth_flow: AcpAuthFlow,
    pub auth_check_command: String,
    pub exe_search_order: Vec<String>,
}

/// The first word of a command, or the command where it has none.
pub open spec fn agent_id(cmd: Seq<char>) -> Seq<char> {
    let words = text::words_of(cmd);
    if words.len() > 0 {
        words[0]
    } else {
        cmd
    }
}

proof fn lemma_first_word(s: Seq<char>, from: int, start: int)
    requires
        0 <= from <= start <= s.len(),
        forall|i: int| from <= i < start ==> text::is_space(#[trigger] s[i]),
        start < s.len() ==> !text::is_space(s[start]),
    ensures
        start == s.len() ==> text::words_from(s, from).len() == 0,
        start < s.len() ==> text::words_from(s, from).len() > 0 && text::words_from(s, from)[0]
            == s.subrange(start, text::space_from(s, start)),
    decreases start - from,
{
    if from < start {
        assert(text::is_space(s[from]));
        lemma_first_word(s, from + 1, start);
    } else if start < s.len() {
        lemma_space_from(s, start);
        lemma_space_from(s, start + 1);
    }
}

proof fn lemma_space_from(s: Seq<char>, from: int)
    requires
        0 <= from <= s.len(),
    ensures
        from <= text::space_from(s, from) <= s.len(),
    decreases s.len() - from,
{
    if from < s.len() && !text::is_space(s[from]) {
        lemma_space_from(s, from + 1);
    }
}

/// The id of the agent that a command launches: its first word.
pub fn extract_agent_id(agent_cmd: &str) -> (id: &str)
    ensures
        id@ == agent_id(agent_cmd@),
{
    let chars = chars_of(agent_cmd);
    let n: usize = chars.len();
    let mut start: usize = 0;
    while start < n && is_whitespace(chars[start])
        invariant
            start <= n == chars@.len(),
            forall|i: int| 0 <= i < start ==> text::is_space(#[trigger] chars@[i]),
        decreases n - start,
    {
        start += 1;
    }
    proof {
        lemma_first_word(agent_cmd@, 0, start as int);
        lemma_space_from(agent_cmd@, start as int);
    }
    if start == n {
        return agent_cmd;
    }
    let mut end: usize = start;
    while end < n && !is_whitespace(chars[end])
        invariant
            start <= end <= n == chars@.len(),
            text::space_from(chars@, start as int) == text::space_from(chars@, end as int),
        decreases n - end,
    {
        end += 1;
    }
    agent_cmd.substring_char(start, end)
}

/// The checks of `profile` after its program was looked for.
pub open spec fn after_lookup(
    agent_cmd: Seq<char>,
    profile: AgentProfile,
    found: Option<Seq<char>>,
) -> PreflightView {
    PreflightView {
        agent_id: agent_id(agent_cmd),
        display_name: profile.display_name@,
        cli_status: if found is Some {
            StatusView::Passed
        } else {
            StatusView::Failed("Not found on PATH"@)
        },
        cli_path: found,
        auth_status: StatusView::Skipped,
        install_hint: profile.install_hint@,
        install_url: profile.install_url@,
        auth_hint: profile.auth_hint@,
    }
}

/// The login of `profile` is checked by running its command.
pub open spec fn checks_login(profile: AgentProfile, found: bool) -> bool {
    found && profile.acp_auth_flow == AcpAuthFlow::External && profile.auth_check_command@.len() > 0
}

/// The checks after the program of `agent_cmd` was looked for and found at
/// `path`, or not. Also says whether the login is to be checked next.
pub fn check_agent(agent_cmd: &str, profile: &AgentProfile, path: Option<String>) -> (r: (
    PreflightResult,
    bool,
))
    ensures
        r.0@ == after_lookup(agent_cmd@, *profile, coordinator::seen(path)),
        r.1 == checks_login(*profile, path is Some),
{
    let found: bool = path.is_some();
    let result = PreflightResult {
        agent_id: extract_agent_id(agent_cmd).to_owned(),
        display_name: profile.display_name.clone(),
        cli_status: if found {
            CheckStatus::Passed
        } else {
            CheckStatus::Failed("Not found on PATH".to_owned())
        },
        cli_path: path,
        auth_status: CheckStatus::Skipped,
        install_hint: profile.install_hint.clone(),
        install_url: profile.install_url.clone(),
        auth_hint: profile.auth_hint.clone(),
    };
    let login: bool = found && profile.acp_auth_flow == AcpAuthFlow::External
        && !profile.auth_check_command.as_str().is_empty();
    (result, login)
}

/// The checks with the outcome of the login check.
pub fn with_auth_status(result: PreflightResult, status: CheckStatus) -> (r: PreflightResult)
    ensures
        r@ == (PreflightView { auth_status: status@, ..result@ }),
{
    PreflightResult {
        agent_id: result.agent_id,
        display_name: result.display_name,
        cli_status: result.cli_status,
        cli_path: result.cli_path,
        auth_status: status,
        install_hint: result.install_hint,
        install_url: result.install_url,
        auth_hint: result.auth_hint,
    }
}

/// `name` without `.exe` at its end, or else without `.cmd`.
pub open spec fn base_name(name: Seq<char>) -> Seq<char> {
    if text::has_suffix(name, ".exe"@) {
        name.take(name.len() - ".exe"@.len())
    } else if text::has_suffix(name, ".cmd"@) {
        name.take(name.len() - ".cmd"@.len())
    } else {
        name
    }
}

/// The file names under which a program is looked for, in this order: the name
/// as it is, then its base name with each ending.
pub open spec fn candidates(name: Seq<char>, endings: Seq<Seq<char>>) -> Seq<Seq<char>> {
    seq![name] + endings.map_values(|ending: Seq<char>| base_name(name) + ending)
}

/// The file names under which a program is looked for on the path, in order.
/// Each name is tried in all directories before the next one is.
pub fn executable_names(resolved_name: &str, exe_search_order: &Vec<String>) -> (names: Vec<String>)
    ensures
        text::texts(names@) == candidates(resolved_name@, text::texts(exe_search_order@)),
{
    let base = match strip_suffix(resolved_name, ".exe") {
        Some(base) => base,
        None => match strip_suffix(resolved_name, ".cmd") {
            Some(base) => base,
            None => resolved_name,
        },
    };
    let ghost all = candidates(resolved_name@, text::texts(exe_search_order@));
    let mut names: Vec<String> = Vec::new();
    names.push(resolved_name.to_owned());
    let mut i: usize = 0;
    assert(text::texts(names@) =~= all.take(1));
    while i < exe_search_order.len()
        invariant
            i <= exe_search_order@.len(),
            base@ == base_name(resolved_name@),
            all == candidates(resolved_name@, text::texts(exe_search_order@)),
            text::texts(names@) == all.take(i + 1),
        decreases exe_search_order@.len() - i,
    {
        let mut name = base.to_owned();
        name.append(exe_search_order[i].as_str());
        let ghost earlier = names@;
        names.push(name);
        i += 1;
        assert(text::texts(names@) =~= text::texts(earlier).push(name@));
        assert(all[i as int] == name@);
        assert(all.take(i + 1) =~= all.take(i as int).push(all[i as int]));
    }
    assert(all.take(i + 1) =~= all);
    names
}

/// How the command that checks the login ended.
#[derive(Debug)]
pub enum AuthRun {
    /// It ran to its end, and wrote this to its error output.
    Finished { success: bool, stderr: String },
    /// It could not be waited for, for this reason.
    Broken(String),
    /// It took too long.
    TimedOut,
    /// It could not be started.
    NotStarted,
}

/// The first line that is not blank among `list[from..]`.
pub open spec fn first_said(list: Seq<Seq<char>>, from: int) -> Option<Seq<char>>
    decreases list.len() - from,
{
    if from < 0 || from >= list.len() {
        None
    } else if !text::blank(list[from]) {
        Some(list[from])
    } else {
        first_said(list, from + 1)
    }
}

/// Why the login check failed: the first line that it wrote.
pub open spec fn failure_reason(stderr: Seq<char>) -> Seq<char> {
    if text::blank(stderr) {
        "Not authenticated"@
    } else {
        match first_said(text::lines_of(stderr), 0) {
            Some(line) => text::trimmed(line),
            None => "Not authenticated"@,
        }
    }
}

#[verifier::loop_isolation(false)]
fn reason_of(stderr: &str) -> (reason: String)
    ensures
        reason@ == failure_reason(stderr@),
{
    if is_blank(stderr) {
        return "Not authenticated".to_owned();
    }
    let list = lines(stderr);
    let mut i: usize = 0;
    while i < list.len()
        invariant
            i <= list@.len(),
            text::texts(list@) == text::lines_of(stderr@),
            first_said(text::texts(list@), 0) == first_said(text::texts(list@), i as int),
        decreases list@.len() - i,
    {
        assert(text::texts(list@)[i as int] == list@[i as int]@);
        if !is_blank(list[i].as_str()) {
            return trim(list[i].as_str()).to_owned();
        }
        i += 1;
    }
    proof {
        reveal_strlit("Not authenticated");
        let line = "Not authenticated"@;
        assert(!text::is_space(line[0]));
        assert(!text::is_space(line[line.len() - 1]));
        text::lemma_trim_bounds(line, |c: char| text::is_space(c), 0, line.len() as int);
        assert(line.subrange(0, line.len() as int) =~= line);
    }
    "Not authenticated".to_owned()
}

/// What the login check came to.
pub open spec fn login_status(run: AuthRun) -> StatusView {
    match run {
        AuthRun::Finished { success, stderr } => if success {
            StatusView::Passed
        } else {
            StatusView::Failed(failure_reason(stderr@))
        },
        AuthRun::Broken(reason) => StatusView::Failed("Auth check failed: "@ + reason@),
        AuthRun::TimedOut => StatusView::Failed("Auth check timed out"@),
        AuthRun::NotStarted => StatusView::Failed("Could not run auth check"@),
    }
}

/// What the login check came to.
pub fn auth_status(run: AuthRun) -> (status: CheckStatus)
    ensures
        status@ == login_status(run),
{
    match run {
        AuthRun::Finished { success, stderr } => if success {
            CheckStatus::Passed
        } else {
            CheckStatus::Failed(reason_of(stderr.as_str()))
        },
        AuthRun::Broken(reason) => {
            let mut message = "Auth check failed: ".to_owned();
            message.append(reason.as_str());
            CheckStatus::Failed(message)
        },
        AuthRun::TimedOut => CheckStatus::Failed("Auth check timed out".to_owned()),
        AuthRun::NotStarted => CheckStatus::Failed("Could not run auth check".to_owned()),
    }
}

/// The command that checks the login, as a program and its arguments; none
/// where there is no command, and the check is left out.
pub fn check_auth(auth_check_command: &str) -> (words_of_command: Option<Vec<String>>)
    ensures
        match words_of_command {
            Some(list) => list@.len() > 0 && text::texts(list@) == text::words_of(
                auth_check_command@,
            ),
            None => text::words_of(auth_check_command@).len() == 0,
        },
{
    let list = words(auth_check_command);
    assert(text::texts(list@).len() == list@.len());
    if list.len() == 0 {
        None
    } else {
        Some(list)
    }
}

/// The path that programs are looked for on: that of the system before that of
/// the user, or the inherited one where neither is known.
pub open spec fn search_path(
    system: Option<Seq<char>>,
    user: Option<Seq<char>>,
    inherited: Seq<char>,
) -> Seq<char> {
    match (system, user) {
        (Some(system), Some(user)) => system + ";"@ + user,
        (Some(system), None) => system,
        (None, Some(user)) => user,
        (None, None) => inherited,
    }
}

/// The path that programs are looked for on.
pub fn fresh_path(
    system_path: Option<String>,
    user_path: Option<String>,
    inherited: String,
) -> (path: String)
    ensures
        path@ == search_path(
            coordinator::seen(system_path),
            coordinator::seen(user_path),
            inherited@,
        ),
{
    match (system_path, user_path) {
        (Some(system), Some(user)) => text::concat3(system.as_str(), ";", user.as_str()),
        (Some(system), None) => system,
        (None, Some(user)) => user,
        (None, None) => inherited,
    }
}

} // verus!
