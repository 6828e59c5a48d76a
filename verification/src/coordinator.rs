//! Recommendations: what the agent may propose, which proposals are accepted,
//! and how a chosen one is carried out.
use crate::commandline;
use crate::commandline::{
    extract_model_from_args, is_copilot_command, join_windows_commandline,
    split_windows_commandline,
};
use crate::json;
use crate::json::{compact_text, Json};
use crate::text;
use crate::text::{
    chars_of, clone_text, is_blank, last_position, number_text, position_from, same_text, shorten,
    strip_prefix, trim,
};
use vstd::prelude::*;

verus! {

/// An agent that the coordinator may delegate to.
#[derive(Debug, Clone)]
pub struct SupportedDelegateAgent {
    pub id: String,
    pub name: String,
    pub description: String,
}

/// How a delegate agent is launched.
#[derive(Debug, Clone)]
pub struct DelegateAgentRuntime {
    pub id: String,
    pub name: String,
    pub description: String,
    pub commandline: String,
    pub prompt_delivery: DelegatePromptDelivery,
}

/// How a delegate agent gets its task.
#[derive(Debug, Clone, Copy, PartialEq, Eq, Structural)]
pub enum DelegatePromptDelivery {
    LaunchThenSend,
    LaunchWithStartupPrompt,
}

/// The choices that the agent proposes.
#[derive(Debug, PartialEq)]
pub struct RecommendationSet {
    pub recommended_choice: Option<usize>,
    pub choices: Vec<RecommendationChoice>,
}

/// One choice.
#[derive(Debug, PartialEq)]
pub struct RecommendationChoice {
    pub choice: usize,
    pub title: String,
    pub rationale: String,
    pub actions: Vec<RecommendedAction>,
}

/// Where an action opens something new.
#[derive(Debug, Clone, Copy, PartialEq, Eq, Structural)]
pub enum OpenTarget {
    Tab,
    Panel,
}

/// One step of a choice.
#[allow(inconsistent_fields)]
#[derive(Debug, PartialEq)]
pub enum RecommendedAction {
    /// Type `input` and Enter into the pane `parent`.
    Send { parent: String, input: String },
    /// Open a tab or a panel, with an agent or without, for `input`.
    OpenAndSend {
        target: OpenTarget,
        parent: Option<String>,
        input: String,
        agent: Option<String>,
        cwd: Option<String>,
        title: Option<String>,
    },
}

/// What an action says.
#[allow(inconsistent_fields)]
pub ghost enum ActionView {
    Send { parent: Seq<char>, input: Seq<char> },
    OpenAndSend {
        target: OpenTarget,
        parent: Option<Seq<char>>,
        input: Seq<char>,
        agent: Option<Seq<char>>,
        cwd: Option<Seq<char>>,
        title: Option<Seq<char>>,
    },
}

/// What a choice says.
pub ghost struct ChoiceView {
    pub choice: usize,
    pub title: Seq<char>,
    pub rationale: Seq<char>,
    pub actions: Seq<ActionView>,
}

/// What a set of recommendations says.
pub ghost struct SetView {
    pub recommended_choice: Option<usize>,
    pub choices: Seq<ChoiceView>,
}

impl View for RecommendedAction {
    type V = ActionView;

    open spec fn view(&self) -> ActionView {
        match *self {
            RecommendedAction::Send { parent, input } => ActionView::Send {
                parent: parent@,
                input: input@,
            },
            RecommendedAction::OpenAndSend { target, parent, input, agent, cwd, title } => {
                ActionView::OpenAndSend {
                    target,
                    parent: seen(parent),
                    input: input@,
                    agent: seen(agent),
                    cwd: seen(cwd),
                    title: seen(title),
                }
            },
        }
    }
}

/// What a list of actions says.
pub open spec fn actions_view(actions: Seq<RecommendedAction>) -> Seq<ActionView> {
    actions.map_values(|action: RecommendedAction| action@)
}

impl View for RecommendationChoice {
    type V = ChoiceView;

    open spec fn view(&self) -> ChoiceView {
        ChoiceView {
            choice: self.choice,
            title: self.title@,
            rationale: self.rationale@,
            actions: actions_view(self.actions@),
        }
    }
}

/// What a list of choices says.
pub open spec fn choices_view(choices: Seq<RecommendationChoice>) -> Seq<ChoiceView> {
    choices.map_values(|choice: RecommendationChoice| choice@)
}

impl View for RecommendationSet {
    type V = SetView;

    open spec fn view(&self) -> SetView {
        SetView {
            recommended_choice: self.recommended_choice,
            choices: choices_view(self.choices@),
        }
    }
}

impl Clone for RecommendedAction {
    fn clone(&self) -> (copy: Self)
        ensures
            copy == *self,
    {
        match self {
            RecommendedAction::Send { parent, input } => RecommendedAction::Send {
                parent: parent.clone(),
                input: input.clone(),
            },
            RecommendedAction::OpenAndSend { target, parent, input, agent, cwd, title } => {
                RecommendedAction::OpenAndSend {
                    target: *target,
                    parent: clone_text(parent),
                    input: input.clone(),
                    agent: clone_text(agent),
                    cwd: clone_text(cwd),
                    title: clone_text(title),
                }
            },
        }
    }
}

impl Clone for RecommendationChoice {
    fn clone(&self) -> (copy: Self)
        ensures
            copy.choice == self.choice,
            copy.title == self.title,
            copy.rationale == self.rationale,
            copy.actions@ == self.actions@,
            copy@ == self@,
    {
        let mut actions: Vec<RecommendedAction> = Vec::new();
        let mut i: usize = 0;
        while i < self.actions.len()
            invariant
                i <= self.actions@.len(),
                actions@ == self.actions@.take(i as int),
            decreases self.actions@.len() - i,
        {
            actions.push(self.actions[i].clone());
            i += 1;
            assert(actions@ =~= self.actions@.take(i as int));
        }
        assert(actions@ =~= self.actions@);
        RecommendationChoice {
            choice: self.choice,
            title: self.title.clone(),
            rationale: self.rationale.clone(),
            actions,
        }
    }
}

/// The agents that the coordinator offers.
pub fn default_supported_delegate_agents() -> (agents: Vec<SupportedDelegateAgent>)
    ensures
        agents@.len() == 1,
        agents@[0].id@ == "copilot"@,
        agents@[0].name@ == "GitHub Copilot"@,
        agents@[0].description@
            == "Launches `copilot` in a new terminal target with a self-contained startup task prompt."@,
{
    let mut agents: Vec<SupportedDelegateAgent> = Vec::new();
    agents.push(
        SupportedDelegateAgent {
            id: "copilot".to_owned(),
            name: "GitHub Copilot".to_owned(),
            description:
                "Launches `copilot` in a new terminal target with a self-contained startup task prompt.".to_owned(),
        },
    );
    agents
}

/// The text without white space at its ends, where something is left.
pub open spec fn given(value: Option<Seq<char>>) -> Option<Seq<char>> {
    match value {
        Some(value) => if text::trimmed(value).len() > 0 {
            Some(text::trimmed(value))
        } else {
            None
        },
        None => None,
    }
}

/// The text without white space at its ends, where something is left.
pub fn given_text(value: Option<&str>) -> (r: Option<&str>)
    ensures
        json::opt_text(r) == given(json::opt_text(value)),
{
    match value {
        Some(value) => {
            let trimmed = trim(value);
            if trimmed.is_empty() {
                None
            } else {
                Some(trimmed)
            }
        },
        None => None,
    }
}

/// The command line of a copilot that works for the agent launched by
/// `agent_cmd`: the same program with the same model.
pub open spec fn copilot_commandline(agent_cmd: Seq<char>) -> Option<Seq<char>> {
    let tokens = commandline::split_args(agent_cmd);
    if tokens.len() == 0 || !commandline::names_copilot(tokens[0]) {
        None
    } else {
        match commandline::named_model(tokens, 1) {
            Some(model) => Some(commandline::joined(seq![tokens[0], "--model"@, model])),
            None => Some(commandline::joined(seq![tokens[0]])),
        }
    }
}

/// The command line that delegates: the configured one, or else the one that
/// follows from the agent's own.
pub open spec fn delegate_commandline(
    delegate_agent_cmd: Option<Seq<char>>,
    agent_cmd: Option<Seq<char>>,
) -> Option<Seq<char>> {
    match given(delegate_agent_cmd) {
        Some(commandline) => Some(commandline),
        None => match agent_cmd {
            Some(agent_cmd) => copilot_commandline(agent_cmd),
            None => None,
        },
    }
}

pub fn resolve_copilot_delegate_runtime(agent_cmd: Option<&str>) -> (commandline: Option<String>)
    ensures
        match (agent_cmd, commandline) {
            (Some(cmd), Some(line)) => copilot_commandline(cmd@) == Some(line@),
            (Some(cmd), None) => copilot_commandline(cmd@) is None,
            (None, line) => line is None,
        },
{
    let agent_cmd = match agent_cmd {
        Some(agent_cmd) => agent_cmd,
        None => return None,
    };
    let tokens = split_windows_commandline(agent_cmd);
    let ghost parts = text::texts(tokens@);
    if tokens.len() == 0 {
        return None;
    }
    assert(parts[0] == tokens@[0]@);
    if !is_copilot_command(tokens[0].as_str()) {
        return None;
    }
    let mut args: Vec<String> = Vec::new();
    args.push(tokens[0].clone());
    match extract_model_from_args(&tokens, 1) {
        Some(model) => {
            args.push("--model".to_owned());
            args.push(model);
            assert(text::texts(args@) =~= seq![parts[0], "--model"@, model@]);
        },
        None => {
            assert(text::texts(args@) =~= seq![parts[0]]);
        },
    }
    Some(join_windows_commandline(&args))
}

pub fn resolve_delegate_runtime_commandline(
    delegate_agent_cmd: Option<&str>,
    agent_cmd: Option<&str>,
) -> (commandline: Option<String>)
    ensures
        match commandline {
            Some(line) => delegate_commandline(
                json::opt_text(delegate_agent_cmd),
                json::opt_text(agent_cmd),
            ) == Some(line@),
            None => delegate_commandline(
                json::opt_text(delegate_agent_cmd),
                json::opt_text(agent_cmd),
            ) is None,
        },
{
    match given_text(delegate_agent_cmd) {
        Some(commandline) => Some(commandline.to_owned()),
        None => resolve_copilot_delegate_runtime(agent_cmd),
    }
}

/// How each delegate agent is launched, given the command lines that the user
/// configured.
pub fn default_delegate_agent_runtimes(
    delegate_agent_cmd: Option<&str>,
    agent_cmd: Option<&str>,
) -> (runtimes: Vec<DelegateAgentRuntime>)
    ensures
        runtimes@.len() == 1,
        runtimes@[0].id@ == "copilot"@,
        runtimes@[0].name@ == "GitHub Copilot"@,
        runtimes@[0].description@
            == "Launches `copilot` directly in a new terminal target with an interactive startup task prompt."@,
        runtimes@[0].commandline@ == match delegate_commandline(
            json::opt_text(delegate_agent_cmd),
            json::opt_text(agent_cmd),
        ) {
            Some(line) => line,
            None => "copilot"@,
        },
        runtimes@[0].prompt_delivery == DelegatePromptDelivery::LaunchWithStartupPrompt,
{
    let commandline = match resolve_delegate_runtime_commandline(delegate_agent_cmd, agent_cmd) {
        Some(line) => line,
        None => "copilot".to_owned(),
    };
    let mut runtimes: Vec<DelegateAgentRuntime> = Vec::new();
    runtimes.push(
        DelegateAgentRuntime {
            id: "copilot".to_owned(),
            name: "GitHub Copilot".to_owned(),
            description:
                "Launches `copilot` directly in a new terminal target with an interactive startup task prompt.".to_owned(),
            commandline,
            prompt_delivery: DelegatePromptDelivery::LaunchWithStartupPrompt,
        },
    );
    runtimes
}

/// What is said of a field that holds nothing.
pub open spec fn empty_field(field: Seq<char>) -> Seq<char> {
    "field '"@ + field + "' must not be empty"@
}

/// Refuses a value that holds nothing but white space.
pub fn ensure_non_empty(field: &str, value: &str) -> (r: Result<(), String>)
    ensures
        r is Err == text::blank(value@),
        r matches Err(message) ==> message@ == empty_field(field@),
{
    if is_blank(value) {
        Err(text::concat3("field '", field, "' must not be empty"))
    } else {
        Ok(())
    }
}

/// What is said of a panel without a pane to split.
pub open spec fn parent_required(action: Seq<char>) -> Seq<char> {
    "field 'parent' is required for "@ + action + " target panel"@
}

/// The fault of the parent of a panel.
pub open spec fn parent_fault(parent: Option<Seq<char>>, action: Seq<char>) -> Option<Seq<char>> {
    match parent {
        None => Some(parent_required(action)),
        Some(parent) => if text::blank(parent) {
            Some(empty_field("parent"@))
        } else {
            None
        },
    }
}

/// The pane to split for a panel.
pub fn required_parent<'a>(parent: Option<&'a str>, action_type: &str) -> (r: Result<
    &'a str,
    String,
>)
    ensures
        match r {
            Ok(pane) => parent_fault(json::opt_text(parent), action_type@) is None
                && json::opt_text(parent) == Some(pane@),
            Err(message) => parent_fault(json::opt_text(parent), action_type@) == Some(message@),
        },
{
    match parent {
        None => Err(
            text::concat3("field 'parent' is required for ", action_type, " target panel"),
        ),
        Some(parent) => match ensure_non_empty("parent", parent) {
            Ok(()) => Ok(parent),
            Err(message) => Err(message),
        },
    }
}

/// The text that may be there.
pub open spec fn seen(value: Option<String>) -> Option<Seq<char>> {
    match value {
        Some(text) => Some(text@),
        None => None,
    }
}

/// A reference to a text that may be there.
pub fn text_ref(value: &Option<String>) -> (r: Option<&str>)
    ensures
        json::opt_text(r) == seen(*value),
{
    match value {
        Some(text) => Some(text.as_str()),
        None => None,
    }
}

/// What is wrong with an action, if anything is.
pub open spec fn action_fault(action: RecommendedAction) -> Option<Seq<char>> {
    match action {
        RecommendedAction::Send { parent, input } => if text::blank(parent@) {
            Some(empty_field("parent"@))
        } else if text::blank(input@) {
            Some(empty_field("input"@))
        } else {
            None
        },
        RecommendedAction::OpenAndSend { target, parent, input, agent, cwd, title } => {
            if text::blank(input@) {
                Some(empty_field("input"@))
            } else if parent is Some && text::blank(parent->0@) {
                Some(empty_field("parent"@))
            } else if agent is Some && text::blank(agent->0@) {
                Some(empty_field("agent"@))
            } else if target == OpenTarget::Panel {
                parent_fault(seen(parent), "open_and_send"@)
            } else {
                None
            }
        },
    }
}

/// Refuses an action that cannot be carried out.
pub fn validate_action(action: &RecommendedAction) -> (r: Result<(), String>)
    ensures
        match r {
            Ok(()) => action_fault(*action) is None,
            Err(message) => action_fault(*action) == Some(message@),
        },
{
    match action {
        RecommendedAction::Send { parent, input } => {
            ensure_non_empty("parent", parent.as_str())?;
            ensure_non_empty("input", input.as_str())?;
            Ok(())
        },
        RecommendedAction::OpenAndSend { target, parent, input, agent, cwd: _, title: _ } => {
            ensure_non_empty("input", input.as_str())?;
            if let Some(parent) = parent {
                ensure_non_empty("parent", parent.as_str())?;
            }
            if let Some(agent) = agent {
                ensure_non_empty("agent", agent.as_str())?;
            }
            if *target == OpenTarget::Panel {
                match required_parent(text_ref(parent), "open_and_send") {
                    Ok(_) => {},
                    Err(message) => return Err(message),
                }
            }
            Ok(())
        },
    }
}

/// What is wrong with the first faulty action among `actions[from..]`.
pub open spec fn actions_fault(actions: Seq<RecommendedAction>, from: int) -> Option<Seq<char>>
    decreases actions.len() - from,
{
    if from < 0 || from >= actions.len() {
        None
    } else if action_fault(actions[from]) is Some {
        action_fault(actions[from])
    } else {
        actions_fault(actions, from + 1)
    }
}

/// What is wrong with the choice at `i`, if anything is.
pub open spec fn choice_fault(choices: Seq<RecommendationChoice>, i: int) -> Option<Seq<char>> {
    let choice = choices[i];
    if !(1 <= choice.choice <= 3) {
        Some("choice numbers must be 1..=3"@)
    } else if exists|j: int| 0 <= j < i && (#[trigger] choices[j]).choice == choice.choice {
        Some("duplicate choice number "@ + text::decimal(choice.choice as nat))
    } else if text::blank(choice.title@) {
        Some(empty_field("title"@))
    } else if choice.actions@.len() == 0 {
        Some("choice "@ + text::decimal(choice.choice as nat) + " has no actions"@)
    } else {
        actions_fault(choice.actions@, 0)
    }
}

/// What is wrong with the first faulty choice among `choices[from..]`.
pub open spec fn choices_fault(choices: Seq<RecommendationChoice>, from: int) -> Option<Seq<char>>
    decreases choices.len() - from,
{
    if from < 0 || from >= choices.len() {
        None
    } else if choice_fault(choices, from) is Some {
        choice_fault(choices, from)
    } else {
        choices_fault(choices, from + 1)
    }
}

/// What is wrong with a set of recommendations, if anything is.
pub open spec fn set_fault(set: RecommendationSet) -> Option<Seq<char>> {
    if !(1 <= set.choices@.len() <= 3) {
        Some("expected 1 to 3 choices, got "@ + text::decimal(set.choices@.len()))
    } else {
        choices_fault(set.choices@, 0)
    }
}

#[verifier::loop_isolation(false)]
fn validate_choice(choices: &Vec<RecommendationChoice>, i: usize) -> (r: Result<(), String>)
    requires
        i < choices@.len(),
    ensures
        match r {
            Ok(()) => choice_fault(choices@, i as int) is None,
            Err(message) => choice_fault(choices@, i as int) == Some(message@),
        },
{
    let choice = &choices[i];
    if !(1 <= choice.choice && choice.choice <= 3) {
        return Err("choice numbers must be 1..=3".to_owned());
    }
    let mut j: usize = 0;
    while j < i
        invariant
            j <= i < choices@.len(),
            *choice == choices@[i as int],
            forall|k: int| 0 <= k < j ==> (#[trigger] choices@[k]).choice != choice.choice,
        decreases i - j,
    {
        if choices[j].choice == choice.choice {
            let mut message = "duplicate choice number ".to_owned();
            message.append(number_text(choice.choice as u64).as_str());
            assert(choices@[j as int].choice == choice.choice);
            return Err(message);
        }
        j += 1;
    }
    ensure_non_empty("title", choice.title.as_str())?;
    if choice.actions.len() == 0 {
        return Err(
            text::concat3(
                "choice ",
                number_text(choice.choice as u64).as_str(),
                " has no actions",
            ),
        );
    }
    let mut k: usize = 0;
    while k < choice.actions.len()
        invariant
            k <= choice.actions@.len(),
            actions_fault(choice.actions@, 0) == actions_fault(choice.actions@, k as int),
        decreases choice.actions@.len() - k,
    {
        match validate_action(&choice.actions[k]) {
            Ok(()) => {},
            Err(message) => return Err(message),
        }
        k += 1;
    }
    Ok(())
}

/// Refuses a set of recommendations that breaks a rule: one to three choices,
/// numbered from one to three, each number once, each with a title and actions
/// that can be carried out.
#[verifier::loop_isolation(false)]
pub fn validate_recommendation_set(set: &RecommendationSet) -> (r: Result<(), String>)
    ensures
        match r {
            Ok(()) => set_fault(*set) is None,
            Err(message) => set_fault(*set) == Some(message@),
        },
{
    let n: usize = set.choices.len();
    if !(1 <= n && n <= 3) {
        let mut message = "expected 1 to 3 choices, got ".to_owned();
        message.append(number_text(n as u64).as_str());
        return Err(message);
    }
    let mut i: usize = 0;
    while i < n
        invariant
            i <= n == set.choices@.len(),
            choices_fault(set.choices@, 0) == choices_fault(set.choices@, i as int),
        decreases n - i,
    {
        match validate_choice(&set.choices, i) {
            Ok(()) => {},
            Err(message) => return Err(message),
        }
        i += 1;
    }
    Ok(())
}

/// The choice at `i` sends input to the pane `target`.
pub open spec fn sends_to(choice: RecommendationChoice, target: Seq<char>) -> bool {
    exists|j: int| 0 <= j < choice.actions@.len() && sends(#[trigger] choice.actions@[j], target)
}

/// The action sends input to the pane `target`.
pub open spec fn sends(action: RecommendedAction, target: Seq<char>) -> bool {
    action matches RecommendedAction::Send { parent, input: _ } && parent@ == target
}

/// What is said of a choice that sends input to the coordinator's own pane.
pub open spec fn self_send(choice: nat, target: Seq<char>) -> Seq<char> {
    "choice "@ + text::decimal(choice) + " send targets the current coordinator pane "@ + target
        + "; use another existing pane or open_and_send instead"@
}

/// The fault of the first choice among `choices[from..]` that sends input to
/// `target`.
pub open spec fn self_send_fault(
    choices: Seq<RecommendationChoice>,
    target: Seq<char>,
    from: int,
) -> Option<Seq<char>>
    decreases choices.len() - from,
{
    if from < 0 || from >= choices.len() {
        None
    } else if sends_to(choices[from], target) {
        Some(self_send(choices[from].choice as nat, target))
    } else {
        self_send_fault(choices, target, from + 1)
    }
}

/// The fault of a set for the coordinator in the pane `coordinator_target`.
pub open spec fn coordinator_fault(
    set: RecommendationSet,
    coordinator_target: Option<Seq<char>>,
) -> Option<Seq<char>> {
    match given(coordinator_target) {
        Some(target) => self_send_fault(set.choices@, target, 0),
        None => None,
    }
}

/// Refuses recommendations that would type into the coordinator's own pane.
#[verifier::loop_isolation(false)]
pub fn validate_recommendation_set_for_coordinator_target(
    set: &RecommendationSet,
    coordinator_target: Option<&str>,
) -> (r: Result<(), String>)
    ensures
        match r {
            Ok(()) => coordinator_fault(*set, json::opt_text(coordinator_target)) is None,
            Err(message) => coordinator_fault(*set, json::opt_text(coordinator_target)) == Some(
                message@,
            ),
        },
{
    let target = match given_text(coordinator_target) {
        Some(target) => target,
        None => return Ok(()),
    };
    let mut i: usize = 0;
    while i < set.choices.len()
        invariant
            i <= set.choices@.len(),
            self_send_fault(set.choices@, target@, 0) == self_send_fault(
                set.choices@,
                target@,
                i as int,
            ),
        decreases set.choices@.len() - i,
    {
        let choice = &set.choices[i];
        let mut j: usize = 0;
        while j < choice.actions.len()
            invariant
                j <= choice.actions@.len(),
                forall|k: int| 0 <= k < j ==> !sends(#[trigger] choice.actions@[k], target@),
            decreases choice.actions@.len() - j,
        {
            if let RecommendedAction::Send { parent, input: _ } = &choice.actions[j] {
                if same_text(parent.as_str(), target) {
                    assert(sends(choice.actions@[j as int], target@));
                    let mut message = text::concat3(
                        "choice ",
                        number_text(choice.choice as u64).as_str(),
                        " send targets the current coordinator pane ",
                    );
                    message.append(target);
                    message.append("; use another existing pane or open_and_send instead");
                    return Err(message);
                }
            }
            j += 1;
        }
        i += 1;
    }
    Ok(())
}

/// An accepted set types into no pane that the coordinator runs in.
pub proof fn law_accepted_set_never_sends_to_coordinator(
    set: RecommendationSet,
    target: Seq<char>,
    i: int,
    j: int,
)
    requires
        coordinator_fault(set, Some(target)) is None,
        0 <= i < set.choices@.len(),
        0 <= j < set.choices@[i].actions@.len(),
        text::trimmed(target).len() > 0,
    ensures
        !sends(set.choices@[i].actions@[j], text::trimmed(target)),
{
    lemma_no_self_send(set.choices@, text::trimmed(target), 0, i);
}

proof fn lemma_no_self_send(
    choices: Seq<RecommendationChoice>,
    target: Seq<char>,
    from: int,
    i: int,
)
    requires
        self_send_fault(choices, target, from) is None,
        0 <= from <= i < choices.len(),
    ensures
        !sends_to(choices[i], target),
    decreases i - from,
{
    if from < i {
        lemma_no_self_send(choices, target, from + 1, i);
    }
}

/// The first position from `from` on of the choice numbered `number`.
pub open spec fn choice_at(
    choices: Seq<ChoiceView>,
    number: usize,
    from: int,
) -> Option<int>
    decreases choices.len() - from,
{
    if from < 0 || from >= choices.len() {
        None
    } else if choices[from].choice == number {
        Some(from)
    } else {
        choice_at(choices, number, from + 1)
    }
}

/// What `choice_at` finds has the number.
pub proof fn lemma_choice_at(choices: Seq<ChoiceView>, number: usize, from: int)
    requires
        0 <= from,
    ensures
        choice_at(choices, number, from) matches Some(i) ==> from <= i < choices.len()
            && choices[i].choice == number,
    decreases choices.len() - from,
{
    if from < choices.len() && choices[from].choice != number {
        lemma_choice_at(choices, number, from + 1);
    }
}

/// The position of the recommended choice, or the first one.
pub open spec fn recommended_index(set: SetView) -> int {
    match set.recommended_choice {
        Some(number) => match choice_at(set.choices, number, 0) {
            Some(i) => i,
            None => 0,
        },
        None => 0,
    }
}

/// The position of the first choice with the number `number`.
fn position_of_choice(set: &RecommendationSet, number: usize) -> (position: Option<usize>)
    ensures
        match position {
            Some(i) => choice_at(set@.choices, number, 0) == Some(i as int) && i
                < set.choices@.len(),
            None => choice_at(set@.choices, number, 0) is None,
        },
{
    let mut i: usize = 0;
    while i < set.choices.len()
        invariant
            i <= set.choices@.len(),
            choice_at(set@.choices, number, 0) == choice_at(set@.choices, number, i as int),
        decreases set.choices@.len() - i,
    {
        assert(set@.choices[i as int] == set.choices@[i as int]@);
        if set.choices[i].choice == number {
            return Some(i);
        }
        i += 1;
    }
    None
}

/// The position of the recommended choice, or the first one where none is
/// recommended or the recommended one is missing.
pub fn recommended_choice_index(set: &RecommendationSet) -> (index: usize)
    ensures
        index == recommended_index(set@),
        set.choices@.len() > 0 ==> index < set.choices@.len(),
{
    match set.recommended_choice {
        Some(number) => match position_of_choice(set, number) {
            Some(i) => i,
            None => 0,
        },
        None => 0,
    }
}

/// What stands in the first fenced JSON block of `text`, without white space
/// at its ends.
pub open spec fn json_code_block(text: Seq<char>) -> Option<Seq<char>> {
    let start = match text::find(text, "```json"@) {
        Some(start) => Some(start),
        None => text::find(text, "```JSON"@),
    };
    match start {
        Some(start) => {
            let body = block_body(text.skip(start + 7));
            match text::find(body, "```"@) {
                Some(end) => Some(text::trimmed(body.take(end))),
                None => None,
            }
        },
        None => None,
    }
}

/// `after` without the line break at its start.
pub open spec fn block_body(after: Seq<char>) -> Seq<char> {
    let line = if text::has_prefix(after, "\r"@) {
        after.skip(1)
    } else {
        after
    };
    if text::has_prefix(line, "\n"@) {
        line.skip(1)
    } else {
        line
    }
}

/// What stands from the first `{` of `text` to its last `}`, where the one
/// stands before the other.
pub open spec fn json_object(text: Seq<char>) -> Option<Seq<char>> {
    match (text::find(text, "{"@), text::find_last(text, '}')) {
        (Some(start), Some(end)) => if end <= start {
            None
        } else {
            Some(text::trimmed(text.subrange(start, end + 1)))
        },
        _ => None,
    }
}

/// The part of an answer that holds the recommendations.
pub open spec fn recommendation_block(text: Seq<char>) -> Option<Seq<char>> {
    match json_code_block(text) {
        Some(block) => Some(block),
        None => json_object(text),
    }
}

/// The first fenced JSON block of `text`.
pub fn extract_json_code_block(text: &str) -> (block: Option<&str>)
    ensures
        json::opt_text(block) == json_code_block(text@),
{
    let chars = chars_of(text);
    let start: usize = match position_from(&chars, "```json", 0) {
        Some(start) => start,
        None => match position_from(&chars, "```JSON", 0) {
            Some(start) => start,
            None => return None,
        },
    };
    proof {
        reveal_strlit("```json");
        reveal_strlit("```JSON");
        reveal_strlit("\r");
        reveal_strlit("\n");
    }
    let n: usize = chars.len();
    let after = text.substring_char(start + 7, n);
    assert(after@ =~= text@.skip(start + 7));
    let line = match strip_prefix(after, "\r") {
        Some(line) => line,
        None => after,
    };
    let body = match strip_prefix(line, "\n") {
        Some(body) => body,
        None => line,
    };
    match position_from(&chars_of(body), "```", 0) {
        Some(end) => {
            let inner = body.substring_char(0, end);
            assert(inner@ =~= body@.take(end as int));
            Some(trim(inner))
        },
        None => None,
    }
}

/// What stands from the first `{` of `text` to its last `}`.
pub fn extract_first_json_object(text: &str) -> (block: Option<&str>)
    ensures
        json::opt_text(block) == json_object(text@),
{
    let chars = chars_of(text);
    match (position_from(&chars, "{", 0), last_position(&chars, '}')) {
        (Some(start), Some(end)) => if end <= start {
            None
        } else {
            assert(end < chars.len());
            Some(trim(text.substring_char(start, end + 1)))
        },
        _ => None,
    }
}

/// The part of an answer that holds the recommendations: a fenced block, or
/// else what stands between the outermost braces.
pub fn recommendation_json(text: &str) -> (block: Option<&str>)
    ensures
        json::opt_text(block) == recommendation_block(text@),
{
    match extract_json_code_block(text) {
        Some(block) => Some(block),
        None => extract_first_json_object(text),
    }
}

/// `after` lists the choices of `before` by their numbers.
pub open spec fn ordered_choices(
    before: Seq<RecommendationChoice>,
    after: Seq<RecommendationChoice>,
) -> bool {
    &&& after.to_multiset() == before.to_multiset()
    &&& forall|i: int, j: int|
        0 <= i < j < after.len() ==> (#[trigger] after[i]).choice <= (#[trigger] after[j]).choice
}

/// Orders the choices by their numbers.
#[verifier::loop_isolation(false)]
fn sort_choices(choices: Vec<RecommendationChoice>) -> (sorted: Vec<RecommendationChoice>)
    ensures
        ordered_choices(choices@, sorted@),
{
    broadcast use vstd::seq_lib::group_to_multiset_ensures;
    broadcast use vstd::multiset::group_multiset_axioms;

    let mut rest = choices;
    let mut sorted: Vec<RecommendationChoice> = Vec::new();
    while rest.len() > 0
        invariant
            rest@.to_multiset().add(sorted@.to_multiset()) =~= choices@.to_multiset(),
            forall|i: int, j: int|
                0 <= i < j < sorted@.len() ==> (#[trigger] sorted@[i]).choice <= (
                #[trigger] sorted@[j]).choice,
            forall|i: int, j: int|
                0 <= i < sorted@.len() && 0 <= j < rest@.len() ==> (#[trigger] sorted@[i]).choice
                    <= (#[trigger] rest@[j]).choice,
        decreases rest@.len(),
    {
        let mut least: usize = 0;
        let mut i: usize = 1;
        while i < rest.len()
            invariant
                least < rest@.len(),
                1 <= i <= rest@.len(),
                forall|j: int| 0 <= j < i ==> rest@[least as int].choice <= (#[trigger] rest@[j]).choice,
            decreases rest@.len() - i,
        {
            if rest[i].choice < rest[least].choice {
                least = i;
            }
            i += 1;
        }
        let ghost earlier = rest@;
        let ghost done = sorted@;
        let choice = rest.remove(least);
        sorted.push(choice);
        proof {
            assert(rest@ =~= earlier.remove(least as int));
            assert(earlier.contains(earlier[least as int]));
            assert(earlier.to_multiset().count(choice) > 0);
            assert(rest@.to_multiset().add(sorted@.to_multiset()) =~= earlier.to_multiset().add(
                done.to_multiset(),
            ));
            assert forall|i: int, j: int|
                0 <= i < sorted@.len() && 0 <= j < rest@.len() implies (#[trigger] sorted@[i]).choice
                <= (#[trigger] rest@[j]).choice by {
                let k = if j < least {
                    j
                } else {
                    j + 1
                };
                assert(rest@[j] == earlier[k]);
                if i < done.len() {
                    assert(done[i].choice <= earlier[k].choice);
                }
            }
        }
    }
    proof {
        assert(rest@.len() == rest@.to_multiset().len());
        assert(rest@.to_multiset() =~= vstd::multiset::Multiset::empty());
        assert(sorted@.to_multiset() =~= choices@.to_multiset());
    }
    sorted
}

/// `r` is what becomes of the decoded set: its fault, or the set with its
/// choices in the order of their numbers.
pub open spec fn accepts(
    set: RecommendationSet,
    r: Result<RecommendationSet, String>,
) -> bool {
    match r {
        Ok(accepted) => {
            &&& set_fault(set) is None
            &&& accepted.recommended_choice == set.recommended_choice
            &&& ordered_choices(set.choices@, accepted.choices@)
        },
        Err(message) => set_fault(set) == Some(message@),
    }
}

/// Refuses a faulty set, and orders the choices of a good one.
pub fn accept_recommendation_set(set: RecommendationSet) -> (r: Result<RecommendationSet, String>)
    ensures
        accepts(set, r),
{
    match validate_recommendation_set(&set) {
        Ok(()) => {},
        Err(message) => return Err(message),
    }
    Ok(
        RecommendationSet {
            recommended_choice: set.recommended_choice,
            choices: sort_choices(set.choices),
        },
    )
}

/// The recommendations in an answer. `decode` reads the JSON text of a set.
pub fn parse_recommendation_set<F: Fn(&str) -> Result<RecommendationSet, String>>(
    text: &str,
    decode: F,
) -> (r: Result<RecommendationSet, String>)
    requires
        forall|block: &str| call_requires(decode, (block,)),
    ensures
        match recommendation_block(text@) {
            None => r matches Err(message) && message@ == "no recommendation JSON block found"@,
            Some(json) => exists|block: &str, decoded: Result<RecommendationSet, String>|
                {
                    &&& block@ == json
                    &&& call_ensures(decode, (block,), decoded)
                    &&& match decoded {
                        Ok(set) => accepts(set, r),
                        Err(reason) => r matches Err(message) && message@
                            == "failed to parse recommendation JSON: "@ + reason@,
                    }
                },
        },
{
    let block = match recommendation_json(text) {
        Some(block) => block,
        None => return Err("no recommendation JSON block found".to_owned()),
    };
    match decode(block) {
        Ok(set) => accept_recommendation_set(set),
        Err(reason) => {
            let mut message = "failed to parse recommendation JSON: ".to_owned();
            message.append(reason.as_str());
            Err(message)
        },
    }
}

proof fn lemma_no_fault(choices: Seq<RecommendationChoice>, from: int, i: int)
    requires
        choices_fault(choices, from) is None,
        0 <= from <= i < choices.len(),
    ensures
        choice_fault(choices, i) is None,
    decreases i - from,
{
    if from < i {
        lemma_no_fault(choices, from + 1, i);
    }
}

proof fn lemma_no_action_fault(actions: Seq<RecommendedAction>, from: int, i: int)
    requires
        actions_fault(actions, from) is None,
        0 <= from <= i < actions.len(),
    ensures
        action_fault(actions[i]) is None,
    decreases i - from,
{
    if from < i {
        lemma_no_action_fault(actions, from + 1, i);
    }
}

/// Accepted recommendations are one to three choices with rising numbers from
/// one to three, each with a title and with actions that can all be carried
/// out, and they are the choices that were decoded.
pub proof fn law_accepted_set_is_sound(set: RecommendationSet, accepted: RecommendationSet)
    requires
        accepts(set, Ok(accepted)),
    ensures
        1 <= accepted.choices@.len() <= 3,
        accepted.choices@.len() == set.choices@.len(),
        forall|i: int|
            0 <= i < accepted.choices@.len() ==> {
                let choice = #[trigger] accepted.choices@[i];
                &&& 1 <= choice.choice <= 3
                &&& !text::blank(choice.title@)
                &&& choice.actions@.len() > 0
                &&& set.choices@.contains(choice)
                &&& forall|j: int|
                    0 <= j < choice.actions@.len() ==> action_fault(
                        #[trigger] choice.actions@[j],
                    ) is None
            },
        forall|i: int, j: int|
            0 <= i < j < accepted.choices@.len() ==> (#[trigger] accepted.choices@[i]).choice < (
            #[trigger] accepted.choices@[j]).choice,
        0 <= recommended_index(accepted@) < accepted.choices@.len(),
{
    broadcast use vstd::seq_lib::group_to_multiset_ensures;

    let before = set.choices@;
    let after = accepted.choices@;
    assert forall|i: int, j: int| 0 <= i < before.len() && 0 <= j < before.len() && i != j implies
        (#[trigger] before[i]).choice != (#[trigger] before[j]).choice by {
        lemma_no_fault(before, 0, i);
        lemma_no_fault(before, 0, j);
        if i < j {
            assert(before[i].choice != before[j].choice);
        } else {
            assert(before[j].choice != before[i].choice);
        }
    }
    assert(before.no_duplicates());
    before.lemma_multiset_has_no_duplicates();
    after.lemma_multiset_has_no_duplicates_conv();
    assert(after.len() == after.to_multiset().len());
    assert(before.len() == before.to_multiset().len());
    assert forall|i: int| 0 <= i < after.len() implies before.contains(#[trigger] after[i]) by {
        assert(after.contains(after[i]));
        assert(after.to_multiset().count(after[i]) > 0);
    }
    assert forall|i: int| 0 <= i < after.len() implies {
        let choice = #[trigger] after[i];
        &&& 1 <= choice.choice <= 3
        &&& !text::blank(choice.title@)
        &&& choice.actions@.len() > 0
        &&& before.contains(choice)
        &&& forall|j: int|
            0 <= j < choice.actions@.len() ==> action_fault(#[trigger] choice.actions@[j]) is None
    } by {
        assert(before.contains(after[i]));
        let k = choose|k: int| 0 <= k < before.len() && before[k] == after[i];
        lemma_no_fault(before, 0, k);
        assert forall|j: int| 0 <= j < after[i].actions@.len() implies action_fault(
            #[trigger] after[i].actions@[j],
        ) is None by {
            lemma_no_action_fault(after[i].actions@, 0, j);
        }
    }
    assert forall|i: int, j: int| 0 <= i < j < after.len() implies (#[trigger] after[i]).choice < (
    #[trigger] after[j]).choice by {
        assert(before.contains(after[i]) && before.contains(after[j]));
        let k = choose|k: int| 0 <= k < before.len() && before[k] == after[i];
        let l = choose|l: int| 0 <= l < before.len() && before[l] == after[j];
        assert(after[i] != after[j]);
        assert(k != l);
        assert(before[k].choice != before[l].choice);
    }
    if let Some(number) = accepted.recommended_choice {
        lemma_choice_at(accepted@.choices, number, 0);
    }
}

/// The agent called `id`, first come first served, among `agents[from..]`.
pub open spec fn agent_at(agents: Seq<DelegateAgentRuntime>, id: Seq<char>, from: int) -> Option<
    DelegateAgentRuntime,
>
    decreases agents.len() - from,
{
    if from < 0 || from >= agents.len() {
        None
    } else if agents[from].id@ == id {
        Some(agents[from])
    } else {
        agent_at(agents, id, from + 1)
    }
}

/// What is said of an agent that is not on offer.
pub open spec fn unsupported_agent(id: Seq<char>) -> Seq<char> {
    "unsupported delegate agent '"@ + id + "'"@
}

/// The agent called `id`.
#[verifier::loop_isolation(false)]
pub fn lookup_delegate_agent<'a>(delegate_agents: &'a Vec<DelegateAgentRuntime>, id: &str) -> (r:
    Result<&'a DelegateAgentRuntime, String>)
    ensures
        match r {
            Ok(agent) => agent_at(delegate_agents@, id@, 0) == Some(*agent),
            Err(message) => agent_at(delegate_agents@, id@, 0) is None && message@
                == unsupported_agent(id@),
        },
{
    let mut i: usize = 0;
    while i < delegate_agents.len()
        invariant
            i <= delegate_agents@.len(),
            agent_at(delegate_agents@, id@, 0) == agent_at(delegate_agents@, id@, i as int),
        decreases delegate_agents@.len() - i,
    {
        if same_text(delegate_agents[i].id.as_str(), id) {
            return Ok(&delegate_agents[i]);
        }
        i += 1;
    }
    Err(text::concat3("unsupported delegate agent '", id, "'"))
}

/// The arguments of `commandline`, then `-i` and the prompt.
pub open spec fn prompt_args(commandline: Seq<char>, input: Seq<char>) -> Seq<Seq<char>> {
    commandline::split_args(commandline).push("-i"@).push(input)
}

/// What is said of a runtime that has no command line.
pub open spec fn empty_commandline() -> Seq<char> {
    "delegate agent runtime commandline is empty"@
}

/// `commandline` with `input` as its startup prompt.
pub fn build_delegate_startup_prompt_commandline(commandline: &str, input: &str) -> (r: Result<
    String,
    String,
>)
    ensures
        match r {
            Ok(line) => commandline::split_args(commandline@).len() > 0 && line@
                == commandline::joined(prompt_args(commandline@, input@)),
            Err(message) => commandline::split_args(commandline@).len() == 0 && message@
                == empty_commandline(),
        },
{
    let mut args = split_windows_commandline(commandline);
    let ghost tokens = args@;
    assert(text::texts(tokens).len() == tokens.len());
    if args.len() == 0 {
        return Err("delegate agent runtime commandline is empty".to_owned());
    }
    args.push("-i".to_owned());
    args.push(input.to_owned());
    assert(text::texts(args@) =~= text::texts(tokens).push("-i"@).push(input@));
    Ok(join_windows_commandline(&args))
}

/// What `build_delegate_launch_commandline` gives.
pub open spec fn launch_commandline(runtime: DelegateAgentRuntime, input: Seq<char>) -> Result<
    Seq<char>,
    Seq<char>,
> {
    let commandline = text::trimmed(runtime.commandline@);
    if commandline.len() == 0 {
        Err(empty_commandline())
    } else {
        match runtime.prompt_delivery {
            DelegatePromptDelivery::LaunchThenSend => Ok(commandline),
            DelegatePromptDelivery::LaunchWithStartupPrompt => if text::blank(input) {
                Err(empty_field("input"@))
            } else if commandline::split_args(commandline).len() == 0 {
                Err(empty_commandline())
            } else {
                Ok(commandline::joined(prompt_args(commandline, input)))
            },
        }
    }
}

/// A result whose texts are seen as sequences.
pub open spec fn seen_result(r: Result<String, String>) -> Result<Seq<char>, Seq<char>> {
    match r {
        Ok(text) => Ok(text@),
        Err(text) => Err(text@),
    }
}

/// The command line that launches an agent for `input`.
pub fn build_delegate_launch_commandline(runtime: &DelegateAgentRuntime, input: &str) -> (r: Result<
    String,
    String,
>)
    ensures
        seen_result(r) == launch_commandline(*runtime, input@),
{
    let commandline = trim(runtime.commandline.as_str());
    if commandline.is_empty() {
        return Err("delegate agent runtime commandline is empty".to_owned());
    }
    match runtime.prompt_delivery {
        DelegatePromptDelivery::LaunchThenSend => Ok(commandline.to_owned()),
        DelegatePromptDelivery::LaunchWithStartupPrompt => {
            match ensure_non_empty("input", input) {
                Ok(()) => {},
                Err(message) => return Err(message),
            }
            build_delegate_startup_prompt_commandline(commandline, input)
        },
    }
}

/// A launched agent that takes a startup prompt gets its own arguments and then
/// the prompt, as they are, whatever the prompt holds. The program's name must
/// not be one that is quoted for its blanks and ends in a backslash.
pub proof fn law_startup_prompt_arrives(runtime: DelegateAgentRuntime, input: Seq<char>)
    requires
        runtime.prompt_delivery == DelegatePromptDelivery::LaunchWithStartupPrompt,
        launch_commandline(runtime, input) is Ok,
        ({
            let name = commandline::split_args(text::trimmed(runtime.commandline@))[0];
            commandline::needs_quotes(name) ==> name.last() != '\\'
        }),
    ensures
        ({
            let line = launch_commandline(runtime, input)->Ok_0;
            let own = commandline::split_args(text::trimmed(runtime.commandline@));
            commandline::argv(line) == own.push("-i"@).push(input)
        }),
{
    let line = text::trimmed(runtime.commandline@);
    commandline::law_split_arguments_are_unquoted(line, 0);
    assert(prompt_args(line, input)[0] == commandline::split_args(line)[0]);
    commandline::law_join_is_read_back(prompt_args(line, input));
}

/// A launched agent that takes a startup prompt gets its arguments after the
/// program's name and then the prompt, as they are, whatever the name and the
/// prompt hold.
pub proof fn law_startup_arguments_arrive(runtime: DelegateAgentRuntime, input: Seq<char>)
    requires
        runtime.prompt_delivery == DelegatePromptDelivery::LaunchWithStartupPrompt,
        launch_commandline(runtime, input) is Ok,
    ensures
        ({
            let line = launch_commandline(runtime, input)->Ok_0;
            let own = commandline::split_args(text::trimmed(runtime.commandline@));
            commandline::argv(line).skip(1) == own.skip(1).push("-i"@).push(input)
        }),
{
    let line = text::trimmed(runtime.commandline@);
    let own = commandline::split_args(line);
    commandline::law_split_arguments_are_unquoted(line, 0);
    assert(prompt_args(line, input)[0] == own[0]);
    commandline::law_arguments_are_read_back(prompt_args(line, input));
    assert(prompt_args(line, input).skip(1) =~= own.skip(1).push("-i"@).push(input));
}

pub open spec fn target_label(target: OpenTarget) -> Seq<char> {
    match target {
        OpenTarget::Tab => "tab"@,
        OpenTarget::Panel => "panel"@,
    }
}

pub fn open_target_label(target: &OpenTarget) -> (label: &'static str)
    ensures
        label@ == target_label(*target),
{
    match target {
        OpenTarget::Tab => "tab",
        OpenTarget::Panel => "panel",
    }
}

pub fn delegate_prompt_delivery_label(delivery: DelegatePromptDelivery) -> (label: &'static str)
    ensures
        label@ == match delivery {
            DelegatePromptDelivery::LaunchThenSend => "launch_then_send"@,
            DelegatePromptDelivery::LaunchWithStartupPrompt => "launch_with_startup_prompt"@,
        },
{
    match delivery {
        DelegatePromptDelivery::LaunchThenSend => "launch_then_send",
        DelegatePromptDelivery::LaunchWithStartupPrompt => "launch_with_startup_prompt",
    }
}

/// A text or a number as a text.
pub open spec fn scalar_text(value: Option<json::JsonView>) -> Option<Seq<char>> {
    match value {
        Some(json::JsonView::Text(text)) => Some(text),
        Some(json::JsonView::Number(number)) => Some(number.text()),
        _ => None,
    }
}

/// A text or a number as a text.
pub fn value_to_string(value: Option<&Json>) -> (r: Option<String>)
    ensures
        seen(r) == scalar_text(
            match value {
                Some(value) => Some(value@),
                None => None,
            },
        ),
{
    match value {
        Some(Json::Text(text)) => Some(text.clone()),
        Some(Json::Number(number)) => Some(number.text()),
        _ => None,
    }
}

/// `text`, cut after `max_chars` characters for a log line.
pub fn truncate_for_log(text: &str, max_chars: usize) -> (r: String)
    ensures
        r@ == text::shortened(text@, max_chars as int, "..."@),
{
    shorten(text, max_chars, "...")
}

/// A value as a log line shows it.
pub open spec fn json_summary(value: json::JsonView) -> Seq<char> {
    text::shortened(json::compact_json(value), 512, "..."@)
}

/// A value as a log line shows it.
pub fn summarize_json_for_log(value: &Json) -> (r: String)
    ensures
        r@ == json_summary(value@),
{
    truncate_for_log(compact_text(value).as_str(), 512)
}

/// The pane that a response names, or what is said where it names none.
pub open spec fn created_pane(response: json::JsonView, action: Seq<char>) -> Result<
    Seq<char>,
    Seq<char>,
> {
    match scalar_text(response.get("pane_id"@)) {
        Some(pane) => if text::blank(pane) {
            Err(missing_pane(response, action))
        } else {
            Ok(pane)
        },
        None => Err(missing_pane(response, action)),
    }
}

pub open spec fn missing_pane(response: json::JsonView, action: Seq<char>) -> Seq<char> {
    action + " response missing pane_id: "@ + json_summary(response)
}

/// The pane that the response to `action_name` created.
pub fn resolve_created_pane_id(result: &Json, action_name: &str) -> (r: Result<String, String>)
    ensures
        seen_result(r) == created_pane(result@, action_name@),
{
    match value_to_string(result.get("pane_id")) {
        Some(pane) => {
            if !is_blank(pane.as_str()) {
                return Ok(pane);
            }
        },
        None => {},
    }
    Err(
        text::concat3(
            action_name,
            " response missing pane_id: ",
            summarize_json_for_log(result).as_str(),
        ),
    )
}

} // verus!
