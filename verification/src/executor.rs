//! Carrying out a chosen recommendation: which request to make of the terminal
//! next, and what to tell the user, after each reply.
use crate::coordinator;
use crate::coordinator::{
    build_delegate_launch_commandline, ensure_non_empty, lookup_delegate_agent, open_target_label,
    required_parent, resolve_created_pane_id, text_ref, DelegateAgentRuntime,
    DelegatePromptDelivery, OpenTarget, RecommendationChoice, RecommendedAction,
};
use crate::json::Json;
use crate::text;
use crate::text::{clone_text, concat3, number_text};
use vstd::prelude::*;

verus! {

/// How long a new pane is left alone before input is typed into it.
pub const SETTLE_MILLIS: u64 = 700;

/// Where the execution of a choice stands.
#[derive(Debug)]
pub enum RunState {
    /// The action at this position is next.
    Ready(usize),
    /// Input for the action at this position was handed over.
    Sending(usize),
    /// A tab or a panel for the action at this position was asked for.
    Opening(usize),
    /// The new pane settles before it gets its input.
    Settling(usize, String),
    /// The new pane was handed its input.
    SendingNew(usize, String),
    Finished,
}

/// What came back from the terminal.
#[derive(Debug)]
pub enum RunReply {
    Start,
    Sent(Result<(), String>),
    Opened(Result<Json, String>),
    Settled,
}

/// What to ask of the terminal next.
#[derive(Debug)]
pub enum RunRequest {
    SendInput { pane: String, payload: String },
    CreateTab { commandline: Option<String>, cwd: Option<String>, title: Option<String> },
    SplitPane { pane: String, commandline: Option<String>, cwd: Option<String> },
    Wait(u64),
    Done,
    Failed(String),
}

/// One step of the execution.
#[derive(Debug)]
pub struct RunStep {
    pub state: RunState,
    pub notices: Vec<String>,
    pub request: RunRequest,
}

pub ghost enum StateView {
    Ready(int),
    Sending(int),
    Opening(int),
    Settling(int, Seq<char>),
    SendingNew(int, Seq<char>),
    Finished,
}

pub ghost enum RequestView {
    SendInput { pane: Seq<char>, payload: Seq<char> },
    CreateTab { commandline: Option<Seq<char>>, cwd: Option<Seq<char>>, title: Option<Seq<char>> },
    SplitPane { pane: Seq<char>, commandline: Option<Seq<char>>, cwd: Option<Seq<char>> },
    Wait(u64),
    Done,
    Failed(Seq<char>),
}

pub ghost struct StepView {
    pub state: StateView,
    pub notices: Seq<Seq<char>>,
    pub request: RequestView,
}

impl View for RunState {
    type V = StateView;

    open spec fn view(&self) -> StateView {
        match *self {
            RunState::Ready(i) => StateView::Ready(i as int),
            RunState::Sending(i) => StateView::Sending(i as int),
            RunState::Opening(i) => StateView::Opening(i as int),
            RunState::Settling(i, pane) => StateView::Settling(i as int, pane@),
            RunState::SendingNew(i, pane) => StateView::SendingNew(i as int, pane@),
            RunState::Finished => StateView::Finished,
        }
    }
}

impl View for RunRequest {
    type V = RequestView;

    open spec fn view(&self) -> RequestView {
        match *self {
            RunRequest::SendInput { pane, payload } => RequestView::SendInput {
                pane: pane@,
                payload: payload@,
            },
            RunRequest::CreateTab { commandline, cwd, title } => RequestView::CreateTab {
                commandline: coordinator::seen(commandline),
                cwd: coordinator::seen(cwd),
                title: coordinator::seen(title),
            },
            RunRequest::SplitPane { pane, commandline, cwd } => RequestView::SplitPane {
                pane: pane@,
                commandline: coordinator::seen(commandline),
                cwd: coordinator::seen(cwd),
            },
            RunRequest::Wait(millis) => RequestView::Wait(millis),
            RunRequest::Done => RequestView::Done,
            RunRequest::Failed(message) => RequestView::Failed(message@),
        }
    }
}

impl View for RunStep {
    type V = StepView;

    open spec fn view(&self) -> StepView {
        StepView {
            state: self.state@,
            notices: text::texts(self.notices@),
            request: self.request@,
        }
    }
}

/// The execution ends with a fault.
pub open spec fn failed(notices: Seq<Seq<char>>, message: Seq<char>) -> StepView {
    StepView { state: StateView::Finished, notices, request: RequestView::Failed(message) }
}

pub open spec fn sending_notice(pane: Seq<char>) -> Seq<char> {
    "Sending input to pane "@ + pane + "."@
}

pub open spec fn sent_notice(pane: Seq<char>) -> Seq<char> {
    "Sent input to pane "@ + pane + "."@
}

pub open spec fn opening_notice(target: OpenTarget, agent: Option<Seq<char>>) -> Seq<char> {
    match agent {
        Some(name) => "Opening "@ + coordinator::target_label(target) + " for "@ + name + "."@,
        None => "Opening "@ + coordinator::target_label(target) + "."@,
    }
}

pub open spec fn opened_notice(target: OpenTarget, pane: Seq<char>) -> Seq<char> {
    "Opened "@ + coordinator::target_label(target) + " pane "@ + pane + "."@
}

pub open spec fn prompted_notice(pane: Seq<char>) -> Seq<char> {
    "Passed startup prompt to pane "@ + pane + " on launch."@
}

/// Input followed by Enter.
pub open spec fn with_enter(input: Seq<char>) -> Seq<char> {
    input.push('\r')
}

/// The agent that an action names, where it names one.
pub open spec fn action_agent(
    agent: Option<String>,
    agents: Seq<DelegateAgentRuntime>,
) -> Option<DelegateAgentRuntime> {
    match agent {
        Some(id) => coordinator::agent_at(agents, id@, 0),
        None => None,
    }
}

/// What the action at `i` asks for first.
pub open spec fn open_step(
    target: OpenTarget,
    parent: Option<String>,
    input: Seq<char>,
    runtime: Option<DelegateAgentRuntime>,
    cwd: Option<String>,
    title: Option<String>,
    i: int,
    notices: Seq<Seq<char>>,
) -> StepView {
    let name = match runtime {
        Some(runtime) => Some(runtime.name@),
        None => None,
    };
    let told = notices.push(opening_notice(target, name));
    let launch = match runtime {
        Some(runtime) => coordinator::launch_commandline(runtime, input),
        None => Ok(Seq::empty()),
    };
    match launch {
        Err(message) => failed(told, message),
        Ok(line) => {
            let commandline = if runtime is Some {
                Some(line)
            } else {
                None
            };
            match target {
                OpenTarget::Tab => StepView {
                    state: StateView::Opening(i),
                    notices: told,
                    request: RequestView::CreateTab {
                        commandline,
                        cwd: coordinator::seen(cwd),
                        title: if title is Some {
                            coordinator::seen(title)
                        } else {
                            name
                        },
                    },
                },
                OpenTarget::Panel => match coordinator::parent_fault(
                    coordinator::seen(parent),
                    "open_and_send"@,
                ) {
                    Some(message) => failed(told, message),
                    None => StepView {
                        state: StateView::Opening(i),
                        notices: told,
                        request: RequestView::SplitPane {
                            pane: coordinator::seen(parent)->0,
                            commandline,
                            cwd: coordinator::seen(cwd),
                        },
                    },
                },
            }
        },
    }
}

/// The step that starts the action at `i`, after `notices` were told.
pub open spec fn start_step(
    actions: Seq<RecommendedAction>,
    agents: Seq<DelegateAgentRuntime>,
    i: int,
    notices: Seq<Seq<char>>,
) -> StepView {
    if i >= actions.len() {
        StepView { state: StateView::Finished, notices, request: RequestView::Done }
    } else {
        match actions[i] {
            RecommendedAction::Send { parent, input } => if text::blank(parent@) {
                failed(notices, coordinator::empty_field("parent"@))
            } else if text::blank(input@) {
                failed(notices, coordinator::empty_field("input"@))
            } else {
                StepView {
                    state: StateView::Sending(i),
                    notices: notices.push(sending_notice(parent@)),
                    request: RequestView::SendInput { pane: parent@, payload: with_enter(input@) },
                }
            },
            RecommendedAction::OpenAndSend { target, parent, input, agent, cwd, title } => {
                if text::blank(input@) {
                    failed(notices, coordinator::empty_field("input"@))
                } else if agent is Some && action_agent(agent, agents) is None {
                    failed(notices, coordinator::unsupported_agent(agent->0@))
                } else {
                    open_step(
                        target,
                        parent,
                        input@,
                        action_agent(agent, agents),
                        cwd,
                        title,
                        i,
                        notices,
                    )
                }
            },
        }
    }
}

/// The step after input was handed to `pane` for the action at `i`.
pub open spec fn sent_step(
    actions: Seq<RecommendedAction>,
    agents: Seq<DelegateAgentRuntime>,
    i: int,
    pane: Seq<char>,
    outcome: Result<(), String>,
) -> StepView {
    match outcome {
        Ok(()) => start_step(actions, agents, i + 1, seq![sent_notice(pane)]),
        Err(reason) => failed(
            Seq::empty(),
            "failed to send input to pane "@ + pane + ": "@ + reason@,
        ),
    }
}

/// The pane that the reply to an open request names, or the fault.
pub open spec fn opened_pane(
    target: OpenTarget,
    parent: Option<String>,
    outcome: Result<Json, String>,
) -> Result<Seq<char>, Seq<char>> {
    match (outcome, target) {
        (Ok(response), OpenTarget::Tab) => coordinator::created_pane(response@, "create_tab"@),
        (Ok(response), OpenTarget::Panel) => coordinator::created_pane(response@, "split_pane"@),
        (Err(reason), OpenTarget::Tab) => Err("failed to create tab: "@ + reason@),
        (Err(reason), OpenTarget::Panel) => Err(
            "failed to split pane "@ + match parent {
                Some(pane) => pane@,
                None => Seq::empty(),
            } + ": "@ + reason@,
        ),
    }
}

/// The step after a tab or a panel for the action at `i` was asked for.
pub open spec fn opened_step(
    actions: Seq<RecommendedAction>,
    agents: Seq<DelegateAgentRuntime>,
    i: int,
    outcome: Result<Json, String>,
) -> StepView {
    match actions[i] {
        RecommendedAction::Send { .. } => failed(Seq::empty(), Seq::empty()),
        RecommendedAction::OpenAndSend { target, parent, input, agent, cwd, title } => {
            match opened_pane(target, parent, outcome) {
                Err(message) => failed(Seq::empty(), message),
                Ok(pane) => {
                    let told = seq![opened_notice(target, pane)];
                    let with_prompt = match action_agent(agent, agents) {
                        Some(runtime) => runtime.prompt_delivery
                            == DelegatePromptDelivery::LaunchWithStartupPrompt,
                        None => false,
                    };
                    if with_prompt {
                        start_step(actions, agents, i + 1, told.push(prompted_notice(pane)))
                    } else if text::blank(input@) {
                        failed(told, coordinator::empty_field("input"@))
                    } else {
                        StepView {
                            state: StateView::Settling(i, pane),
                            notices: told.push(sending_notice(pane)),
                            request: RequestView::Wait(SETTLE_MILLIS),
                        }
                    }
                },
            }
        },
    }
}

/// The step after the new pane of the action at `i` settled.
pub open spec fn settled_step(
    actions: Seq<RecommendedAction>,
    i: int,
    pane: Seq<char>,
) -> StepView {
    let input = match actions[i] {
        RecommendedAction::Send { parent, input } => input@,
        RecommendedAction::OpenAndSend { target, parent, input, agent, cwd, title } => input@,
    };
    StepView {
        state: StateView::SendingNew(i, pane),
        notices: Seq::empty(),
        request: RequestView::SendInput { pane, payload: with_enter(input) },
    }
}

/// The reply answers the request that led to the state.
pub open spec fn answers(
    choice: RecommendationChoice,
    state: RunState,
    reply: RunReply,
) -> bool {
    let actions = choice.actions@;
    match (state, reply) {
        (RunState::Ready(i), RunReply::Start) => i <= actions.len(),
        (RunState::Sending(i), RunReply::Sent(_)) => i < actions.len() && actions[i as int] is Send,
        (RunState::Opening(i), RunReply::Opened(_)) => i < actions.len()
            && actions[i as int] is OpenAndSend,
        (RunState::Settling(i, _), RunReply::Settled) => i < actions.len(),
        (RunState::SendingNew(i, _), RunReply::Sent(_)) => i < actions.len(),
        _ => false,
    }
}

/// The next step.
pub open spec fn run_step(
    choice: RecommendationChoice,
    agents: Seq<DelegateAgentRuntime>,
    state: RunState,
    reply: RunReply,
) -> StepView {
    let actions = choice.actions@;
    match (state, reply) {
        (RunState::Ready(i), RunReply::Start) => start_step(
            actions,
            agents,
            i as int,
            Seq::empty(),
        ),
        (RunState::Sending(i), RunReply::Sent(outcome)) => sent_step(
            actions,
            agents,
            i as int,
            match actions[i as int] {
                RecommendedAction::Send { parent, input } => parent@,
                _ => Seq::empty(),
            },
            outcome,
        ),
        (RunState::Opening(i), RunReply::Opened(outcome)) => opened_step(
            actions,
            agents,
            i as int,
            outcome,
        ),
        (RunState::Settling(i, pane), RunReply::Settled) => settled_step(actions, i as int, pane@),
        (RunState::SendingNew(i, pane), RunReply::Sent(outcome)) => sent_step(
            actions,
            agents,
            i as int,
            pane@,
            outcome,
        ),
        _ => failed(Seq::empty(), Seq::empty()),
    }
}

fn fail(notices: Vec<String>, message: String) -> (step: RunStep)
    ensures
        step@ == failed(text::texts(notices@), message@),
{
    RunStep { state: RunState::Finished, notices, request: RunRequest::Failed(message) }
}

fn tell(notices: &mut Vec<String>, notice: String)
    ensures
        text::texts(final(notices)@) == text::texts(old(notices)@).push(notice@),
{
    notices.push(notice);
    assert(text::texts(notices@) =~= text::texts(old(notices)@).push(notice@));
}

fn payload(input: &str) -> (r: String)
    ensures
        r@ == with_enter(input@),
{
    let mut r = input.to_owned();
    r.push('\r');
    r
}

/// Asks for the tab or panel of the action at `i`.
fn start_open(
    target: OpenTarget,
    parent: &Option<String>,
    input: &str,
    runtime: Option<&DelegateAgentRuntime>,
    cwd: &Option<String>,
    title: &Option<String>,
    i: usize,
    notices: Vec<String>,
) -> (step: RunStep)
    ensures
        step@ == open_step(
            target,
            *parent,
            input@,
            match runtime {
                Some(runtime) => Some(*runtime),
                None => None,
            },
            *cwd,
            *title,
            i as int,
            text::texts(notices@),
        ),
{
    let mut notices = notices;
    let label = open_target_label(&target);
    let mut notice = "Opening ".to_owned();
    notice.append(label);
    if let Some(runtime) = runtime {
        notice.append(" for ");
        notice.append(runtime.name.as_str());
    }
    notice.append(".");
    tell(&mut notices, notice);
    let commandline = match runtime {
        Some(runtime) => match build_delegate_launch_commandline(runtime, input) {
            Ok(line) => Some(line),
            Err(message) => return fail(notices, message),
        },
        None => None,
    };
    match target {
        OpenTarget::Tab => {
            let title = match (title, runtime) {
                (Some(title), _) => Some(title.clone()),
                (None, Some(runtime)) => Some(runtime.name.clone()),
                (None, None) => None,
            };
            RunStep {
                state: RunState::Opening(i),
                notices,
                request: RunRequest::CreateTab { commandline, cwd: clone_text(cwd), title },
            }
        },
        OpenTarget::Panel => match required_parent(text_ref(parent), "open_and_send") {
            Err(message) => fail(notices, message),
            Ok(pane) => RunStep {
                state: RunState::Opening(i),
                notices,
                request: RunRequest::SplitPane {
                    pane: pane.to_owned(),
                    commandline,
                    cwd: clone_text(cwd),
                },
            },
        },
    }
}

/// Starts the action at `i`, or ends the execution after the last one.
fn start(
    actions: &Vec<RecommendedAction>,
    agents: &Vec<DelegateAgentRuntime>,
    i: usize,
    notices: Vec<String>,
) -> (step: RunStep)
    ensures
        step@ == start_step(actions@, agents@, i as int, text::texts(notices@)),
{
    if i >= actions.len() {
        return RunStep { state: RunState::Finished, notices, request: RunRequest::Done };
    }
    let mut notices = notices;
    match &actions[i] {
        RecommendedAction::Send { parent, input } => {
            match ensure_non_empty("parent", parent.as_str()) {
                Ok(()) => {},
                Err(message) => return fail(notices, message),
            }
            match ensure_non_empty("input", input.as_str()) {
                Ok(()) => {},
                Err(message) => return fail(notices, message),
            }
            tell(&mut notices, concat3("Sending input to pane ", parent.as_str(), "."));
            RunStep {
                state: RunState::Sending(i),
                notices,
                request: RunRequest::SendInput {
                    pane: parent.clone(),
                    payload: payload(input.as_str()),
                },
            }
        },
        RecommendedAction::OpenAndSend { target, parent, input, agent, cwd, title } => {
            match ensure_non_empty("input", input.as_str()) {
                Ok(()) => {},
                Err(message) => return fail(notices, message),
            }
            let runtime = match agent {
                Some(id) => match lookup_delegate_agent(agents, id.as_str()) {
                    Ok(runtime) => Some(runtime),
                    Err(message) => return fail(notices, message),
                },
                None => None,
            };
            start_open(*target, parent, input.as_str(), runtime, cwd, title, i, notices)
        },
    }
}

/// Goes on after input was handed to `pane`.
fn after_send(
    actions: &Vec<RecommendedAction>,
    agents: &Vec<DelegateAgentRuntime>,
    i: usize,
    pane: &str,
    outcome: Result<(), String>,
) -> (step: RunStep)
    requires
        i < actions@.len(),
    ensures
        step@ == sent_step(actions@, agents@, i as int, pane@, outcome),
{
    let mut notices: Vec<String> = Vec::new();
    assert(text::texts(notices@) =~= Seq::<Seq<char>>::empty());
    match outcome {
        Ok(()) => {
            tell(&mut notices, concat3("Sent input to pane ", pane, "."));
            assert(text::texts(notices@) =~= seq![sent_notice(pane@)]);
            assert(i < actions.len());
            start(actions, agents, i + 1, notices)
        },
        Err(reason) => {
            let mut message = concat3("failed to send input to pane ", pane, ": ");
            message.append(reason.as_str());
            fail(notices, message)
        },
    }
}

/// The pane that the reply to an open request names.
fn pane_of_reply(
    target: OpenTarget,
    parent: &Option<String>,
    outcome: Result<Json, String>,
) -> (r: Result<String, String>)
    ensures
        coordinator::seen_result(r) == opened_pane(target, *parent, outcome),
{
    match (outcome, target) {
        (Ok(response), OpenTarget::Tab) => resolve_created_pane_id(&response, "create_tab"),
        (Ok(response), OpenTarget::Panel) => resolve_created_pane_id(&response, "split_pane"),
        (Err(reason), OpenTarget::Tab) => {
            let mut message = "failed to create tab: ".to_owned();
            message.append(reason.as_str());
            Err(message)
        },
        (Err(reason), OpenTarget::Panel) => {
            let pane = match parent {
                Some(pane) => pane.clone(),
                None => String::new(),
            };
            let mut message = concat3("failed to split pane ", pane.as_str(), ": ");
            message.append(reason.as_str());
            Err(message)
        },
    }
}

/// Goes on after a tab or a panel was asked for.
fn after_open(
    actions: &Vec<RecommendedAction>,
    agents: &Vec<DelegateAgentRuntime>,
    i: usize,
    outcome: Result<Json, String>,
) -> (step: RunStep)
    requires
        i < actions@.len(),
        actions@[i as int] is OpenAndSend,
    ensures
        step@ == opened_step(actions@, agents@, i as int, outcome),
{
    let mut notices: Vec<String> = Vec::new();
    assert(text::texts(notices@) =~= Seq::<Seq<char>>::empty());
    match &actions[i] {
        RecommendedAction::Send { .. } => fail(notices, String::new()),
        RecommendedAction::OpenAndSend { target, parent, input, agent, cwd: _, title: _ } => {
            let pane = match pane_of_reply(*target, parent, outcome) {
                Ok(pane) => pane,
                Err(message) => return fail(notices, message),
            };
            let mut notice = concat3("Opened ", open_target_label(target), " pane ");
            notice.append(pane.as_str());
            notice.append(".");
            tell(&mut notices, notice);
            assert(text::texts(notices@) =~= seq![opened_notice(*target, pane@)]);
            let with_prompt: bool = match agent {
                Some(id) => match lookup_delegate_agent(agents, id.as_str()) {
                    Ok(runtime) => runtime.prompt_delivery
                        == DelegatePromptDelivery::LaunchWithStartupPrompt,
                    Err(_) => false,
                },
                None => false,
            };
            if with_prompt {
                tell(
                    &mut notices,
                    concat3("Passed startup prompt to pane ", pane.as_str(), " on launch."),
                );
                assert(i < actions.len());
                return start(actions, agents, i + 1, notices);
            }
            match ensure_non_empty("input", input.as_str()) {
                Ok(()) => {},
                Err(message) => return fail(notices, message),
            }
            tell(&mut notices, concat3("Sending input to pane ", pane.as_str(), "."));
            RunStep {
                state: RunState::Settling(i, pane),
                notices,
                request: RunRequest::Wait(SETTLE_MILLIS),
            }
        },
    }
}

/// Takes the execution of `choice` from `state` one step further.
pub fn execute_choice(
    choice: &RecommendationChoice,
    delegate_agents: &Vec<DelegateAgentRuntime>,
    state: RunState,
    reply: RunReply,
) -> (step: RunStep)
    requires
        answers(*choice, state, reply),
    ensures
        step@ == run_step(*choice, delegate_agents@, state, reply),
{
    let actions = &choice.actions;
    let notices: Vec<String> = Vec::new();
    assert(text::texts(notices@) =~= Seq::<Seq<char>>::empty());
    match (state, reply) {
        (RunState::Ready(i), RunReply::Start) => start(actions, delegate_agents, i, notices),
        (RunState::Sending(i), RunReply::Sent(outcome)) => {
            let pane = match &actions[i] {
                RecommendedAction::Send { parent, input: _ } => parent.clone(),
                RecommendedAction::OpenAndSend { .. } => String::new(),
            };
            after_send(actions, delegate_agents, i, pane.as_str(), outcome)
        },
        (RunState::Opening(i), RunReply::Opened(outcome)) => after_open(
            actions,
            delegate_agents,
            i,
            outcome,
        ),
        (RunState::Settling(i, pane), RunReply::Settled) => {
            let input = match &actions[i] {
                RecommendedAction::Send { parent: _, input } => input,
                RecommendedAction::OpenAndSend { input, .. } => input,
            };
            RunStep {
                state: RunState::SendingNew(i, pane.clone()),
                notices,
                request: RunRequest::SendInput { pane, payload: payload(input.as_str()) },
            }
        },
        (RunState::SendingNew(i, pane), RunReply::Sent(outcome)) => after_send(
            actions,
            delegate_agents,
            i,
            pane.as_str(),
            outcome,
        ),
        _ => fail(notices, String::new()),
    }
}

/// What the user is told of a choice that failed.
pub fn choice_failure(choice: usize, reason: &str) -> (message: String)
    ensures
        message@ == "Choice "@ + text::decimal(choice as nat) + " failed: "@ + reason@,
{
    let mut message = concat3("Choice ", number_text(choice as u64).as_str(), " failed: ");
    message.append(reason);
    message
}

/// The state waits for the reply to the request: each request is answered in
/// the state that it came with, the action it is about exists, and there is no
/// request after the end.
pub open spec fn awaits(actions: Seq<RecommendedAction>, step: StepView) -> bool {
    match step.state {
        StateView::Ready(i) => false,
        StateView::Sending(i) => step.request is SendInput && 0 <= i < actions.len()
            && actions[i] is Send,
        StateView::Opening(i) => (step.request is CreateTab || step.request is SplitPane) && 0 <= i
            < actions.len() && actions[i] is OpenAndSend,
        StateView::Settling(i, pane) => step.request is Wait && 0 <= i < actions.len(),
        StateView::SendingNew(i, pane) => step.request is SendInput && 0 <= i < actions.len(),
        StateView::Finished => step.request is Done || step.request is Failed,
    }
}

/// The action that the state is about.
pub open spec fn position(actions: Seq<RecommendedAction>, state: StateView) -> int {
    match state {
        StateView::Ready(i) => i,
        StateView::Sending(i) => i,
        StateView::Opening(i) => i,
        StateView::Settling(i, pane) => i,
        StateView::SendingNew(i, pane) => i,
        StateView::Finished => actions.len() as int,
    }
}

/// Every step leads to a state that waits for the reply to its request, the
/// actions are taken in order, and input that is typed ends with Enter.
pub proof fn law_execution_goes_on(
    choice: RecommendationChoice,
    agents: Seq<DelegateAgentRuntime>,
    state: RunState,
    reply: RunReply,
)
    requires
        answers(choice, state, reply),
    ensures
        ({
            let step = run_step(choice, agents, state, reply);
            &&& awaits(choice.actions@, step)
            &&& position(choice.actions@, state@) <= position(choice.actions@, step.state)
                <= position(choice.actions@, state@) + 1 || step.state is Finished
            &&& step.request matches RequestView::SendInput { pane, payload } ==> payload.len() > 0
                && payload.last() == '\r'
        }),
{
}

/// An action without faults that delegates to no agent is started, never
/// refused.
pub proof fn law_valid_action_starts(
    actions: Seq<RecommendedAction>,
    agents: Seq<DelegateAgentRuntime>,
    i: int,
    notices: Seq<Seq<char>>,
)
    requires
        0 <= i < actions.len(),
        coordinator::action_fault(actions[i]) is None,
        actions[i] matches RecommendedAction::OpenAndSend { agent, .. } ==> agent is None,
    ensures
        !(start_step(actions, agents, i, notices).request is Failed),
        !(start_step(actions, agents, i, notices).request is Done),
{
}

} // verus!
