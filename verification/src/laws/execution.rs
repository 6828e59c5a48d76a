//! Carrying out a choice: each action is asked for as it says, once, in turn.
use crate::commandline;
use crate::coordinator;
use crate::coordinator::{
    DelegateAgentRuntime, DelegatePromptDelivery, OpenTarget, RecommendationChoice,
    RecommendedAction,
};
use crate::executor;
use crate::executor::{
    execute_choice, RequestView, RunReply, RunState, RunStep, StateView, SETTLE_MILLIS,
};
use crate::json::{Json, JsonView, NumberView};
use crate::text;
use vstd::prelude::*;

verus! {

/// `agents[k]` is the agent that goes by `id`: the first one of that name.
pub open spec fn goes_by(agents: Seq<DelegateAgentRuntime>, id: Seq<char>, k: int) -> bool {
    &&& 0 <= k < agents.len()
    &&& agents[k].id@ == id
    &&& forall|j: int| 0 <= j < k ==> (#[trigger] agents[j]).id@ != id
}

/// No agent goes by `id`.
pub open spec fn nobody(agents: Seq<DelegateAgentRuntime>, id: Seq<char>) -> bool {
    forall|j: int| 0 <= j < agents.len() ==> (#[trigger] agents[j]).id@ != id
}

/// The arguments with which the command line of an agent launches it.
pub open spec fn own_arguments(runtime: DelegateAgentRuntime) -> Seq<Seq<char>> {
    commandline::split_args(text::trimmed(runtime.commandline@))
}

/// The command line that a tab or a panel is opened with.
pub open spec fn launched(request: RequestView) -> Option<Seq<char>> {
    match request {
        RequestView::CreateTab { commandline, .. } => commandline,
        RequestView::SplitPane { commandline, .. } => commandline,
        _ => None,
    }
}

/// The directory that a tab or a panel is opened in.
pub open spec fn directory(request: RequestView) -> Option<Seq<char>> {
    match request {
        RequestView::CreateTab { cwd, .. } => cwd,
        RequestView::SplitPane { cwd, .. } => cwd,
        _ => None,
    }
}

proof fn lemma_agent_found(agents: Seq<DelegateAgentRuntime>, id: Seq<char>, k: int, from: int)
    requires
        goes_by(agents, id, k),
        0 <= from <= k,
    ensures
        coordinator::agent_at(agents, id, from) == Some(agents[k]),
    decreases k - from,
{
    if from < k {
        assert(agents[from].id@ != id);
        lemma_agent_found(agents, id, k, from + 1);
    }
}

proof fn lemma_agent_missing(agents: Seq<DelegateAgentRuntime>, id: Seq<char>, from: int)
    requires
        nobody(agents, id),
        0 <= from,
    ensures
        coordinator::agent_at(agents, id, from) is None,
    decreases agents.len() - from,
{
    if from < agents.len() {
        assert(agents[from].id@ != id);
        lemma_agent_missing(agents, id, from + 1);
    }
}

/// Whatever is asked of the terminal serves the action that the state names:
/// input is typed into the pane of the action, or into the pane that was opened
/// for it, as it is and with Enter; a tab or a panel is opened as the action
/// says, a panel beside its parent; and a new pane is left alone for a while
/// before it is typed into.
pub proof fn law_requests_serve_their_action(
    choice: &RecommendationChoice,
    agents: &Vec<DelegateAgentRuntime>,
    state: RunState,
    reply: RunReply,
    step: RunStep,
)
    requires
        executor::answers(*choice, state, reply),
        call_ensures(execute_choice, (choice, agents, state, reply), step),
    ensures
        match step@.state {
            StateView::Sending(j) => 0 <= j < choice.actions@.len() && match choice.actions@[j] {
                RecommendedAction::Send { parent, input } => {
                    &&& step@.request == (RequestView::SendInput {
                        pane: parent@,
                        payload: input@.push('\r'),
                    })
                    &&& step@.notices.last() == "Sending input to pane "@ + parent@ + "."@
                },
                _ => false,
            },
            StateView::SendingNew(j, pane) => 0 <= j < choice.actions@.len() && (step@.request
                == (RequestView::SendInput {
                pane,
                payload: match choice.actions@[j] {
                    RecommendedAction::Send { input, .. } => input@.push('\r'),
                    RecommendedAction::OpenAndSend { input, .. } => input@.push('\r'),
                },
            })),
            StateView::Opening(j) => 0 <= j < choice.actions@.len() && match choice.actions@[j] {
                RecommendedAction::OpenAndSend { target, parent, input, agent, cwd, title } => {
                    &&& target == OpenTarget::Tab ==> step@.request is CreateTab
                    &&& target == OpenTarget::Panel ==> (step@.request matches RequestView::SplitPane {
                        pane,
                        ..
                    } && parent matches Some(parent) && pane == parent@)
                    &&& match cwd {
                        Some(cwd) => directory(step@.request) == Some(cwd@),
                        None => directory(step@.request) is None,
                    }
                    &&& agent is None ==> launched(step@.request) is None
                    &&& agent is Some ==> launched(step@.request) is Some
                    &&& target == OpenTarget::Tab ==> (title matches Some(name) ==> (
                    step@.request matches RequestView::CreateTab { title: Some(shown), .. }
                        && shown == name@))
                },
                _ => false,
            },
            StateView::Settling(j, pane) => {
                &&& step@.request == RequestView::Wait(SETTLE_MILLIS)
                &&& step@.notices.last() == "Sending input to pane "@ + pane + "."@
            },
            StateView::Ready(j) => false,
            StateView::Finished => step@.request is Done || step@.request is Failed,
        },
{
}

/// An agent that takes its task on launch gets it there: the command line of the
/// tab or panel holds the agent's own arguments, then `-i`, then the input of the
/// action, and the program of the agent is the one that is launched. One that
/// takes it afterwards is launched with its own command line alone.
pub proof fn law_delegated_tasks_arrive(
    choice: &RecommendationChoice,
    agents: &Vec<DelegateAgentRuntime>,
    state: RunState,
    reply: RunReply,
    step: RunStep,
    j: int,
    k: int,
)
    requires
        executor::answers(*choice, state, reply),
        call_ensures(execute_choice, (choice, agents, state, reply), step),
        step@.state == StateView::Opening(j),
        choice.actions@[j] matches RecommendedAction::OpenAndSend { agent: Some(id), .. }
            && goes_by(agents@, id@, k),
    ensures
        launched(step@.request) is Some,
        ({
            let input = choice.actions@[j]->OpenAndSend_input@;
            let line = launched(step@.request)->0;
            let own = own_arguments(agents@[k]);
            match agents@[k].prompt_delivery {
                DelegatePromptDelivery::LaunchWithStartupPrompt => {
                    &&& own.len() > 0
                    &&& commandline::argv(line).skip(1) == own.skip(1) + seq!["-i"@, input]
                    &&& !(commandline::needs_quotes(own[0]) && own[0].last() == '\\')
                        ==> commandline::argv(line)[0] == own[0]
                },
                DelegatePromptDelivery::LaunchThenSend => line == text::trimmed(
                    agents@[k].commandline@,
                ),
            }
        }),
        choice.actions@[j] matches RecommendedAction::OpenAndSend {
            target: OpenTarget::Tab,
            title: None,
            ..
        } ==> (step@.request matches RequestView::CreateTab { title: Some(shown), .. } && shown
            == agents@[k].name@),
{
    let id = choice.actions@[j]->OpenAndSend_agent->0@;
    let input = choice.actions@[j]->OpenAndSend_input@;
    lemma_agent_found(agents@, id, k, 0);
    let own = own_arguments(agents@[k]);
    if agents@[k].prompt_delivery == DelegatePromptDelivery::LaunchWithStartupPrompt {
        coordinator::law_startup_arguments_arrive(agents@[k], input);
        assert(own.skip(1).push("-i"@).push(input) =~= own.skip(1) + seq!["-i"@, input]);
        if !(commandline::needs_quotes(own[0]) && own[0].last() == '\\') {
            coordinator::law_startup_prompt_arrives(agents@[k], input);
        }
    }
}

/// The pane that a reply names, as text.
pub open spec fn named_pane(response: JsonView, pane: Seq<char>) -> bool {
    match response.get("pane_id"@) {
        Some(JsonView::Text(text)) => pane == text,
        Some(JsonView::Number(NumberView::Unsigned(n))) => pane == text::decimal(n as nat),
        Some(JsonView::Number(NumberView::Negative(n))) => pane == text::signed_decimal(n as int),
        Some(JsonView::Number(NumberView::Decimal(text))) => pane == text,
        _ => false,
    }
}

/// Once the tab or panel of an action is there, its input is delivered exactly
/// once: where the agent got it on launch the next action starts, and else the
/// same input is typed into the new pane.
pub proof fn law_opened_panes_get_their_input_once(
    choice: &RecommendationChoice,
    agents: &Vec<DelegateAgentRuntime>,
    i: usize,
    response: Json,
    step: RunStep,
    started: RunStep,
    pane: Seq<char>,
)
    requires
        i < choice.actions@.len(),
        i + 1 <= usize::MAX,
        choice.actions@[i as int] is OpenAndSend,
        !text::blank(choice.actions@[i as int]->OpenAndSend_input@),
        named_pane(response@, pane),
        !text::blank(pane),
        call_ensures(
            execute_choice,
            (choice, agents, RunState::Opening(i), RunReply::Opened(Ok(response))),
            step,
        ),
        call_ensures(
            execute_choice,
            (choice, agents, RunState::Ready((i + 1) as usize), RunReply::Start),
            started,
        ),
    ensures
        step@.notices.len() >= 2,
        step@.notices[0] == "Opened "@ + match choice.actions@[i as int]->target {
            OpenTarget::Tab => "tab"@,
            OpenTarget::Panel => "panel"@,
        } + " pane "@ + pane + "."@,
        match choice.actions@[i as int] {
            RecommendedAction::OpenAndSend { agent: Some(id), .. } => {
                &&& nobody(agents@, id@) ==> step@.state == StateView::Settling(i as int, pane)
                &&& forall|k: int| #[trigger]
                    goes_by(agents@, id@, k) ==> match agents@[k].prompt_delivery {
                        DelegatePromptDelivery::LaunchWithStartupPrompt => {
                            &&& step@.state == started@.state
                            &&& step@.request == started@.request
                            &&& step@.notices[1] == "Passed startup prompt to pane "@ + pane
                                + " on launch."@
                        },
                        DelegatePromptDelivery::LaunchThenSend => step@.state
                            == StateView::Settling(i as int, pane),
                    }
            },
            _ => step@.state == StateView::Settling(i as int, pane),
        },
{
    if let RecommendedAction::OpenAndSend { agent: Some(id), .. } = choice.actions@[i as int] {
        if nobody(agents@, id@) {
            lemma_agent_missing(agents@, id@, 0);
        }
        assert forall|k: int| #[trigger] goes_by(agents@, id@, k) implies coordinator::agent_at(
            agents@,
            id@,
            0,
        ) == Some(agents@[k]) by {
            lemma_agent_found(agents@, id@, k, 0);
        }
    }
}

/// Where the response names no pane, the execution ends and nothing is typed.
pub proof fn law_panes_without_a_name_end_the_execution(
    choice: &RecommendationChoice,
    agents: &Vec<DelegateAgentRuntime>,
    i: usize,
    response: Json,
    step: RunStep,
)
    requires
        i < choice.actions@.len(),
        choice.actions@[i as int] is OpenAndSend,
        forall|pane: Seq<char>| #[trigger] named_pane(response@, pane) ==> text::blank(pane),
        call_ensures(
            execute_choice,
            (choice, agents, RunState::Opening(i), RunReply::Opened(Ok(response))),
            step,
        ),
    ensures
        step@.state is Finished,
        step@.request is Failed,
        step@.notices.len() == 0,
{
    let pane = match coordinator::scalar_text(response@.get("pane_id"@)) {
        Some(pane) => pane,
        None => Seq::empty(),
    };
    assert(coordinator::scalar_text(response@.get("pane_id"@)) is Some ==> named_pane(
        response@,
        pane,
    ));
}

/// A pane that settled gets the input of its action, and no other pane.
pub proof fn law_settled_panes_are_typed_into(
    choice: &RecommendationChoice,
    agents: &Vec<DelegateAgentRuntime>,
    i: usize,
    pane: String,
    step: RunStep,
)
    requires
        i < choice.actions@.len(),
        choice.actions@[i as int] is OpenAndSend,
        call_ensures(
            execute_choice,
            (choice, agents, RunState::Settling(i, pane), RunReply::Settled),
            step,
        ),
    ensures
        step@.state == StateView::SendingNew(i as int, pane@),
        step@.request == (RequestView::SendInput {
            pane: pane@,
            payload: choice.actions@[i as int]->OpenAndSend_input@ + seq!['\r'],
        }),
{
    let input = choice.actions@[i as int]->OpenAndSend_input@;
    assert(input.push('\r') =~= input + seq!['\r']);
}

/// Input that was taken leads to the next action, which starts as if it were the
/// first; the user is told of the pane that took the input.
pub proof fn law_taken_input_leads_on(
    choice: &RecommendationChoice,
    agents: &Vec<DelegateAgentRuntime>,
    i: usize,
    pane: String,
    fresh: bool,
    step: RunStep,
    started: RunStep,
)
    requires
        i < choice.actions@.len(),
        i + 1 <= usize::MAX,
        !fresh ==> (choice.actions@[i as int] matches RecommendedAction::Send { parent, .. }
            && parent@ == pane@),
        call_ensures(
            execute_choice,
            (
                choice,
                agents,
                if fresh {
                    RunState::SendingNew(i, pane)
                } else {
                    RunState::Sending(i)
                },
                RunReply::Sent(Ok(())),
            ),
            step,
        ),
        call_ensures(
            execute_choice,
            (choice, agents, RunState::Ready((i + 1) as usize), RunReply::Start),
            started,
        ),
    ensures
        step@.state == started@.state,
        step@.request == started@.request,
        step@.notices.len() > 0,
        step@.notices[0] == "Sent input to pane "@ + pane@ + "."@,
{
}

/// What the terminal refuses ends the execution, with the reason it gave.
pub proof fn law_refusals_end_the_execution(
    choice: &RecommendationChoice,
    agents: &Vec<DelegateAgentRuntime>,
    state: RunState,
    reason: String,
    opened: bool,
    step: RunStep,
)
    requires
        executor::answers(
            *choice,
            state,
            if opened {
                RunReply::Opened(Err(reason))
            } else {
                RunReply::Sent(Err(reason))
            },
        ),
        call_ensures(
            execute_choice,
            (
                choice,
                agents,
                state,
                if opened {
                    RunReply::Opened(Err(reason))
                } else {
                    RunReply::Sent(Err(reason))
                },
            ),
            step,
        ),
    ensures
        step@.state == StateView::Finished,
        step@.request matches RequestView::Failed(message) && match state {
            RunState::Sending(i) => choice.actions@[i as int] matches RecommendedAction::Send {
                parent,
                ..
            } && message == "failed to send input to pane "@ + parent@ + ": "@ + reason@,
            RunState::SendingNew(i, pane) => message == "failed to send input to pane "@ + pane@
                + ": "@ + reason@,
            RunState::Opening(i) => match choice.actions@[i as int] {
                RecommendedAction::OpenAndSend { target: OpenTarget::Tab, .. } => message
                    == "failed to create tab: "@ + reason@,
                RecommendedAction::OpenAndSend { parent: Some(parent), .. } => message
                    == "failed to split pane "@ + parent@ + ": "@ + reason@,
                _ => true,
            },
            _ => false,
        },
{
}

/// The action can be started: nothing that it needs is missing, and the agent
/// that it names is there and can be launched.
pub open spec fn startable(action: RecommendedAction, agents: Seq<DelegateAgentRuntime>) -> bool {
    match action {
        RecommendedAction::Send { parent, input } => !text::blank(parent@) && !text::blank(input@),
        RecommendedAction::OpenAndSend { target, parent, input, agent, cwd, title } => {
            &&& !text::blank(input@)
            &&& target == OpenTarget::Panel ==> (parent matches Some(parent) && !text::blank(parent@))
            &&& agent matches Some(id) ==> exists|k: int| #[trigger]
                goes_by(agents, id@, k) && text::trimmed(agents[k].commandline@).len() > 0 && (
                agents[k].prompt_delivery == DelegatePromptDelivery::LaunchWithStartupPrompt
                    ==> own_arguments(agents[k]).len() > 0)
        },
    }
}

/// Every action that can be started is started, and nothing else is; after the
/// last action the execution is done.
pub proof fn law_actions_start_in_turn(
    choice: &RecommendationChoice,
    agents: &Vec<DelegateAgentRuntime>,
    i: usize,
    step: RunStep,
)
    requires
        i <= choice.actions@.len(),
        call_ensures(execute_choice, (choice, agents, RunState::Ready(i), RunReply::Start), step),
    ensures
        i == choice.actions@.len() ==> step@.request is Done && step@.state is Finished
            && step@.notices.len() == 0,
        i < choice.actions@.len() && startable(choice.actions@[i as int], agents@) ==> step@.state
            == match choice.actions@[i as int] {
            RecommendedAction::Send { .. } => StateView::Sending(i as int),
            RecommendedAction::OpenAndSend { .. } => StateView::Opening(i as int),
        },
        i < choice.actions@.len() && !startable(choice.actions@[i as int], agents@)
            ==> step@.request is Failed && step@.state is Finished,
{
    if i < choice.actions@.len() {
        if let RecommendedAction::OpenAndSend { agent: Some(id), .. } = choice.actions@[i as int] {
            if exists|k: int| goes_by(agents@, id@, k) {
                let k = choose|k: int| goes_by(agents@, id@, k);
                lemma_agent_found(agents@, id@, k, 0);
                assert forall|m: int| #[trigger] goes_by(agents@, id@, m) implies m == k by {
                    if m < k {
                        assert(agents@[m].id@ != id@);
                    } else if k < m {
                        assert(agents@[k].id@ != id@);
                    }
                }
            } else {
                lemma_first_of_name(agents@, id@);
                lemma_agent_missing(agents@, id@, 0);
            }
        }
    }
}

proof fn lemma_first_of_name(agents: Seq<DelegateAgentRuntime>, id: Seq<char>)
    requires
        forall|k: int| !goes_by(agents, id, k),
    ensures
        nobody(agents, id),
{
    assert forall|j: int| 0 <= j < agents.len() implies (#[trigger] agents[j]).id@ != id by {
        lemma_none_up_to(agents, id, j);
    }
}

proof fn lemma_none_up_to(agents: Seq<DelegateAgentRuntime>, id: Seq<char>, j: int)
    requires
        forall|k: int| !goes_by(agents, id, k),
        0 <= j < agents.len(),
    ensures
        forall|m: int| 0 <= m <= j ==> (#[trigger] agents[m]).id@ != id,
    decreases j,
{
    if j > 0 {
        lemma_none_up_to(agents, id, j - 1);
    }
    assert(!goes_by(agents, id, j));
}

/// What the user is told first of an action that opens something: what is opened,
/// and for which agent.
pub proof fn law_openings_are_announced(
    choice: &RecommendationChoice,
    agents: &Vec<DelegateAgentRuntime>,
    i: usize,
    step: RunStep,
)
    requires
        i < choice.actions@.len(),
        call_ensures(execute_choice, (choice, agents, RunState::Ready(i), RunReply::Start), step),
        step@.state == StateView::Opening(i as int),
    ensures
        ({
            let target = match choice.actions@[i as int]->target {
                OpenTarget::Tab => "tab"@,
                OpenTarget::Panel => "panel"@,
            };
            match choice.actions@[i as int]->OpenAndSend_agent {
                None => step@.notices == seq!["Opening "@ + target + "."@],
                Some(id) => forall|k: int| #[trigger]
                    goes_by(agents@, id@, k) ==> step@.notices == seq![
                        "Opening "@ + target + " for "@ + agents@[k].name@ + "."@,
                    ],
            }
        }),
{
    if let Some(id) = choice.actions@[i as int]->OpenAndSend_agent {
        assert forall|k: int| #[trigger] goes_by(agents@, id@, k) implies coordinator::agent_at(
            agents@,
            id@,
            0,
        ) == Some(agents@[k]) by {
            lemma_agent_found(agents@, id@, k, 0);
        }
    }
    assert(Seq::<Seq<char>>::empty().push(step@.notices[0]) =~= seq![step@.notices[0]]);
}

} // verus!
