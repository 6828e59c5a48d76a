//! Which recommendations are accepted, and what is made of them.
use crate::coordinator;
use crate::coordinator::{
    accept_recommendation_set, build_delegate_launch_commandline, recommendation_json,
    recommended_choice_index, required_parent, resolve_created_pane_id,
    resolve_delegate_runtime_commandline, validate_action,
    validate_recommendation_set_for_coordinator_target, DelegateAgentRuntime,
    DelegatePromptDelivery, OpenTarget, RecommendationSet, RecommendedAction,
};
use crate::commandline;
use crate::json;
use crate::json::Json;
use crate::laws::execution;
use crate::text;
use vstd::prelude::*;

verus! {

/// Nothing that the action needs is missing: it has an input, every name that it
/// gives is one, and a panel has a parent.
pub open spec fn complete_action(action: RecommendedAction) -> bool {
    match action {
        RecommendedAction::Send { parent, input } => !text::blank(parent@) && !text::blank(input@),
        RecommendedAction::OpenAndSend { target, parent, input, agent, cwd, title } => {
            &&& !text::blank(input@)
            &&& parent matches Some(parent) ==> !text::blank(parent@)
            &&& agent matches Some(agent) ==> !text::blank(agent@)
            &&& target == OpenTarget::Panel ==> parent is Some
        },
    }
}

/// One to three choices with different numbers from one to three, each with a
/// title and with actions that lack nothing.
pub open spec fn complete_set(set: RecommendationSet) -> bool {
    &&& 1 <= set.choices@.len() <= 3
    &&& forall|i: int|
        0 <= i < set.choices@.len() ==> {
            let choice = #[trigger] set.choices@[i];
            &&& 1 <= choice.choice <= 3
            &&& !text::blank(choice.title@)
            &&& choice.actions@.len() > 0
            &&& forall|j: int|
                0 <= j < choice.actions@.len() ==> complete_action(#[trigger] choice.actions@[j])
        }
    &&& forall|i: int, j: int|
        0 <= i < j < set.choices@.len() ==> (#[trigger] set.choices@[i]).choice != (
        #[trigger] set.choices@[j]).choice
}

/// An action passes exactly where it lacks nothing, and what is said of one that
/// does not names the field.
pub proof fn law_complete_actions_pass(action: &RecommendedAction, r: Result<(), String>)
    requires
        call_ensures(validate_action, (action,), r),
    ensures
        r is Ok <==> complete_action(*action),
        match *action {
            RecommendedAction::Send { parent, input } => {
                &&& text::blank(parent@) ==> (r matches Err(message) && message@
                    == "field '"@ + "parent"@ + "' must not be empty"@)
                &&& !text::blank(parent@) && text::blank(input@) ==> (r matches Err(message)
                    && message@ == "field '"@ + "input"@ + "' must not be empty"@)
            },
            RecommendedAction::OpenAndSend { target, parent, input, agent, cwd, title } => {
                &&& text::blank(input@) ==> (r matches Err(message) && message@ == "field '"@
                    + "input"@ + "' must not be empty"@)
                &&& !text::blank(input@) && parent is Some && text::blank(parent->0@) ==> (
                r matches Err(message) && message@ == "field '"@ + "parent"@
                    + "' must not be empty"@)
                &&& !text::blank(input@) && (parent matches Some(parent) ==> !text::blank(parent@))
                    && agent is Some && text::blank(agent->0@) ==> (r matches Err(message)
                    && message@ == "field '"@ + "agent"@ + "' must not be empty"@)
                &&& !text::blank(input@) && parent is None && (agent matches Some(agent)
                    ==> !text::blank(agent@)) && target == OpenTarget::Panel ==> (r matches Err(
                    message,
                ) && message@ == "field 'parent' is required for "@ + "open_and_send"@
                    + " target panel"@)
            },
        },
{
}

proof fn lemma_actions_fault(actions: Seq<RecommendedAction>, from: int)
    requires
        0 <= from <= actions.len(),
    ensures
        coordinator::actions_fault(actions, from) is None <==> forall|j: int|
            from <= j < actions.len() ==> complete_action(#[trigger] actions[j]),
    decreases actions.len() - from,
{
    if from < actions.len() {
        lemma_actions_fault(actions, from + 1);
        assert(coordinator::action_fault(actions[from]) is None <==> complete_action(actions[from]));
        if coordinator::action_fault(actions[from]) is None && coordinator::actions_fault(
            actions,
            from + 1,
        ) is None {
            assert forall|j: int| from <= j < actions.len() implies complete_action(
                #[trigger] actions[j],
            ) by {
                if j > from {
                }
            }
        }
    }
}

pub open spec fn complete_choice(set: RecommendationSet, i: int) -> bool {
    let choice = set.choices@[i];
    &&& 1 <= choice.choice <= 3
    &&& !text::blank(choice.title@)
    &&& choice.actions@.len() > 0
    &&& forall|j: int|
        0 <= j < choice.actions@.len() ==> complete_action(#[trigger] choice.actions@[j])
    &&& forall|j: int| 0 <= j < i ==> (#[trigger] set.choices@[j]).choice != choice.choice
}

proof fn lemma_choices_fault(set: RecommendationSet, from: int)
    requires
        0 <= from <= set.choices@.len(),
    ensures
        coordinator::choices_fault(set.choices@, from) is None <==> forall|i: int|
            from <= i < set.choices@.len() ==> #[trigger] complete_choice(set, i),
    decreases set.choices@.len() - from,
{
    if from < set.choices@.len() {
        lemma_choices_fault(set, from + 1);
        lemma_actions_fault(set.choices@[from].actions@, 0);
        assert(coordinator::choice_fault(set.choices@, from) is None <==> complete_choice(
            set,
            from,
        ));
        if complete_choice(set, from) && coordinator::choices_fault(set.choices@, from + 1)
            is None {
            assert forall|i: int| from <= i < set.choices@.len() implies #[trigger] complete_choice(
                set,
                i,
            ) by {
                if i > from {
                }
            }
        }
    }
}

/// A decoded set is accepted exactly where it is complete; its choices are then
/// kept, in the order of their numbers, and so is what it recommends.
pub proof fn law_complete_sets_are_accepted(
    set: RecommendationSet,
    r: Result<RecommendationSet, String>,
)
    requires
        call_ensures(accept_recommendation_set, (set,), r),
    ensures
        r is Ok <==> complete_set(set),
        r matches Ok(accepted) ==> {
            &&& accepted.recommended_choice == set.recommended_choice
            &&& accepted.choices@.to_multiset() == set.choices@.to_multiset()
            &&& forall|i: int, j: int|
                0 <= i < j < accepted.choices@.len() ==> (#[trigger] accepted.choices@[i]).choice
                    <= (#[trigger] accepted.choices@[j]).choice
        },
        !(1 <= set.choices@.len() <= 3) ==> (r matches Err(message) && message@
            == "expected 1 to 3 choices, got "@ + text::decimal(set.choices@.len())),
{
    lemma_choices_fault(set, 0);
    if complete_set(set) {
        assert forall|i: int| 0 <= i < set.choices@.len() implies #[trigger] complete_choice(
            set,
            i,
        ) by {}
    }
    if 1 <= set.choices@.len() <= 3 && coordinator::choices_fault(set.choices@, 0) is None {
        assert forall|i: int| 0 <= i < set.choices@.len() implies {
            let choice = #[trigger] set.choices@[i];
            &&& 1 <= choice.choice <= 3
            &&& !text::blank(choice.title@)
            &&& choice.actions@.len() > 0
            &&& forall|j: int|
                0 <= j < choice.actions@.len() ==> complete_action(#[trigger] choice.actions@[j])
        } by {
            assert(complete_choice(set, i));
        }
        assert forall|i: int, j: int| 0 <= i < j < set.choices@.len() implies (
        #[trigger] set.choices@[i]).choice != (#[trigger] set.choices@[j]).choice by {
            assert(complete_choice(set, j));
        }
    }
}

proof fn lemma_self_send(set: RecommendationSet, target: Seq<char>, from: int)
    requires
        0 <= from <= set.choices@.len(),
    ensures
        coordinator::self_send_fault(set.choices@, target, from) is None <==> forall|i: int, j: int|

            #![trigger set.choices@[i].actions@[j]]
            from <= i < set.choices@.len() && 0 <= j < set.choices@[i].actions@.len() ==> !(
            set.choices@[i].actions@[j] matches RecommendedAction::Send { parent, .. } && parent@
                == target),
    decreases set.choices@.len() - from,
{
    if from < set.choices@.len() {
        lemma_self_send(set, target, from + 1);
        let actions = set.choices@[from].actions@;
        if coordinator::sends_to(set.choices@[from], target) {
            let j = choose|j: int|
                0 <= j < actions.len() && coordinator::sends(#[trigger] actions[j], target);
            assert(set.choices@[from].actions@[j] matches RecommendedAction::Send { parent, .. }
                && parent@ == target);
        } else {
            assert forall|j: int| 0 <= j < actions.len() implies !coordinator::sends(
                #[trigger] actions[j],
                target,
            ) by {}
            assert forall|i: int, j: int|
                #![trigger set.choices@[i].actions@[j]]
                from <= i < set.choices@.len() && 0 <= j < set.choices@[i].actions@.len()
                    && coordinator::self_send_fault(set.choices@, target, from + 1)
                    is None implies !(set.choices@[i].actions@[j] matches RecommendedAction::Send {
                parent,
                ..
            } && parent@ == target) by {
                if i == from {
                    assert(!coordinator::sends(actions[j], target));
                }
            }
        }
    }
}

/// A set is refused for the coordinator's pane exactly where one of its actions
/// sends into that pane.
pub proof fn law_coordinator_is_never_sent_to(
    set: &RecommendationSet,
    target: Option<&str>,
    r: Result<(), String>,
)
    requires
        call_ensures(validate_recommendation_set_for_coordinator_target, (set, target), r),
    ensures
        target is None ==> r is Ok,
        target matches Some(pane) ==> {
            &&& text::trimmed(pane@).len() == 0 ==> r is Ok
            &&& text::trimmed(pane@).len() > 0 ==> (r is Ok <==> forall|i: int, j: int|

                #![trigger set.choices@[i].actions@[j]]
                0 <= i < set.choices@.len() && 0 <= j < set.choices@[i].actions@.len() ==> !(
                set.choices@[i].actions@[j] matches RecommendedAction::Send { parent, .. }
                    && parent@ == text::trimmed(pane@)))
        },
{
    if let Some(pane) = target {
        lemma_self_send(*set, text::trimmed(pane@), 0);
    }
}

/// The choice that stands out is the first of the recommended number, and the
/// first of all where there is none.
pub proof fn law_recommended_choice_stands_out(set: &RecommendationSet, index: usize)
    requires
        call_ensures(recommended_choice_index, (set,), index),
    ensures
        match set.recommended_choice {
            None => index == 0,
            Some(number) => {
                &&& forall|i: int|
                    0 <= i < set.choices@.len() && (#[trigger] set.choices@[i]).choice == number
                        ==> set.choices@[index as int].choice == number && index <= i
                &&& (forall|i: int|
                    0 <= i < set.choices@.len() ==> (#[trigger] set.choices@[i]).choice != number)
                    ==> index == 0
            },
        },
{
    if let Some(number) = set.recommended_choice {
        let views = set@.choices;
        coordinator::lemma_choice_at(views, number, 0);
        assert forall|i: int| 0 <= i < set.choices@.len() implies (
        #[trigger] set.choices@[i]).choice == views[i].choice by {}
        lemma_choice_first(views, number, 0);
        if coordinator::choice_at(views, number, 0) is Some {
            assert(views[index as int].choice == number);
            assert(set.choices@[index as int].choice == number);
        }
    }
}

proof fn lemma_choice_first(views: Seq<coordinator::ChoiceView>, number: usize, from: int)
    requires
        0 <= from <= views.len(),
    ensures
        match coordinator::choice_at(views, number, from) {
            Some(at) => from <= at < views.len() && views[at].choice == number && forall|i: int|
                from <= i < at ==> (#[trigger] views[i]).choice != number,
            None => forall|i: int|
                from <= i < views.len() ==> (#[trigger] views[i]).choice != number,
        },
    decreases views.len() - from,
{
    if from < views.len() && views[from].choice != number {
        lemma_choice_first(views, number, from + 1);
    }
}

/// A panel needs a parent that is named.
pub proof fn law_parents_are_required(parent: Option<&str>, action: &str, r: Result<&str, String>)
    requires
        call_ensures(required_parent, (parent, action), r),
    ensures
        r is Ok <==> (parent matches Some(name) && !text::blank(name@)),
        r matches Ok(name) ==> (parent matches Some(given) && given@ == name@),
        parent is None ==> (r matches Err(message) && message@
            == "field 'parent' is required for "@ + action@ + " target panel"@),
{
}

/// A response that names a pane gives that pane, and any other is an error.
pub proof fn law_created_panes_are_named(
    response: &Json,
    action: &str,
    r: Result<String, String>,
    pane: Seq<char>,
)
    requires
        call_ensures(resolve_created_pane_id, (response, action), r),
    ensures
        r matches Ok(name) ==> execution::named_pane(response@, name@) && !text::blank(name@),
        execution::named_pane(response@, pane) && !text::blank(pane) ==> (r matches Ok(name)
            && name@ == pane),
        r matches Err(message) ==> text::has_prefix(
            message@,
            action@ + " response missing pane_id: "@,
        ),
{
    if let Err(message) = r {
        let head = action@ + " response missing pane_id: "@;
        assert(message@.subrange(0, head.len() as int) =~= head);
    }
}

/// An agent that gets its task later is launched as it is configured.
pub proof fn law_later_tasks_leave_the_command_line(
    runtime: &DelegateAgentRuntime,
    input: &str,
    r: Result<String, String>,
)
    requires
        call_ensures(build_delegate_launch_commandline, (runtime, input), r),
    ensures
        text::trimmed(runtime.commandline@).len() == 0 ==> (r matches Err(message) && message@
            == "delegate agent runtime commandline is empty"@),
        text::trimmed(runtime.commandline@).len() > 0 && runtime.prompt_delivery
            == DelegatePromptDelivery::LaunchThenSend ==> (r matches Ok(line) && line@
            == text::trimmed(runtime.commandline@)),
        text::trimmed(runtime.commandline@).len() > 0 && runtime.prompt_delivery
            == DelegatePromptDelivery::LaunchWithStartupPrompt && text::blank(input@) ==> (
        r matches Err(message) && message@ == "field '"@ + "input"@ + "' must not be empty"@),
{
}

/// A command line that is configured for delegates is taken as it is; else the
/// agent's own program is used, with its model, and only if it is one that takes
/// a task on launch.
pub proof fn law_delegates_follow_the_agent(
    configured: Option<&str>,
    agent: Option<&str>,
    r: Option<String>,
)
    requires
        call_ensures(resolve_delegate_runtime_commandline, (configured, agent), r),
    ensures
        (configured matches Some(line) && text::trimmed(line@).len() > 0) ==> (r matches Some(
            taken,
        ) && taken@ == text::trimmed(configured->0@)),
        !(configured matches Some(line) && text::trimmed(line@).len() > 0) ==> match agent {
            None => r is None,
            Some(agent) => {
                let own = commandline::split_args(agent@);
                if own.len() == 0 || !commandline::names_copilot(own[0]) {
                    r is None
                } else {
                    r matches Some(taken) && match commandline::named_model(own, 1) {
                        None => taken@ == commandline::joined(seq![own[0]]),
                        Some(model) => taken@ == commandline::joined(
                            seq![own[0], "--model"@, model],
                        ),
                    }
                }
            },
        },
{
}

/// An answer without a fenced block and without a pair of braces holds no
/// recommendation.
pub proof fn law_plain_answers_hold_no_block(answer: &str, block: Option<&str>)
    requires
        call_ensures(recommendation_json, (answer,), block),
        text::find(answer@, "```json"@) is None,
        text::find(answer@, "```JSON"@) is None,
    ensures
        text::find(answer@, "{"@) is None ==> block is None,
        text::find_last(answer@, '}') is None ==> block is None,
        (text::find(answer@, "{"@) matches Some(start) && text::find_last(answer@, '}') matches Some(
            end,
        ) && start < end) ==> (block matches Some(found) && found@ == text::trimmed(
            answer@.subrange(
                text::find(answer@, "{"@)->0,
                text::find_last(answer@, '}')->0 + 1,
            ),
        )),
{
}

/// A fenced block is taken without its fence, whatever stands around it.
pub proof fn law_fenced_blocks_are_taken(
    answer: &str,
    block: Option<&str>,
    before: Seq<char>,
    body: Seq<char>,
    after: Seq<char>,
)
    requires
        call_ensures(recommendation_json, (answer,), block),
        answer@ == before + "```json\n"@ + body + "```"@ + after,
        forall|at: int| 0 <= at < before.len() ==> !#[trigger] text::occurs_at(
            answer@,
            "```json"@,
            at,
        ),
        forall|at: int| 0 <= at < body.len() ==> !#[trigger] text::occurs_at(
            body + "```"@ + after,
            "```"@,
            at,
        ),
    ensures
        block matches Some(found) && found@ == text::trimmed(body),
{
    reveal_strlit("```json\n");
    reveal_strlit("```json");
    reveal_strlit("```");
    reveal_strlit("\r");
    reveal_strlit("\n");
    let fence = before.len() as int;
    assert(answer@.subrange(fence, fence + 7) =~= "```json"@);
    lemma_found(answer@, "```json"@, 0, fence);
    let rest = answer@.skip(fence + 7);
    assert(rest[0] == '\n');
    if text::occurs_at(rest, "\r"@, 0) {
        assert(rest.subrange(0, 1)[0] == '\r');
    }
    assert(rest.subrange(0, 1) =~= "\n"@);
    let inner = body + "```"@ + after;
    assert(rest.skip(1) =~= inner);
    assert(inner.subrange(body.len() as int, body.len() as int + 3) =~= "```"@);
    lemma_found(inner, "```"@, 0, body.len() as int);
    assert(inner.take(body.len() as int) =~= body);
}

proof fn lemma_found(s: Seq<char>, pattern: Seq<char>, from: int, at: int)
    requires
        0 <= from <= at,
        text::occurs_at(s, pattern, at),
        forall|i: int| from <= i < at ==> !#[trigger] text::occurs_at(s, pattern, i),
    ensures
        text::find_from(s, pattern, from) == Some(at),
    decreases at - from,
{
    if from < at {
        assert(!text::occurs_at(s, pattern, from));
        lemma_found(s, pattern, from + 1, at);
    }
}

} // verus!
