//! Whether two values say the same.
use super::types;
use super::types::{ChatMessage, CompletedTurn, PermOption, PlanEntry};
use crate::coordinator;
use crate::coordinator::{RecommendationChoice, RecommendationSet, RecommendedAction};
use crate::text::same_text;
use vstd::prelude::*;

verus! {

/// Whether two texts that may be there are the same.
pub fn same_optional(a: &Option<String>, b: &Option<String>) -> (same: bool)
    ensures
        same == (coordinator::seen(*a) == coordinator::seen(*b)),
{
    match (a, b) {
        (Some(a), Some(b)) => same_text(a.as_str(), b.as_str()),
        (None, None) => true,
        _ => false,
    }
}

fn same_number(a: Option<usize>, b: Option<usize>) -> (same: bool)
    ensures
        same == (a == b),
{
    match (a, b) {
        (Some(a), Some(b)) => a == b,
        (None, None) => true,
        _ => false,
    }
}

fn same_action(a: &RecommendedAction, b: &RecommendedAction) -> (same: bool)
    ensures
        same == (a@ == b@),
{
    match (a, b) {
        (
            RecommendedAction::Send { parent, input },
            RecommendedAction::Send { parent: parent2, input: input2 },
        ) => same_text(parent.as_str(), parent2.as_str()) && same_text(
            input.as_str(),
            input2.as_str(),
        ),
        (
            RecommendedAction::OpenAndSend { target, parent, input, agent, cwd, title },
            RecommendedAction::OpenAndSend {
                target: target2,
                parent: parent2,
                input: input2,
                agent: agent2,
                cwd: cwd2,
                title: title2,
            },
        ) => *target == *target2 && same_optional(parent, parent2) && same_text(
            input.as_str(),
            input2.as_str(),
        ) && same_optional(agent, agent2) && same_optional(cwd, cwd2) && same_optional(
            title,
            title2,
        ),
        _ => false,
    }
}

fn same_choice(a: &RecommendationChoice, b: &RecommendationChoice) -> (same: bool)
    ensures
        same == (a@ == b@),
{
    if a.choice != b.choice || !same_text(a.title.as_str(), b.title.as_str()) || !same_text(
        a.rationale.as_str(),
        b.rationale.as_str(),
    ) {
        return false;
    }
    if a.actions.len() != b.actions.len() {
        assert(a@.actions.len() != b@.actions.len());
        return false;
    }
    let mut i: usize = 0;
    while i < a.actions.len()
        invariant
            i <= a.actions@.len() == b.actions@.len(),
            forall|j: int| 0 <= j < i ==> #[trigger] a@.actions[j] == b@.actions[j],
        decreases a.actions@.len() - i,
    {
        assert(a@.actions[i as int] == a.actions@[i as int]@);
        assert(b@.actions[i as int] == b.actions@[i as int]@);
        if !same_action(&a.actions[i], &b.actions[i]) {
            assert(a@.actions[i as int] != b@.actions[i as int]);
            return false;
        }
        i += 1;
    }
    assert(a@.actions =~= b@.actions);
    true
}

/// Whether two sets of recommendations are the same.
#[verifier::loop_isolation(false)]
pub fn same_set(a: &Option<RecommendationSet>, b: &Option<RecommendationSet>) -> (same: bool)
    ensures
        same == (super::cards::set_seen(*a) == super::cards::set_seen(*b)),
{
    let (a, b) = match (a, b) {
        (Some(a), Some(b)) => (a, b),
        (None, None) => return true,
        _ => return false,
    };
    if !same_number(a.recommended_choice, b.recommended_choice) {
        return false;
    }
    if a.choices.len() != b.choices.len() {
        assert(a@.choices.len() != b@.choices.len());
        return false;
    }
    let mut i: usize = 0;
    while i < a.choices.len()
        invariant
            i <= a.choices@.len() == b.choices@.len(),
            forall|j: int| 0 <= j < i ==> #[trigger] a@.choices[j] == b@.choices[j],
        decreases a.choices@.len() - i,
    {
        assert(a@.choices[i as int] == a.choices@[i as int]@);
        assert(b@.choices[i as int] == b.choices@[i as int]@);
        if !same_choice(&a.choices[i], &b.choices[i]) {
            assert(a@.choices[i as int] != b@.choices[i as int]);
            return false;
        }
        i += 1;
    }
    assert(a@.choices =~= b@.choices);
    true
}

fn same_plan(a: &Vec<PlanEntry>, b: &Vec<PlanEntry>) -> (same: bool)
    ensures
        same == (types::plan_view(a@) == types::plan_view(b@)),
{
    if a.len() != b.len() {
        assert(types::plan_view(a@).len() != types::plan_view(b@).len());
        return false;
    }
    let mut i: usize = 0;
    while i < a.len()
        invariant
            i <= a@.len() == b@.len(),
            forall|j: int|
                0 <= j < i ==> #[trigger] types::plan_view(a@)[j] == types::plan_view(b@)[j],
        decreases a@.len() - i,
    {
        assert(types::plan_view(a@)[i as int] == a@[i as int]@);
        assert(types::plan_view(b@)[i as int] == b@[i as int]@);
        if a[i].status != b[i].status || !same_text(a[i].content.as_str(), b[i].content.as_str()) {
            assert(types::plan_view(a@)[i as int] != types::plan_view(b@)[i as int]);
            return false;
        }
        i += 1;
    }
    assert(types::plan_view(a@) =~= types::plan_view(b@));
    true
}

fn same_message(a: &ChatMessage, b: &ChatMessage) -> (same: bool)
    ensures
        same == (a@ == b@),
{
    match (a, b) {
        (ChatMessage::User(a), ChatMessage::User(b)) => same_text(a.as_str(), b.as_str()),
        (ChatMessage::Agent(a), ChatMessage::Agent(b)) => same_text(a.as_str(), b.as_str()),
        (ChatMessage::System(a), ChatMessage::System(b)) => same_text(a.as_str(), b.as_str()),
        (
            ChatMessage::ToolCall { id, title, status },
            ChatMessage::ToolCall { id: id2, title: title2, status: status2 },
        ) => same_text(id.as_str(), id2.as_str()) && same_text(title.as_str(), title2.as_str())
            && same_text(status.as_str(), status2.as_str()),
        (ChatMessage::Plan(a), ChatMessage::Plan(b)) => same_plan(a, b),
        (ChatMessage::Error(a), ChatMessage::Error(b)) => same_text(a.as_str(), b.as_str()),
        (ChatMessage::AgentEvent(a), ChatMessage::AgentEvent(b)) => same_text(
            a.as_str(),
            b.as_str(),
        ),
        _ => false,
    }
}

fn same_turn(a: &CompletedTurn, b: &CompletedTurn) -> (same: bool)
    ensures
        same == (a@ == b@),
{
    if !same_text(a.prompt.as_str(), b.prompt.as_str()) {
        return false;
    }
    if a.details.len() != b.details.len() {
        assert(a@.details.len() != b@.details.len());
        return false;
    }
    let mut i: usize = 0;
    while i < a.details.len()
        invariant
            i <= a.details@.len() == b.details@.len(),
            forall|j: int| 0 <= j < i ==> #[trigger] a@.details[j] == b@.details[j],
        decreases a.details@.len() - i,
    {
        assert(a@.details[i as int] == a.details@[i as int]@);
        assert(b@.details[i as int] == b.details@[i as int]@);
        if !same_message(&a.details[i], &b.details[i]) {
            assert(a@.details[i as int] != b@.details[i as int]);
            return false;
        }
        i += 1;
    }
    assert(a@.details =~= b@.details);
    true
}

/// Whether two histories are the same.
pub fn same_turns(a: &Vec<CompletedTurn>, b: &Vec<CompletedTurn>) -> (same: bool)
    ensures
        same == (types::turns_view(a@) == types::turns_view(b@)),
{
    if a.len() != b.len() {
        assert(types::turns_view(a@).len() != types::turns_view(b@).len());
        return false;
    }
    let mut i: usize = 0;
    while i < a.len()
        invariant
            i <= a@.len() == b@.len(),
            forall|j: int|
                0 <= j < i ==> #[trigger] types::turns_view(a@)[j] == types::turns_view(b@)[j],
        decreases a@.len() - i,
    {
        assert(types::turns_view(a@)[i as int] == a@[i as int]@);
        assert(types::turns_view(b@)[i as int] == b@[i as int]@);
        if !same_turn(&a[i], &b[i]) {
            assert(types::turns_view(a@)[i as int] != types::turns_view(b@)[i as int]);
            return false;
        }
        i += 1;
    }
    assert(types::turns_view(a@) =~= types::turns_view(b@));
    true
}

/// Whether two lists of answers to a permission request are the same.
pub fn same_options(a: &Vec<PermOption>, b: &Vec<PermOption>) -> (same: bool)
    ensures
        same == (types::options_view(a@) == types::options_view(b@)),
{
    if a.len() != b.len() {
        assert(types::options_view(a@).len() != types::options_view(b@).len());
        return false;
    }
    let mut i: usize = 0;
    while i < a.len()
        invariant
            i <= a@.len() == b@.len(),
            forall|j: int|
                0 <= j < i ==> #[trigger] types::options_view(a@)[j] == types::options_view(b@)[j],
        decreases a@.len() - i,
    {
        assert(types::options_view(a@)[i as int] == a@[i as int]@);
        assert(types::options_view(b@)[i as int] == b@[i as int]@);
        if !same_text(a[i].id.as_str(), b[i].id.as_str()) || !same_text(
            a[i].name.as_str(),
            b[i].name.as_str(),
        ) || !same_text(a[i].kind.as_str(), b[i].kind.as_str()) {
            assert(types::options_view(a@)[i as int] != types::options_view(b@)[i as int]);
            return false;
        }
        i += 1;
    }
    assert(types::options_view(a@) =~= types::options_view(b@));
    true
}

} // verus!
