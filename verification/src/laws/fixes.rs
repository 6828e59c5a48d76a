//! The fixes of failed commands: when one is asked for, offered, run and
//! withdrawn.
use crate::app::autofix;
use crate::app::autofix::fill_parent;
use crate::app::cards;
use crate::app::model::AppView;
use crate::app::notifications;
use crate::app::notifications::{finished_command, WtEventSeverity};
use crate::app::state::App;
use crate::app::types::{
    AutofixDecision, ChatView, ContextView, EffectView, EventContext, ParsedResponse,
    TurnView,
};
use crate::coordinator;
use crate::coordinator::{ActionView, ChoiceView, RecommendationChoice, SetView};
use crate::json;
use crate::json::{Json, JsonView};
use crate::text;
use vstd::prelude::*;

verus! {

/// The event that tells the terminal how the fix for a pane stands.
pub open spec fn fix_state(
    state: Seq<char>,
    pane: Seq<char>,
    more: Seq<(Seq<char>, JsonView)>,
) -> EffectView {
    EffectView::Publish(
        json::compact_json(
            JsonView::Object(
                seq![
                    ("type"@, JsonView::Text("event"@)),
                    ("method"@, JsonView::Text("autofix_state"@)),
                    (
                        "params"@,
                        JsonView::Object(
                            seq![
                                ("state"@, JsonView::Text(state)),
                                ("session_id"@, JsonView::Text(pane)),
                            ] + more,
                        ),
                    ),
                ],
            ),
        ),
    )
}

/// The marker of a finished command carries its exit code; one without a number
/// tells of a failure, and no other marker tells of an exit.
pub proof fn law_markers_tell_the_exit_code(
    sequence: &str,
    code: Option<i32>,
    number: Seq<char>,
    n: i32,
)
    requires
        call_ensures(finished_command, (sequence,), code),
    ensures
        sequence@ == "osc:133;D"@ ==> code == Some(-1i32),
        sequence@ == "osc:133;D;"@ + number && text::spelled_i32(text::trimmed(number)) == Some(n)
            ==> code == Some(n),
        sequence@ == "osc:133;D;"@ + number && text::spelled_i32(text::trimmed(number)) is None
            ==> code == Some(-1i32),
        !text::has_prefix(sequence@, "osc:133;D"@) ==> code is None,
{
    reveal_strlit("osc:133;");
    reveal_strlit("osc:133;D");
    reveal_strlit("osc:133;D;");
    reveal_strlit("D");
    reveal_strlit("D;");
    let s = sequence@;
    if s == "osc:133;D"@ {
        assert(s.subrange(0, 8) =~= "osc:133;"@);
        assert(s.skip(8) =~= "D"@);
    }
    if s == "osc:133;D;"@ + number {
        assert(s.subrange(0, 8) =~= "osc:133;"@);
        let rest = s.skip(8);
        assert(rest.subrange(0, 2) =~= "D;"@);
        assert(rest.skip(2) =~= number);
        assert(rest.len() != 1);
    }
    if text::has_prefix(s, "osc:133;"@) {
        let rest = s.skip(8);
        assert(forall|i: int| 0 <= i < 8 ==> s[i] == #[trigger] s.subrange(0, 8)[i]);
        if rest == "D"@ {
            assert(rest[0] == 'D');
            assert(s.subrange(0, 9) =~= "osc:133;D"@);
        }
        if text::has_prefix(rest, "D;"@) {
            assert(rest.subrange(0, 2)[0] == 'D');
            assert(s.subrange(0, 9) =~= "osc:133;D"@);
        }
    }
}

/// A command that failed: an ordinary pane told the exit code `code`.
pub open spec fn tells_failure(
    app: AppView,
    method: Seq<char>,
    session: Seq<char>,
    params: JsonView,
    ctx: EventContext,
    code: i32,
) -> bool {
    &&& method == "vt_sequence"@
    &&& params.get("sequence"@) matches Some(JsonView::Text(sequence))
    &&& notifications::command_exit(sequence) == Some(code)
    &&& code != 0
    &&& app.pane_session_id != Some(session)
    &&& !ctx.agent_pane
}

/// A failure that is new makes the application ask the agent for a diagnosis:
/// the prompt tells of the exit code, its context names the pane that failed, no
/// earlier recommendation is left, and an answer to an earlier failure no longer
/// counts.
pub proof fn law_failures_are_diagnosed(
    app: &mut App,
    method: &str,
    session: &str,
    params: &Json,
    ctx: &EventContext,
    code: i32,
)
    requires
        call_ensures(App::handle_wt_event, (app, method, session, params, ctx), ()),
        tells_failure(old(app)@, method@, session@, params@, *ctx, code),
        old(app)@.autofix_enabled,
        old(app)@.state is Connected,
        !(old(app)@.autofix_session_id == Some(session@) && old(app)@.prompt_in_flight),
    ensures
        ({
            let before = old(app)@;
            let after = final(app)@;
            let failure = "Command failed (exit "@ + text::signed_decimal(code as int) + ")"@;
            &&& after.recommendations is None
            &&& after.prompt_in_flight
            &&& !after.agent_streaming
            &&& after.autofix_session_id == Some(session@)
            &&& after.suggested_session_id is None
            &&& after.autofix_generation == before.autofix_generation.wrapping_add(1)
            &&& after.inflight_autofix_generation == Some(after.autofix_generation)
            &&& after.current_prompt_id == Some(ctx.ticket.id)
            &&& after.messages == before.messages.push(ChatView::Error(failure))
            &&& after.show_notification_banner
            &&& after.input == before.input
            &&& after.completed_turns == before.completed_turns
            &&& after.effects == before.effects + seq![
                EffectView::SubmitPrompt {
                    id: ctx.ticket.id,
                    prompt: failure + "\nDiagnose the error and suggest a fix."@,
                    context: ContextView {
                        session_id: before.pane_session_id,
                        tab_id: before.tab_id,
                        window_id: before.window_id,
                        cwd: before.source_cwd,
                        source_session_id: Some(session@),
                    },
                    autofix: true,
                },
                fix_state("pending"@, session@, seq![("summary"@, JsonView::Text(failure))]),
            ]
        }),
{
    lemma_words();
    let before = old(app)@;
    let failure = "Command failed (exit "@ + text::signed_decimal(code as int) + ")"@;
    assert(notifications::classified(method@, session@, params@).severity
        == WtEventSeverity::Actionable);
    assert(final(app)@.effects =~= before.effects + seq![
        EffectView::SubmitPrompt {
            id: ctx.ticket.id,
            prompt: failure + "\nDiagnose the error and suggest a fix."@,
            context: ContextView {
                session_id: before.pane_session_id,
                tab_id: before.tab_id,
                window_id: before.window_id,
                cwd: before.source_cwd,
                source_session_id: Some(session@),
            },
            autofix: true,
        },
        fix_state("pending"@, session@, seq![("summary"@, JsonView::Text(failure))]),
    ]);
}

proof fn lemma_words()
    ensures
        "vt_sequence"@.len() == 11 && "vt_sequence"@[0] == 'v',
        "agent_event"@.len() == 11 && "agent_event"@[0] == 'a',
        "tab_changed"@.len() == 11 && "tab_changed"@[0] == 't',
        "autofix_execute"@.len() == 15,
        "agent_prompt"@.len() == 12,
        "connection_state"@.len() == 16,
        "failed"@.len() == 6 && "failed"@[0] == 'f',
        "closed"@.len() == 6 && "closed"@[0] == 'c',
        "connected"@.len() == 9,
        "unknown"@.len() == 7,
{
    reveal_strlit("vt_sequence");
    reveal_strlit("agent_event");
    reveal_strlit("tab_changed");
    reveal_strlit("autofix_execute");
    reveal_strlit("agent_prompt");
    reveal_strlit("connection_state");
    reveal_strlit("failed");
    reveal_strlit("closed");
    reveal_strlit("connected");
    reveal_strlit("unknown");
}

/// While the diagnosis of a failure is on its way, a request to run the fix runs
/// nothing: the terminal is told that there is none.
pub proof fn law_no_fix_runs_before_its_answer(
    app: &mut App,
    method: &str,
    session: &str,
    params: &Json,
    ctx: &EventContext,
    code: i32,
    later: &mut App,
    asked: &str,
    pane: &str,
    other: &Json,
    then: &EventContext,
)
    requires
        call_ensures(App::handle_wt_event, (app, method, session, params, ctx), ()),
        tells_failure(old(app)@, method@, session@, params@, *ctx, code),
        old(app)@.autofix_enabled,
        old(app)@.state is Connected,
        !(old(app)@.autofix_session_id == Some(session@) && old(app)@.prompt_in_flight),
        old(later)@ == final(app)@,
        asked@ == "autofix_execute"@,
        call_ensures(App::handle_wt_event, (later, asked, pane, other, then), ()),
    ensures
        final(later)@.effects == old(later)@.effects.push(
            fix_state("cleared"@, pane@, Seq::empty()),
        ),
{
    law_failures_are_diagnosed(app, method, session, params, ctx, code);
    assert(seq![
        ("state"@, JsonView::Text("cleared"@)),
        ("session_id"@, JsonView::Text(pane@)),
    ] + Seq::empty() =~= seq![
        ("state"@, JsonView::Text("cleared"@)),
        ("session_id"@, JsonView::Text(pane@)),
    ]);
}

/// A failure that is told again while its diagnosis is on its way is only told of.
pub proof fn law_repeated_failures_are_not_asked_again(
    app: &mut App,
    method: &str,
    session: &str,
    params: &Json,
    ctx: &EventContext,
    code: i32,
)
    requires
        call_ensures(App::handle_wt_event, (app, method, session, params, ctx), ()),
        tells_failure(old(app)@, method@, session@, params@, *ctx, code),
        old(app)@.autofix_enabled,
        old(app)@.state is Connected,
        old(app)@.autofix_session_id == Some(session@),
        old(app)@.prompt_in_flight,
    ensures
        ({
            let before = old(app)@;
            let after = final(app)@;
            let failure = "Command failed (exit "@ + text::signed_decimal(code as int) + ")"@;
            &&& after.effects == before.effects.push(
                fix_state("pending"@, session@, seq![("summary"@, JsonView::Text(failure))]),
            )
            &&& after.recommendations == before.recommendations
            &&& after.autofix_generation == before.autofix_generation
            &&& after.messages == before.messages
        }),
{
    lemma_words();
    assert(notifications::classified(method@, session@, params@).severity
        == WtEventSeverity::Actionable);
}

/// The action as it is carried out for a pane: input for no pane goes to it.
pub open spec fn goes_to(action: ActionView, pane: Seq<char>) -> ActionView {
    match action {
        ActionView::Send { parent, input } => if parent.len() == 0 {
            ActionView::Send { parent: pane, input }
        } else {
            action
        },
        _ => action,
    }
}

/// A choice that is aimed at a pane is the same choice, but that input for no
/// pane goes to that one.
pub proof fn law_choices_are_aimed(choice: &RecommendationChoice, pane: &str, r: RecommendationChoice)
    requires
        call_ensures(fill_parent, (choice, pane), r),
    ensures
        r@.choice == choice@.choice,
        r@.title == choice@.title,
        r@.rationale == choice@.rationale,
        r@.actions.len() == choice@.actions.len(),
        forall|i: int|
            0 <= i < choice@.actions.len() ==> #[trigger] r@.actions[i] == goes_to(
                choice@.actions[i],
                pane@,
            ),
{
}

/// Asked to run the fix for the pane that it is for, the application runs one
/// choice: the one that is recommended, and else the one that is selected.
pub proof fn law_fixes_run_on_request(
    app: &mut App,
    method: &str,
    pane: &str,
    params: &Json,
    ctx: &EventContext,
    set: SetView,
    i: int,
)
    requires
        method@ == "autofix_execute"@,
        call_ensures(App::handle_wt_event, (app, method, pane, params, ctx), ()),
        old(app)@.autofix_session_id == Some(pane@),
        old(app)@.recommendations == Some(set),
        0 <= i < set.choices.len(),
        match set.recommended_choice {
            Some(number) => (set.choices[i].choice == number && forall|j: int|
                0 <= j < i ==> (#[trigger] set.choices[j]).choice != number) || (i == 0 && forall|
                j: int,
            |
                0 <= j < set.choices.len() ==> (#[trigger] set.choices[j]).choice != number),
            None => i == old(app)@.selected_recommendation,
        },
    ensures
        ({
            let before = old(app)@;
            let after = final(app)@;
            let n = before.effects.len() as int;
            &&& after.effects.len() == n + 2
            &&& after.effects.take(n) == before.effects
            &&& after.effects[n] matches EffectView::ExecuteChoice { choice, insert_only }
            &&& !insert_only
            &&& choice.choice == set.choices[i].choice
            &&& choice.title == set.choices[i].title
            &&& choice.actions.len() == set.choices[i].actions.len()
            &&& forall|j: int|
                0 <= j < choice.actions.len() ==> #[trigger] choice.actions[j] == goes_to(
                    set.choices[i].actions[j],
                    pane@,
                )
            &&& after.effects[n + 1] == fix_state("cleared"@, pane@, Seq::empty())
            &&& after.recommendations is None
            &&& after.autofix_session_id is None
        }),
{
    if let Some(number) = set.recommended_choice {
        lemma_first_choice(set.choices, number, 0, i);
    }
    assert(seq![
        ("state"@, JsonView::Text("cleared"@)),
        ("session_id"@, JsonView::Text(pane@)),
    ] + Seq::empty() =~= seq![
        ("state"@, JsonView::Text("cleared"@)),
        ("session_id"@, JsonView::Text(pane@)),
    ]);
    assert(final(app)@.effects.take(old(app)@.effects.len() as int) =~= old(app)@.effects);
}

proof fn lemma_first_choice(choices: Seq<ChoiceView>, number: usize, from: int, i: int)
    requires
        0 <= from <= choices.len(),
        0 <= i < choices.len(),
    ensures
        from <= i && choices[i].choice == number && (forall|j: int|
            from <= j < i ==> (#[trigger] choices[j]).choice != number) ==> coordinator::choice_at(
            choices,
            number,
            from,
        ) == Some(i),
        (forall|j: int| from <= j < choices.len() ==> (#[trigger] choices[j]).choice != number)
            ==> coordinator::choice_at(choices, number, from) is None,
    decreases choices.len() - from,
{
    if from < choices.len() && choices[from].choice != number {
        lemma_first_choice(choices, number, from + 1, i);
    }
}

/// A request for another pane, or for one without a fix, runs nothing.
pub proof fn law_requests_without_a_fix_run_nothing(
    app: &mut App,
    method: &str,
    pane: &str,
    params: &Json,
    ctx: &EventContext,
)
    requires
        method@ == "autofix_execute"@,
        call_ensures(App::handle_wt_event, (app, method, pane, params, ctx), ()),
        old(app)@.autofix_session_id != Some(pane@) || old(app)@.recommendations is None,
    ensures
        final(app)@.effects == old(app)@.effects.push(fix_state("cleared"@, pane@, Seq::empty())),
        final(app)@.recommendations == old(app)@.recommendations,
        old(app)@.autofix_session_id != Some(pane@) ==> final(app)@.autofix_session_id
            == old(app)@.autofix_session_id,
{
    assert(seq![
        ("state"@, JsonView::Text("cleared"@)),
        ("session_id"@, JsonView::Text(pane@)),
    ] + Seq::empty() =~= seq![
        ("state"@, JsonView::Text("cleared"@)),
        ("session_id"@, JsonView::Text(pane@)),
    ]);
}

/// The answer to a failure offers its fix, explains it, or leaves it: a fix is
/// offered to be run later, an explanation is kept as a turn of the conversation,
/// and a failure that is left is forgotten. Nothing is run by the answer itself.
pub proof fn law_diagnoses_are_offered(before: AppView, decision: AutofixDecision, pane: Seq<char>)
    requires
        before.autofix_session_id == Some(pane),
        before.inflight_autofix_generation == Some(before.autofix_generation)
            || before.inflight_autofix_generation is None,
        !text::blank(before.pending_agent_response),
    ensures
        ({
            let after = before.with_message_end(ParsedResponse::Autofix(decision));
            &&& !after.prompt_in_flight
            &&& !after.agent_streaming
            &&& after.pending_agent_response.len() == 0
            &&& match decision {
                AutofixDecision::Fix(set) => {
                    &&& after.recommendations == Some(set@)
                    &&& after.selected_recommendation == coordinator::recommended_index(
                        set@,
                    ) as usize
                    &&& after.autofix_session_id == Some(pane)
                    &&& after.completed_turns == before.completed_turns
                    &&& after.effects == before.effects.push(
                        fix_state(
                            "armed"@,
                            pane,
                            seq![
                                ("fix_preview"@, JsonView::Text(cards::fix_preview(set@))),
                                ("hotkey_hint"@, JsonView::Text("Ctrl+Alt+."@)),
                            ],
                        ),
                    )
                },
                AutofixDecision::Explain { title, explanation } => {
                    &&& after.recommendations is None
                    &&& after.autofix_session_id is None
                    &&& after.suggested_session_id == Some(pane)
                    &&& after.completed_turns.len() == before.completed_turns.len() + 1
                    &&& after.completed_turns.last().prompt == "Auto-diagnosed error in pane "@
                        + pane
                    &&& after.completed_turns.last().details.last() == ChatView::Agent(
                        explanation@,
                    )
                    &&& after.expanded_history == after.selected_history
                    &&& after.selected_history == Some(before.completed_turns.len() as usize)
                    &&& after.effects == before.effects.push(
                        fix_state(
                            "suggested"@,
                            pane,
                            seq![("suggestion_title"@, JsonView::Text(title@))],
                        ),
                    )
                },
                AutofixDecision::Ignore => {
                    &&& after.recommendations is None
                    &&& after.autofix_session_id is None
                    &&& after.completed_turns == before.completed_turns
                    &&& after.effects == before.effects.push(
                        fix_state("cleared"@, pane, Seq::empty()),
                    )
                },
            }
        }),
{
    assert(seq![("state"@, JsonView::Text("cleared"@)), ("session_id"@, JsonView::Text(pane))]
        + Seq::empty() =~= seq![
        ("state"@, JsonView::Text("cleared"@)),
        ("session_id"@, JsonView::Text(pane)),
    ]);
}

/// The answer to a prompt of the user is offered as choices where it holds any,
/// and is else kept as a turn of the conversation, with the prompt.
pub proof fn law_answers_are_offered(
    before: AppView,
    r: Result<coordinator::RecommendationSet, String>,
    prompt: Seq<char>,
)
    requires
        before.autofix_session_id is None,
        before.inflight_autofix_generation is None,
        before.current_prompt_text == Some(prompt),
        !text::blank(before.pending_agent_response),
    ensures
        ({
            let after = before.with_message_end(ParsedResponse::Recommendations(r));
            &&& !after.prompt_in_flight
            &&& !after.agent_streaming
            &&& after.pending_agent_response.len() == 0
            &&& after.effects == before.effects
            &&& after.messages.len() == 0
            &&& match r {
                Ok(set) => {
                    &&& after.recommendations == Some(set@)
                    &&& after.selected_recommendation == coordinator::recommended_index(
                        set@,
                    ) as usize
                    &&& after.completed_turns == before.completed_turns
                    &&& after.pending_completed_turn matches Some(turn)
                    &&& turn.prompt == prompt
                    &&& turn.details.last() == ChatView::Agent(before.pending_agent_response)
                },
                Err(_) => {
                    &&& after.recommendations is None
                    &&& after.completed_turns.len() == before.completed_turns.len() + 1
                    &&& after.completed_turns.drop_last() == before.completed_turns
                    &&& after.completed_turns.last().prompt == prompt
                    &&& after.completed_turns.last().details.last() == ChatView::Agent(
                        before.pending_agent_response,
                    )
                    &&& after.selected_history == Some(before.completed_turns.len() as usize)
                },
            }
        }),
{
    if r is Err {
        assert(before.with_message_end(
            ParsedResponse::Recommendations(r),
        ).completed_turns.drop_last() =~= before.completed_turns);
    }
}

/// A command that succeeds in the pane that a fix is for withdraws the fix; it
/// also ends a suggestion, as a new prompt of the shell does.
pub proof fn law_success_withdraws_the_fix(
    app: &mut App,
    method: &str,
    session: &str,
    params: &Json,
    ctx: &EventContext,
    sequence: Seq<char>,
)
    requires
        call_ensures(App::handle_wt_event, (app, method, session, params, ctx), ()),
        method@ == "vt_sequence"@,
        params@.get("sequence"@) == Some(JsonView::Text(sequence)),
        old(app)@.pane_session_id != Some(session@),
        !ctx.agent_pane,
    ensures
        notifications::command_exit(sequence) == Some(0i32) && old(app)@.autofix_session_id == Some(
            session@,
        ) ==> {
            &&& final(app)@.recommendations is None
            &&& final(app)@.autofix_session_id is None
            &&& !final(app)@.prompt_in_flight
            &&& final(app)@.autofix_generation == old(app)@.autofix_generation.wrapping_add(1)
            &&& final(app)@.effects.len() > old(app)@.effects.len()
            &&& final(app)@.effects[old(app)@.effects.len() as int] == fix_state(
                "cleared"@,
                session@,
                Seq::empty(),
            )
        },
        notifications::command_exit(sequence) == Some(0i32) && old(app)@.autofix_session_id != Some(
            session@,
        ) ==> {
            &&& final(app)@.recommendations == old(app)@.recommendations
            &&& final(app)@.autofix_session_id == old(app)@.autofix_session_id
            &&& final(app)@.autofix_generation == old(app)@.autofix_generation
        },
        (notifications::command_exit(sequence) == Some(0i32) || (sequence == "osc:133;A"@
            && notifications::command_exit(sequence) is None))
            ==> final(app)@.suggested_session_id is None,
{
    lemma_words();
    assert(seq![("state"@, JsonView::Text("cleared"@)), ("session_id"@, JsonView::Text(session@))]
        + Seq::empty() =~= seq![
        ("state"@, JsonView::Text("cleared"@)),
        ("session_id"@, JsonView::Text(session@)),
    ]);
}

} // verus!
