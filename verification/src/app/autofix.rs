//! Fixes for failed commands, and what becomes of the agent's answers.
use super::cards;
use super::cards::{armed_fix_preview, is_previewable};
use super::model;
use super::model::AppView;
use super::notifications::{NotificationView, WtNotification};
use super::state::App;
use super::types;
use super::types::{
    AutofixDecision, ChatMessage, ChatView, CompletedTurn, ContextView, Effect, EffectView,
    PaneContext, ParsedResponse, PromptTicket, TurnView,
};
use crate::coordinator;
use crate::coordinator::{
    parse_recommendation_set, recommended_choice_index, text_ref,
    validate_recommendation_set_for_coordinator_target, ActionView, ChoiceView,
    RecommendationChoice, RecommendationSet, RecommendedAction, SetView,
};
use crate::json;
use crate::json::JsonView;
use crate::text;
use crate::text::{clone_text, is_blank, same_text};
use vstd::prelude::*;

verus! {

/// What the handling of an answer led to.
#[derive(Debug, Clone, Copy, PartialEq, Eq, Structural)]
pub enum FinalizeOutcome {
    NothingToChoose,
    SelectionReady,
}

/// The choice with `pane` as the target of input that names no pane.
pub open spec fn aimed(choice: ChoiceView, pane: Seq<char>) -> ChoiceView {
    ChoiceView {
        actions: choice.actions.map_values(
            |action: ActionView|
                match action {
                    ActionView::Send { parent, input } => ActionView::Send {
                        parent: if parent.len() == 0 {
                            pane
                        } else {
                            parent
                        },
                        input,
                    },
                    _ => action,
                },
        ),
        ..choice
    }
}

/// The choice with `pane` as the target of input that names no pane.
pub fn fill_parent(choice: &RecommendationChoice, pane: &str) -> (filled: RecommendationChoice)
    ensures
        filled@ == aimed(choice@, pane@),
{
    let mut actions: Vec<RecommendedAction> = Vec::new();
    let ghost wanted = aimed(choice@, pane@).actions;
    let mut i: usize = 0;
    while i < choice.actions.len()
        invariant
            i <= choice.actions@.len(),
            wanted == aimed(choice@, pane@).actions,
            coordinator::actions_view(actions@) == wanted.take(i as int),
        decreases choice.actions@.len() - i,
    {
        let ghost earlier = actions@;
        let action = match &choice.actions[i] {
            RecommendedAction::Send { parent, input } => RecommendedAction::Send {
                parent: if parent.as_str().is_empty() {
                    pane.to_owned()
                } else {
                    parent.clone()
                },
                input: input.clone(),
            },
            RecommendedAction::OpenAndSend { .. } => choice.actions[i].clone(),
        };
        assert(choice@.actions[i as int] == choice.actions@[i as int]@);
        assert(wanted[i as int] == action@);
        actions.push(action);
        i += 1;
        assert(coordinator::actions_view(actions@) =~= coordinator::actions_view(earlier).push(
            action@,
        ));
        assert(wanted.take(i as int) =~= wanted.take(i - 1).push(wanted[i - 1]));
    }
    assert(wanted.take(i as int) =~= wanted);
    RecommendationChoice {
        choice: choice.choice,
        title: choice.title.clone(),
        rationale: choice.rationale.clone(),
        actions,
    }
}

impl AppView {
    /// A fix for another failure is looked for: what was on its way counts no
    /// more.
    pub open spec fn with_fix_superseded(self, pane: Seq<char>) -> AppView {
        AppView {
            agent_streaming: false,
            prompt_in_flight: false,
            suggested_session_id: None,
            autofix_session_id: Some(pane),
            ..AppView {
                autofix_generation: self.autofix_generation.wrapping_add(1),
                ..self
            }.without_recommendations()
        }
    }

    /// The prompt that asks for a fix is on its way.
    pub open spec fn with_fix_prompt(self, ticket: PromptTicket) -> AppView {
        AppView {
            prompt_in_flight: true,
            inflight_autofix_generation: Some(self.autofix_generation),
            progress_status: Some("Preparing context..."@),
            activity_frame: 0,
            current_prompt_id: Some(ticket.id),
            current_prompt_stamp: Some(ticket.stamp),
            ..self
        }
    }

    /// Where the prompt for a fix comes from: the pane of the failure is its
    /// source.
    pub open spec fn fix_context(self, pane: Seq<char>) -> ContextView {
        ContextView { source_session_id: Some(pane), ..self.own_context() }
    }

    /// The state of the fix for a pane is told.
    pub open spec fn publishes_pending(self, pane: Seq<char>, summary: Seq<char>) -> AppView {
        self.publishes(
            model::fix_event("pending"@, pane, seq![("summary"@, JsonView::Text(summary))]),
        )
    }

    /// A failed command was reported: unless fixes are off or the agent is not
    /// connected, the agent is asked for one. Where it already works on that
    /// pane, only the summary is told anew.
    pub open spec fn with_failure(self, n: NotificationView, ticket: PromptTicket) -> AppView {
        if !self.autofix_enabled || !(self.state is Connected) {
            self
        } else if self.autofix_session_id == Some(n.session_id) && self.prompt_in_flight {
            self.publishes_pending(n.session_id, n.summary)
        } else {
            let told = self.with_fix_superseded(n.session_id).says(
                ChatView::Error(n.summary),
            ).scrolled_down().with_fix_prompt(ticket);
            told.asks(
                EffectView::SubmitPrompt {
                    id: ticket.id,
                    prompt: n.summary + "\nDiagnose the error and suggest a fix."@,
                    context: told.fix_context(n.session_id),
                    autofix: true,
                },
            ).publishes_pending(n.session_id, n.summary)
        }
    }

    /// No pane waits for a fix.
    pub open spec fn without_fix(self) -> AppView {
        AppView { autofix_session_id: None, ..self }
    }

    /// A choice is handed over to be carried out.
    pub open spec fn executes(self, choice: ChoiceView, insert_only: bool) -> AppView {
        self.with_committed_turn().without_recommendations().asks(
            EffectView::ExecuteChoice { choice, insert_only },
        )
    }

    /// The choice that runs when the user asks for the fix: the recommended one,
    /// and where none is recommended the selected one, or the last one where the
    /// selection is past the end.
    pub open spec fn fix_choice(self, set: SetView) -> Option<ChoiceView> {
        if set.choices.len() == 0 {
            None
        } else {
            Some(
                set.choices[if set.recommended_choice is Some {
                    coordinator::recommended_index(set)
                } else if self.selected_recommendation < set.choices.len() {
                    self.selected_recommendation as int
                } else {
                    set.choices.len() - 1
                }],
            )
        }
    }

    /// The user asks to run the fix for a pane. It runs only where it is the
    /// one on offer; either way the offer ends.
    pub open spec fn with_fix_requested(self, pane: Seq<char>) -> AppView {
        if self.autofix_session_id != Some(pane) {
            self.publishes_cleared(pane)
        } else {
            let choice = match self.recommendations {
                Some(set) => self.fix_choice(set),
                None => None,
            };
            match choice {
                None => self.publishes_cleared(pane).without_fix(),
                Some(choice) => self.without_fix().executes(
                    aimed(choice, pane),
                    false,
                ).publishes_cleared(pane),
            }
        }
    }

    /// The answer on its way belongs to a fix that counts no more.
    pub open spec fn is_stale(self) -> bool {
        self.inflight_autofix_generation matches Some(generation) && generation
            != self.autofix_generation
    }

    /// The answer is complete.
    pub open spec fn with_stream_ended(self) -> AppView {
        AppView {
            agent_streaming: false,
            prompt_in_flight: false,
            progress_status: None,
            pending_thought_response: Seq::empty(),
            activity_frame: 0,
            inflight_autofix_generation: None,
            ..self
        }
    }

    /// The answer is dropped.
    pub open spec fn without_answer(self) -> AppView {
        AppView { pending_agent_response: Seq::empty(), ..self }
    }

    /// Recommendations are on offer.
    pub open spec fn offers(self, set: SetView) -> AppView {
        AppView {
            selected_recommendation: coordinator::recommended_index(set) as usize,
            recommendations: Some(set),
            selection_visible_pending: true,
            ..self
        }
    }

    /// The answer held no recommendations: it becomes part of the history.
    pub open spec fn with_plain_answer(self, answer: Seq<char>) -> AppView {
        let cleared = AppView {
            pending_completed_turn: None,
            ..self.without_recommendations()
        };
        if cleared.current_prompt_text is Some {
            cleared.with_staged_turn(answer).with_committed_turn().with_new_chat()
        } else {
            cleared.at_rest()
        }
    }

    /// The explanation of a failure becomes an open turn of the history.
    pub open spec fn with_explanation(
        self,
        pane: Seq<char>,
        title: Seq<char>,
        explanation: Seq<char>,
    ) -> AppView {
        let staged = AppView {
            pending_completed_turn: Some(
                TurnView {
                    prompt: "Auto-diagnosed error in pane "@ + pane,
                    details: model::not_by_user(self.messages).push(ChatView::Agent(explanation)),
                },
            ),
            ..self
        };
        let committed = staged.with_committed_turn();
        let open = AppView { expanded_history: committed.selected_history, ..committed };
        let told = open.publishes(
            model::fix_event("suggested"@, pane, seq![("suggestion_title"@, JsonView::Text(title))]),
        );
        AppView { suggested_session_id: Some(pane), ..told }.without_fix().without_recommendations()
            .at_rest()
    }

    /// What became of a failure.
    pub open spec fn with_decision(self, pane: Seq<char>, decision: AutofixDecision) -> AppView {
        match decision {
            AutofixDecision::Fix(set) => self.publishes(
                model::fix_event(
                    "armed"@,
                    pane,
                    seq![
                        ("fix_preview"@, JsonView::Text(cards::fix_preview(set@))),
                        ("hotkey_hint"@, JsonView::Text("Ctrl+Alt+."@)),
                    ],
                ),
            ).offers(set@),
            AutofixDecision::Explain { title, explanation } => self.with_explanation(
                pane,
                title@,
                explanation@,
            ),
            AutofixDecision::Ignore => self.without_fix().without_recommendations()
                .publishes_cleared(pane).at_rest(),
        }
    }

    /// The answer leaves something to choose from.
    pub open spec fn has_selection(self, parsed: ParsedResponse) -> bool {
        !text::blank(self.pending_agent_response) && match parsed {
            ParsedResponse::Recommendations(r) => r is Ok,
            ParsedResponse::Autofix(decision) => decision is Fix,
            ParsedResponse::Nothing => false,
        }
    }

    /// What was read from the answer belongs to it.
    pub open spec fn expects(self, parsed: ParsedResponse) -> bool {
        &&& !self.is_stale() && !text::blank(self.pending_agent_response) ==> if self
            .autofix_session_id is Some {
            parsed is Autofix
        } else {
            parsed is Recommendations
        }
        &&& can_show(parsed)
    }

    /// The answer is read.
    pub open spec fn with_answer(self, parsed: ParsedResponse) -> AppView {
        let answer = self.pending_agent_response;
        if text::blank(answer) {
            self
        } else {
            let taken = self.without_answer();
            match (parsed, self.autofix_session_id) {
                (ParsedResponse::Autofix(decision), Some(pane)) => taken.with_decision(
                    pane,
                    decision,
                ),
                (ParsedResponse::Recommendations(Ok(set)), None) => taken.with_staged_turn(
                    answer,
                ).offers(set@),
                (ParsedResponse::Recommendations(Err(_)), None) => taken.with_plain_answer(answer),
                _ => taken,
            }
        }
    }

    /// The agent has answered.
    pub open spec fn with_message_end(self, parsed: ParsedResponse) -> AppView {
        if self.is_stale() {
            self.with_stream_ended().without_answer()
        } else {
            let ended = self.with_stream_ended();
            let read = ended.with_answer(parsed);
            if ended.has_selection(parsed) {
                read.with_turn_put_away()
            } else {
                read.scrolled_down()
            }
        }
    }
}

impl App {
    fn supersede_fix(&mut self, pane: &str)
        ensures
            final(self)@ == old(self)@.with_fix_superseded(pane@),
    {
        self.autofix_generation = self.autofix_generation.wrapping_add(1);
        self.clear_recommendations();
        self.agent_streaming = false;
        self.prompt_in_flight = false;
        self.suggested_session_id = None;
        self.autofix_session_id = Some(pane.to_owned());
    }

    fn start_fix_prompt(&mut self, ticket: PromptTicket)
        ensures
            final(self)@ == old(self)@.with_fix_prompt(ticket),
    {
        self.prompt_in_flight = true;
        self.inflight_autofix_generation = Some(self.autofix_generation);
        self.progress_status = Some("Preparing context...".to_owned());
        self.activity_frame = 0;
        self.current_prompt_id = Some(ticket.id);
        self.current_prompt_stamp = Some(ticket.stamp);
    }

    fn fix_context(&self, pane: &str) -> (context: PaneContext)
        ensures
            context@ == self@.fix_context(pane@),
    {
        PaneContext {
            session_id: clone_text(&self.pane_session_id),
            tab_id: clone_text(&self.tab_id),
            window_id: clone_text(&self.window_id),
            cwd: clone_text(&self.source_cwd),
            source_session_id: Some(pane.to_owned()),
        }
    }

    /// Asks the agent for a fix of a failed command.
    pub(crate) fn maybe_trigger_autofix(
        &mut self,
        notification: &WtNotification,
        ticket: PromptTicket,
    )
        ensures
            final(self)@ == old(self)@.with_failure(notification@, ticket),
    {
        if !self.autofix_enabled || !self.state.is_connected() {
            return;
        }
        let pane = notification.session_id.as_str();
        let summary = notification.summary.as_str();
        if self.waits_for_fix(pane) && self.prompt_in_flight {
            self.emit_autofix_state_pending(pane, summary);
            return;
        }
        self.supersede_fix(pane);
        self.say(ChatMessage::Error(notification.summary.clone()));
        self.scroll_to_bottom();
        self.start_fix_prompt(ticket);
        let mut prompt = summary.to_owned();
        prompt.append("\nDiagnose the error and suggest a fix.");
        let context = self.fix_context(pane);
        self.ask(Effect::SubmitPrompt { id: ticket.id, prompt, context, autofix: true });
        self.emit_autofix_state_pending(pane, summary);
    }

    /// Whether a fix for the pane is on offer or on its way.
    pub(crate) fn waits_for_fix(&self, pane: &str) -> (yes: bool)
        ensures
            yes == (self@.autofix_session_id == Some(pane@)),
    {
        match &self.autofix_session_id {
            Some(id) => same_text(id.as_str(), pane),
            None => false,
        }
    }

    pub(crate) fn forget_fix(&mut self)
        ensures
            final(self)@ == old(self)@.without_fix(),
    {
        self.autofix_session_id = None;
    }

    /// Hands a choice over to be carried out.
    pub(crate) fn execute(&mut self, choice: RecommendationChoice, insert_only: bool)
        ensures
            final(self)@ == old(self)@.executes(choice@, insert_only),
    {
        self.commit_pending_completed_turn();
        self.clear_recommendations();
        self.ask(Effect::ExecuteChoice { choice, insert_only });
    }

    /// The choice that runs when the user asks for the fix, aimed at `pane`.
    fn fix_to_run(&self, pane: &str) -> (choice: Option<RecommendationChoice>)
        ensures
            match (self@.recommendations, choice) {
                (Some(set), Some(choice)) => self@.fix_choice(set) matches Some(wanted) && choice@
                    == aimed(wanted, pane@),
                (Some(set), None) => self@.fix_choice(set) is None,
                (None, choice) => choice is None,
            },
    {
        let set = match &self.recommendations {
            Some(set) => set,
            None => return None,
        };
        let n: usize = set.choices.len();
        if n == 0 {
            return None;
        }
        let i: usize = if set.recommended_choice.is_some() {
            recommended_choice_index(set)
        } else if self.selected_recommendation < n {
            self.selected_recommendation
        } else {
            n - 1
        };
        assert(set@.choices[i as int] == set.choices@[i as int]@);
        Some(fill_parent(&set.choices[i], pane))
    }

    /// Runs the fix for a pane, where it is the one on offer.
    pub(crate) fn handle_autofix_execute_request(&mut self, requested_session_id: &str)
        ensures
            final(self)@ == old(self)@.with_fix_requested(requested_session_id@),
    {
        if !self.waits_for_fix(requested_session_id) {
            self.emit_autofix_state_cleared(requested_session_id);
            return;
        }
        match self.fix_to_run(requested_session_id) {
            None => {
                self.emit_autofix_state_cleared(requested_session_id);
                self.forget_fix();
            },
            Some(choice) => {
                self.forget_fix();
                self.execute(choice, false);
                self.emit_autofix_state_cleared(requested_session_id);
            },
        }
    }

    fn end_stream(&mut self)
        ensures
            final(self)@ == old(self)@.with_stream_ended(),
    {
        self.agent_streaming = false;
        self.prompt_in_flight = false;
        self.progress_status = None;
        self.pending_thought_response = String::new();
        self.activity_frame = 0;
        self.inflight_autofix_generation = None;
    }

    fn take_answer(&mut self) -> (answer: String)
        ensures
            answer@ == old(self)@.pending_agent_response,
            final(self)@ == old(self)@.without_answer(),
    {
        let answer = self.pending_agent_response.clone();
        self.pending_agent_response = String::new();
        answer
    }

    fn offer(&mut self, set: RecommendationSet)
        ensures
            final(self)@ == old(self)@.offers(set@),
    {
        self.selected_recommendation = recommended_choice_index(&set);
        self.recommendations = Some(set);
        self.selection_visible_pending = true;
    }

    fn drop_staged_turn(&mut self)
        ensures
            final(self)@ == (AppView { pending_completed_turn: None, ..old(self)@ }),
    {
        self.pending_completed_turn = None;
    }

    fn keep_plain_answer(&mut self, answer: String)
        ensures
            final(self)@ == old(self)@.with_plain_answer(answer@),
    {
        self.clear_recommendations();
        self.drop_staged_turn();
        if self.current_prompt_text.is_some() {
            self.stage_completed_turn(answer);
            self.commit_pending_completed_turn();
            self.clear_chat_history();
        } else {
            self.rest();
        }
    }

    fn stage_turn(&mut self, turn: CompletedTurn)
        ensures
            final(self)@ == (AppView { pending_completed_turn: Some(turn@), ..old(self)@ }),
    {
        self.pending_completed_turn = Some(turn);
    }

    fn expand_selected(&mut self)
        ensures
            final(self)@ == (AppView {
                expanded_history: old(self)@.selected_history,
                ..old(self)@
            }),
    {
        self.expanded_history = self.selected_history;
    }

    fn suggest(&mut self, pane: &str)
        ensures
            final(self)@ == (AppView { suggested_session_id: Some(pane@), ..old(self)@ }),
    {
        self.suggested_session_id = Some(pane.to_owned());
    }

    fn explain(&mut self, pane: &str, title: &str, explanation: String)
        ensures
            final(self)@ == old(self)@.with_explanation(pane@, title@, explanation@),
    {
        let mut prompt = "Auto-diagnosed error in pane ".to_owned();
        prompt.append(pane);
        let mut details = self.current_turn_details();
        let ghost earlier = details@;
        details.push(ChatMessage::Agent(explanation));
        assert(types::chat_view(details@) =~= types::chat_view(earlier).push(
            ChatView::Agent(explanation@),
        ));
        self.stage_turn(CompletedTurn { prompt, details });
        self.commit_pending_completed_turn();
        self.expand_selected();
        self.emit_autofix_state_suggested(pane, title);
        self.suggest(pane);
        self.forget_fix();
        self.clear_recommendations();
        self.rest();
    }

    /// Takes what was decided about the failure in a pane.
    fn finalize_autofix_response(&mut self, pane: &str, decision: AutofixDecision)
        requires
            decision matches AutofixDecision::Fix(set) ==> cards::can_preview(set@),
        ensures
            final(self)@ == old(self)@.with_decision(pane@, decision),
    {
        match decision {
            AutofixDecision::Fix(set) => {
                let preview = armed_fix_preview(&set);
                self.emit_autofix_state_armed(pane, preview.as_str());
                self.offer(set);
            },
            AutofixDecision::Explain { title, explanation } => {
                self.explain(pane, title.as_str(), explanation);
            },
            AutofixDecision::Ignore => {
                self.forget_fix();
                self.clear_recommendations();
                self.emit_autofix_state_cleared(pane);
                self.rest();
            },
        }
    }

    /// Takes what was read from the answer.
    fn finalize_agent_response(&mut self, parsed: ParsedResponse) -> (outcome: FinalizeOutcome)
        requires
            can_show(parsed),
            !text::blank(old(self)@.pending_agent_response) ==> if old(self)@.autofix_session_id
                is Some {
                parsed is Autofix
            } else {
                parsed is Recommendations
            },
        ensures
            final(self)@ == old(self)@.with_answer(parsed),
            (outcome == FinalizeOutcome::SelectionReady) == old(self)@.has_selection(parsed),
    {
        if is_blank(self.pending_agent_response.as_str()) {
            return FinalizeOutcome::NothingToChoose;
        }
        let answer = self.take_answer();
        match parsed {
            ParsedResponse::Autofix(decision) => {
                let ready: bool = match &decision {
                    AutofixDecision::Fix(_) => true,
                    _ => false,
                };
                if let Some(pane) = clone_text(&self.autofix_session_id) {
                    self.finalize_autofix_response(pane.as_str(), decision);
                }
                if ready {
                    FinalizeOutcome::SelectionReady
                } else {
                    FinalizeOutcome::NothingToChoose
                }
            },
            ParsedResponse::Recommendations(Ok(set)) => {
                self.stage_completed_turn(answer);
                self.offer(set);
                FinalizeOutcome::SelectionReady
            },
            ParsedResponse::Recommendations(Err(_)) => {
                self.keep_plain_answer(answer);
                FinalizeOutcome::NothingToChoose
            },
            ParsedResponse::Nothing => FinalizeOutcome::NothingToChoose,
        }
    }

    /// Takes the end of the agent's answer, and what was read from it.
    pub(crate) fn end_message(&mut self, parsed: ParsedResponse)
        requires
            old(self)@.expects(parsed),
        ensures
            final(self)@ == old(self)@.with_message_end(parsed),
    {
        let stale: bool = self.is_stale();
        self.end_stream();
        if stale {
            let _ = self.take_answer();
            return;
        }
        match self.finalize_agent_response(parsed) {
            FinalizeOutcome::SelectionReady => self.clear_completed_turn_history(),
            FinalizeOutcome::NothingToChoose => self.scroll_to_bottom(),
        }
    }

    /// Reads the agent's answer. `decode` reads the JSON text of a set of
    /// recommendations, and `decide` the answer to a failed command.
    pub fn read_response<F: Fn(&str) -> Result<RecommendationSet, String>, G: Fn(
        &str,
    ) -> AutofixDecision>(&self, decode: F, decide: G) -> (parsed: ParsedResponse)
        requires
            forall|block: &str| call_requires(decode, (block,)),
            forall|answer: &str| call_requires(decide, (answer,)),
        ensures
            reads(self@, decode, decide, parsed),
    {
        if is_blank(self.pending_agent_response.as_str()) {
            return ParsedResponse::Nothing;
        }
        let answer = self.pending_agent_response.as_str();
        if self.autofix_session_id.is_some() {
            return ParsedResponse::Autofix(decide(answer));
        }
        let first = parse_recommendation_set(answer, decode);
        assert(holds_set(answer@, decode, first));
        match first {
            Ok(set) => match validate_recommendation_set_for_coordinator_target(
                &set,
                text_ref(&self.pane_session_id),
            ) {
                Ok(()) => ParsedResponse::Recommendations(Ok(set)),
                Err(message) => ParsedResponse::Recommendations(Err(message)),
            },
            Err(message) => ParsedResponse::Recommendations(Err(message)),
        }
    }
}

impl App {
    fn is_stale(&self) -> (yes: bool)
        ensures
            yes == self@.is_stale(),
    {
        match self.inflight_autofix_generation {
            Some(generation) => generation != self.autofix_generation,
            None => false,
        }
    }

    /// Takes the end of the agent's answer: reads the answer with the two
    /// decoders of `read_response` and does what it says. An answer that counts
    /// no more is dropped unread. Where the answer is a fix whose preview would
    /// be cut inside a character nothing changes, and the result is false.
    pub fn finish_response<F: Fn(&str) -> Result<RecommendationSet, String>, G: Fn(
        &str,
    ) -> AutofixDecision>(&mut self, decode: F, decide: G) -> (done: bool)
        requires
            forall|block: &str| call_requires(decode, (block,)),
            forall|answer: &str| call_requires(decide, (answer,)),
        ensures
            finishes(old(self)@, decode, decide, final(self)@, done),
    {
        if self.is_stale() {
            self.end_message(ParsedResponse::Nothing);
            return true;
        }
        let parsed = self.read_response(decode, decide);
        assert(reads(self@, decode, decide, parsed));
        if let ParsedResponse::Autofix(AutofixDecision::Fix(set)) = &parsed {
            if !is_previewable(set) {
                return false;
            }
        }
        self.end_message(parsed);
        true
    }
}

/// What was read can be shown: a fix has a preview that ends at the end of a
/// character.
pub open spec fn can_show(parsed: ParsedResponse) -> bool {
    parsed matches ParsedResponse::Autofix(AutofixDecision::Fix(set)) ==> cards::can_preview(set@)
}

/// `after` is what the application is like once its agent has answered: the
/// answer that was pending is read, by `decode` and `decide`, and what it says
/// is done, unless it belongs to a fix that counts no more, or cannot be shown.
pub open spec fn finishes<F: Fn(&str) -> Result<RecommendationSet, String>, G: Fn(
    &str,
) -> AutofixDecision>(app: AppView, decode: F, decide: G, after: AppView, done: bool) -> bool {
    if app.is_stale() {
        done && after == app.with_message_end(ParsedResponse::Nothing)
    } else {
        exists|parsed: ParsedResponse|
            {
                &&& #[trigger] reads(app, decode, decide, parsed)
                &&& done == can_show(parsed)
                &&& after == if done {
                    app.with_message_end(parsed)
                } else {
                    app
                }
            }
    }
}

/// `r` is what the answer says, by `decode`.
pub open spec fn holds_set<F: Fn(&str) -> Result<RecommendationSet, String>>(
    answer: Seq<char>,
    decode: F,
    r: Result<RecommendationSet, String>,
) -> bool {
    match coordinator::recommendation_block(answer) {
        None => r matches Err(message) && message@ == "no recommendation JSON block found"@,
        Some(json) => exists|block: &str, decoded: Result<RecommendationSet, String>|
            {
                &&& block@ == json
                &&& #[trigger] call_ensures(decode, (block,), decoded)
                &&& match decoded {
                    Ok(set) => coordinator::accepts(set, r),
                    Err(reason) => r matches Err(message) && message@
                        == "failed to parse recommendation JSON: "@ + reason@,
                }
            },
    }
}

/// `parsed` is what was read from the answer that is pending: nothing where it
/// is blank, the decision where it answers a failure, and else the
/// recommendations, which must not type into the application's own pane.
pub open spec fn reads<F: Fn(&str) -> Result<RecommendationSet, String>, G: Fn(
    &str,
) -> AutofixDecision>(app: AppView, decode: F, decide: G, parsed: ParsedResponse) -> bool {
    if text::blank(app.pending_agent_response) {
        parsed is Nothing
    } else if app.autofix_session_id is Some {
        parsed matches ParsedResponse::Autofix(decision) && exists|answer: &str|
            answer@ == app.pending_agent_response && #[trigger] call_ensures(
                decide,
                (answer,),
                decision,
            )
    } else {
        parsed matches ParsedResponse::Recommendations(r) && exists|first: Result<
            RecommendationSet,
            String,
        >|
            {
                &&& #[trigger] holds_set(app.pending_agent_response, decode, first)
                &&& match first {
                    Ok(set) => match coordinator::coordinator_fault(set, app.pane_session_id) {
                        None => r == Ok::<RecommendationSet, String>(set),
                        Some(message) => r matches Err(said) && said@ == message,
                    },
                    Err(message) => r matches Err(said) && said@ == message@,
                }
            }
    }
}

/// An answer that belongs to a fix that counts no more changes nothing but that
/// it is no longer waited for: nothing is said, nothing offered and nothing
/// asked for.
pub proof fn law_stale_answers_are_dropped(app: AppView, parsed: ParsedResponse)
    requires
        app.is_stale(),
    ensures
        ({
            let after = app.with_message_end(parsed);
            &&& after.messages == app.messages
            &&& after.completed_turns == app.completed_turns
            &&& after.recommendations == app.recommendations
            &&& after.effects == app.effects
            &&& after.pending_agent_response.len() == 0
            &&& !after.prompt_in_flight
            &&& !after.is_stale()
        }),
{
}

/// Once a set of recommendations is on offer, the choice that its preview shows
/// is the one that runs when the user asks for the fix.
pub proof fn law_preview_shows_what_runs(app: AppView, set: SetView)
    requires
        0 < set.choices.len() <= usize::MAX,
    ensures
        app.offers(set).fix_choice(set) matches Some(choice) && cards::preview_source(set) == Some(
            cards::choice_preview(choice),
        ),
{
    if let Some(number) = set.recommended_choice {
        coordinator::lemma_choice_at(set.choices, number, 0);
    }
}

/// A fix runs only where it is the one on offer for the pane that the user
/// named.
pub proof fn law_fix_runs_only_for_its_pane(app: AppView, pane: Seq<char>)
    ensures
        app.autofix_session_id != Some(pane) ==> app.with_fix_requested(pane)
            == app.publishes_cleared(pane),
        app.autofix_session_id == Some(pane) ==> app.with_fix_requested(pane).autofix_session_id
            is None,
{
}

/// A failure on another pane makes the answer on its way stale.
pub proof fn law_newer_failure_makes_stale(
    app: AppView,
    n: NotificationView,
    ticket: PromptTicket,
    generation: u64,
)
    requires
        app.autofix_enabled,
        app.state is Connected,
        app.autofix_session_id != Some(n.session_id),
        app.inflight_autofix_generation == Some(app.autofix_generation),
        generation == app.autofix_generation,
    ensures
        app.with_failure(n, ticket).autofix_generation != generation,
        app.with_failure(n, ticket).autofix_session_id == Some(n.session_id),
        app.with_failure(n, ticket).prompt_in_flight,
{
}

} // verus!
