//! What the keys do: in the chat, on the cards, to a request for permission, in
//! the list of agents and in the setup.
use crate::app::autofix;
use crate::app::cards;
use crate::app::keys;
use crate::app::keys::{resume_commandline, session_program};
use crate::app::model::AppView;
use crate::app::types::{
    AgentSession, AgentStatus, AppMode, ChatView, CliSource, ContextView, EffectView, EventContext,
    KeyCode, KeyEvent, OptionView, PermissionView, PromptTicket, ResumeProfile, Screen, SessionView,
};
use crate::coordinator::{ActionView, ChoiceView, SetView};
use crate::editing;
use crate::laws::fixes;
use crate::text;
use vstd::prelude::*;

verus! {

/// Which part of the application takes a key: the key that changes the screen
/// comes first, then the list of agents, the setup, a request for permission, and
/// the chat.
pub proof fn law_keys_reach_what_is_in_front(app: AppView, key: KeyEvent, ctx: EventContext)
    ensures
        ({
            let plain = !key.modifiers.shift && !key.modifiers.others;
            let toggles = (key.code == KeyCode::F(2) && plain && !key.modifiers.control) || (key.code
                == KeyCode::Tab && plain && key.modifiers.control);
            let after = app.with_key(key, ctx);
            &&& toggles ==> after == (AppView {
                current_view: if app.current_view == Screen::Chat {
                    Screen::Agents
                } else {
                    Screen::Chat
                },
                ..app
            })
            &&& !toggles && app.current_view == Screen::Agents ==> after == app.with_agents_key(
                key.code,
                ctx,
            )
            &&& !toggles && app.current_view == Screen::Chat && app.mode == AppMode::Setup
                ==> after == app.with_setup_key(key)
            &&& !toggles && app.current_view == Screen::Chat && app.mode == AppMode::Chat
                && app.permission is Some ==> after == app.with_permission_key(key.code)
            &&& !toggles && app.current_view == Screen::Chat && app.mode == AppMode::Chat
                && app.permission is None ==> after == app.with_chat_key(key, ctx.ticket)
        }),
{
}

/// The answer to a request is the option that is selected, or the first one that
/// allows or rejects; it is given once, and to the side that asked. The arrows
/// only select.
pub proof fn law_requests_are_answered(app: AppView, permission: PermissionView, code: KeyCode, i: int)
    requires
        app.permission == Some(permission),
        0 <= i < permission.options.len(),
    ensures
        ({
            let after = app.with_permission_key(code);
            let answered = AppView {
                permission: None,
                effects: app.effects.push(
                    EffectView::ReplyPermission {
                        direct: permission.direct,
                        option_id: permission.options[i].id,
                    },
                ),
                ..app
            };
            &&& code == KeyCode::Enter && permission.selected == i ==> after == answered
            &&& (code == KeyCode::Char('y') || code == KeyCode::Char('Y')) && text::has(
                permission.options[i].kind,
                "allow"@,
            ) && (forall|j: int|
                0 <= j < i ==> !text::has((#[trigger] permission.options[j]).kind, "allow"@))
                ==> after == answered
            &&& (code == KeyCode::Char('n') || code == KeyCode::Char('N')) && text::has(
                permission.options[i].kind,
                "reject"@,
            ) && (forall|j: int|
                0 <= j < i ==> !text::has((#[trigger] permission.options[j]).kind, "reject"@))
                ==> after == answered
            &&& code == KeyCode::Up ==> after == (AppView {
                permission: Some(
                    PermissionView {
                        selected: if permission.selected > 0 {
                            (permission.selected - 1) as usize
                        } else {
                            0
                        },
                        ..permission
                    },
                ),
                ..app
            })
            &&& code == KeyCode::Down && permission.selected < permission.options.len() ==> after
                == (AppView {
                permission: Some(
                    PermissionView {
                        selected: if permission.selected + 1 < permission.options.len() {
                            (permission.selected + 1) as usize
                        } else {
                            permission.selected
                        },
                        ..permission
                    },
                ),
                ..app
            })
            &&& code == KeyCode::Esc ==> after == app
        }),
{
    lemma_answer_of_kind(permission.options, "allow"@, 0, i);
    lemma_answer_of_kind(permission.options, "reject"@, 0, i);
}

/// Without an option of the kind, the quick answer is none.
pub proof fn law_quick_answers_need_their_kind(app: AppView, permission: PermissionView)
    requires
        app.permission == Some(permission),
    ensures
        (forall|j: int|
            0 <= j < permission.options.len() ==> !text::has(
                (#[trigger] permission.options[j]).kind,
                "allow"@,
            )) ==> app.with_permission_key(KeyCode::Char('y')) == app,
        (forall|j: int|
            0 <= j < permission.options.len() ==> !text::has(
                (#[trigger] permission.options[j]).kind,
                "reject"@,
            )) ==> app.with_permission_key(KeyCode::Char('n')) == app,
{
    lemma_no_answer(permission.options, "allow"@, 0);
    lemma_no_answer(permission.options, "reject"@, 0);
}

proof fn lemma_answer_of_kind(options: Seq<OptionView>, word: Seq<char>, from: int, i: int)
    requires
        0 <= from <= i < options.len(),
    ensures
        text::has(options[i].kind, word) && (forall|j: int|
            from <= j < i ==> !text::has((#[trigger] options[j]).kind, word))
            ==> keys::answer_of_kind(options, word, from) == Some(options[i].id),
    decreases i - from,
{
    if from < i {
        lemma_answer_of_kind(options, word, from + 1, i);
    }
}

proof fn lemma_no_answer(options: Seq<OptionView>, word: Seq<char>, from: int)
    requires
        0 <= from <= options.len(),
    ensures
        (forall|j: int|
            from <= j < options.len() ==> !text::has((#[trigger] options[j]).kind, word))
            ==> keys::answer_of_kind(options, word, from) is None,
    decreases options.len() - from,
{
    if from < options.len() {
        lemma_no_answer(options, word, from + 1);
    }
}

/// Enter hands the input to the agent as it is, with the context of the pane, and
/// starts a new chat with it.
pub proof fn law_enter_submits_the_input(app: AppView, ticket: PromptTicket)
    requires
        app.input.len() > 0,
        app.state is Connected,
    ensures
        ({
            let after = app.with_enter(ticket);
            &&& after.input.len() == 0
            &&& after.cursor_pos == 0
            &&& after.prompt_in_flight
            &&& after.recommendations is None
            &&& after.messages == seq![ChatView::User(app.input)]
            &&& after.current_prompt_text == Some(app.input)
            &&& after.current_prompt_id == Some(ticket.id)
            &&& after.completed_turns == app.completed_turns
            &&& after.pending_agent_response.len() == 0
            &&& after.effects == app.effects.push(
                EffectView::SubmitPrompt {
                    id: ticket.id,
                    prompt: app.input,
                    context: ContextView {
                        session_id: app.pane_session_id,
                        tab_id: app.tab_id,
                        window_id: app.window_id,
                        cwd: app.source_cwd,
                        source_session_id: app.source_session_id,
                    },
                    autofix: false,
                },
            )
        }),
{
    assert(Seq::<ChatView>::empty().push(ChatView::User(app.input)) =~= seq![
        ChatView::User(app.input),
    ]);
}

/// The first input that a choice sends, where it sends any.
pub open spec fn first_sent(choice: ChoiceView, i: int, input: Seq<char>) -> bool {
    &&& 0 <= i < choice.actions.len()
    &&& choice.actions[i] matches ActionView::Send { parent, input: sent }
    &&& sent == input
    &&& forall|j: int| 0 <= j < i ==> !((#[trigger] choice.actions[j]) is Send)
}

/// The first button of a choice that sends input copies the first input that it
/// sends, and runs nothing; the offer is over then.
pub proof fn law_the_first_button_copies(app: AppView, choice: ChoiceView, i: int, input: Seq<char>)
    requires
        app.autofix_session_id is None,
        app.selected_button == 0,
        first_sent(choice, i, input),
    ensures
        app.with_choice_taken(choice).effects == app.effects.push(EffectView::CopyText(input)),
        app.with_choice_taken(choice).recommendations is None,
{
    lemma_first_input(choice.actions, 0, i, input);
    assert(choice.actions[i] is Send);
    assert(cards::sends_input(choice));
}

/// The second button of a choice that sends input types it without running it.
pub proof fn law_the_second_button_types(app: AppView, choice: ChoiceView, i: int)
    requires
        app.autofix_session_id is None,
        app.selected_button == 1,
        0 <= i < choice.actions.len(),
        choice.actions[i] is Send,
    ensures
        app.with_choice_taken(choice).effects == app.effects.push(
            EffectView::ExecuteChoice { choice, insert_only: true },
        ),
        app.with_choice_taken(choice).recommendations is None,
{
    assert(cards::sends_input(choice));
}

/// The last button runs the choice, and so does any button of a choice that sends
/// no input.
pub proof fn law_the_last_button_runs(app: AppView, choice: ChoiceView)
    requires
        app.autofix_session_id is None,
        app.selected_button > 1 || forall|i: int|
            0 <= i < choice.actions.len() ==> !((#[trigger] choice.actions[i]) is Send),
    ensures
        app.with_choice_taken(choice).effects == app.effects.push(
            EffectView::ExecuteChoice { choice, insert_only: false },
        ),
        app.with_choice_taken(choice).recommendations is None,
{
    if app.selected_button <= 1 {
        assert(!cards::sends_input(choice));
    }
}

/// What was answered with a choice becomes a turn of the conversation when the
/// choice is taken.
pub proof fn law_taken_choices_end_their_turn(app: AppView, choice: ChoiceView)
    ensures
        app.pending_completed_turn matches Some(turn) ==> {
            &&& app.with_choice_taken(choice).completed_turns == app.completed_turns.push(turn)
            &&& app.with_choice_taken(choice).pending_completed_turn is None
        },
        app.pending_completed_turn is None ==> app.with_choice_taken(choice).completed_turns
            == app.completed_turns,
{
}

/// Enter takes the card that is selected while nothing is typed.
pub proof fn law_enter_takes_the_selected_card(app: AppView, ticket: PromptTicket, set: SetView)
    requires
        app.input.len() == 0,
        app.state is Connected,
        app.recommendations == Some(set),
        app.selected_recommendation < set.choices.len(),
    ensures
        app.with_enter(ticket) == app.with_choice_taken(
            set.choices[app.selected_recommendation as int],
        ),
{
}

proof fn lemma_first_input(actions: Seq<ActionView>, from: int, i: int, input: Seq<char>)
    requires
        0 <= from <= i < actions.len(),
        actions[i] matches ActionView::Send { parent, input: sent } && sent == input,
        forall|j: int| from <= j < i ==> !((#[trigger] actions[j]) is Send),
    ensures
        cards::first_input(actions, from) == Some(input),
    decreases i - from,
{
    if from < i {
        assert(!(actions[from] is Send));
        lemma_first_input(actions, from + 1, i, input);
    }
}

/// On a card of a fix, Enter runs the choice for the pane that failed, and the
/// terminal is told that the fix is over.
pub proof fn law_buttons_of_a_fix_end_it(app: AppView, chosen: ChoiceView, pane: Seq<char>)
    requires
        app.autofix_session_id == Some(pane),
        app.selected_button > 1,
    ensures
        ({
            let after = app.with_choice_taken(chosen);
            let n = app.effects.len() as int;
            &&& after.recommendations is None
            &&& after.autofix_session_id is None
            &&& after.effects.len() == n + 2
            &&& after.effects[n] matches EffectView::ExecuteChoice { choice, insert_only }
            &&& !insert_only
            &&& choice.choice == chosen.choice
            &&& choice.actions.len() == chosen.actions.len()
            &&& forall|j: int|
                0 <= j < choice.actions.len() ==> #[trigger] choice.actions[j] == fixes::goes_to(
                    chosen.actions[j],
                    pane,
                )
            &&& after.effects[n + 1] == fixes::fix_state("cleared"@, pane, Seq::empty())
        }),
{
    lemma_cleared(pane);
}

proof fn lemma_cleared(pane: Seq<char>)
    ensures
        EffectView::Publish(
            crate::json::compact_json(
                crate::app::model::fix_event("cleared"@, pane, Seq::empty()),
            ),
        ) == fixes::fix_state("cleared"@, pane, Seq::empty()),
{
}

/// Escape takes back one thing at a time: the banner first, then the offer or the
/// fix on its way, then a suggestion, then the input, and last the open turn.
pub proof fn law_escape_takes_back_one_thing(app: AppView)
    ensures
        ({
            let after = app.with_escape();
            &&& app.show_notification_banner ==> !after.show_notification_banner
                && after.recommendations == app.recommendations && after.input == app.input
                && after.effects == app.effects && after.autofix_session_id
                == app.autofix_session_id
            &&& !app.show_notification_banner && (app.recommendations is Some || (
            app.autofix_session_id is Some && app.prompt_in_flight)) ==> {
                &&& after.recommendations is None
                &&& after.autofix_session_id is None
                &&& !after.prompt_in_flight
                &&& after.inflight_autofix_generation is None
                &&& after.autofix_generation == app.autofix_generation.wrapping_add(1)
                &&& after.input == app.input
                &&& after.suggested_session_id == app.suggested_session_id
                &&& match app.autofix_session_id {
                    Some(pane) => after.effects == app.effects.push(
                        fixes::fix_state("cleared"@, pane, Seq::empty()),
                    ),
                    None => after.effects == app.effects,
                }
            }
            &&& !app.show_notification_banner && app.recommendations is None && !(
            app.autofix_session_id is Some && app.prompt_in_flight) ==> {
                &&& app.suggested_session_id matches Some(pane) ==> after.suggested_session_id
                    is None && after.input == app.input && after.effects == app.effects.push(
                    fixes::fix_state("cleared"@, pane, Seq::empty()),
                )
                &&& app.suggested_session_id is None && app.input.len() > 0 ==> after == (AppView {
                    input: Seq::empty(),
                    cursor_pos: 0,
                    ..app
                })
                &&& app.suggested_session_id is None && app.input.len() == 0
                    && app.expanded_history == app.selected_history ==> after == (AppView {
                    expanded_history: None,
                    ..app
                })
                &&& app.suggested_session_id is None && app.input.len() == 0
                    && app.expanded_history != app.selected_history ==> after == app
            }
        }),
{
    if let Some(pane) = app.autofix_session_id {
        lemma_cleared(pane);
    }
    if let Some(pane) = app.suggested_session_id {
        lemma_cleared(pane);
    }
}

proof fn lemma_split_bytes(a: Seq<char>, b: Seq<char>)
    ensures
        text::byte_len(a + b) == text::byte_len(a) + text::byte_len(b),
    decreases b.len(),
{
    if b.len() == 0 {
        assert(a + b =~= a);
    } else {
        lemma_split_bytes(a, b.drop_last());
        assert((a + b).drop_last() =~= a + b.drop_last());
    }
}

proof fn lemma_bytes_positive(s: Seq<char>)
    ensures
        s.len() > 0 ==> text::byte_len(s) > 0,
        text::byte_len(s) >= s.len(),
    decreases s.len(),
{
    if s.len() > 0 {
        lemma_bytes_positive(s.drop_last());
    }
}

proof fn lemma_at_split(a: Seq<char>, b: Seq<char>)
    ensures
        editing::chars_before(a + b, text::byte_len(a) as int) == a.len(),
    decreases b.len(),
{
    lemma_split_bytes(a, b);
    if b.len() == 0 {
        assert(a + b =~= a);
    } else {
        lemma_bytes_positive(b);
        assert((a + b).drop_last() =~= a + b.drop_last());
        lemma_at_split(a, b.drop_last());
    }
}

/// What is typed goes where the cursor stands, and the cursor behind it; the keys
/// that delete take the character before or behind the cursor.
pub proof fn law_typing_happens_at_the_cursor(app: AppView, a: Seq<char>, b: Seq<char>, c: char)
    requires
        app.input == a + b,
        app.cursor_pos == text::byte_len(a),
        text::byte_len(a + b) + 4 <= usize::MAX,
    ensures
        app.with_typed(c).input == a + seq![c] + b,
        app.with_typed(c).cursor_pos == text::byte_len(a + seq![c]),
        a.len() > 0 ==> app.with_deleted_before().input == a.drop_last() + b
            && app.with_deleted_before().cursor_pos == text::byte_len(a.drop_last()),
        a.len() == 0 ==> app.with_deleted_before().input == app.input
            && app.with_deleted_before().cursor_pos == 0,
        b.len() > 0 ==> app.with_deleted_after().input == a + b.drop_first()
            && app.with_deleted_after().cursor_pos == text::byte_len(a),
        b.len() == 0 ==> app.with_deleted_after().input == app.input,
        app.with_typed(c).effects == app.effects,
        app.with_typed(c).recommendations == app.recommendations,
{
    let s = a + b;
    let n = a.len() as int;
    lemma_at_split(a, b);
    lemma_split_bytes(a, b);
    assert(s.take(n) =~= a);
    assert(s.skip(n) =~= b);
    assert(a.push(c) + b =~= a + seq![c] + b);
    assert((a + seq![c]).drop_last() =~= a);
    assert(s.take(n) == a);
    if n > 0 {
        assert(s.take(n - 1) =~= a.drop_last());
        assert(s.take(n - 1) + s.skip(n) =~= a.drop_last() + b);
    } else {
        assert(s.take(0) + s.skip(0) =~= s);
        assert(s.take(0).len() == 0);
    }
    if b.len() > 0 {
        assert(s.take(n) + s.skip(n + 1) =~= a + b.drop_first());
    } else {
        assert(s.take(n) + s.skip(n) =~= s);
    }
    lemma_prefix_bytes(a);
}

proof fn lemma_prefix_bytes(a: Seq<char>)
    ensures
        a.len() > 0 ==> text::byte_len(a.drop_last()) <= text::byte_len(a),
{
}

/// The arrows move the cursor over one character, Home and End to the ends.
pub proof fn law_arrows_move_the_cursor(
    app: AppView,
    a: Seq<char>,
    b: Seq<char>,
    ticket: PromptTicket,
    key: KeyEvent,
)
    requires
        app.input == a + b,
        app.input.len() > 0,
        app.cursor_pos == text::byte_len(a),
        text::byte_len(a + b) <= usize::MAX,
        !key.modifiers.control,
    ensures
        ({
            let after = app.with_chat_key(key, ticket);
            &&& key.code == KeyCode::Left && a.len() > 0 ==> after == (AppView {
                cursor_pos: text::byte_len(a.drop_last()) as usize,
                ..app
            })
            &&& key.code == KeyCode::Right && b.len() > 0 ==> after == (AppView {
                cursor_pos: text::byte_len(a.push(b[0])) as usize,
                ..app
            })
            &&& key.code == KeyCode::Home ==> after == (AppView { cursor_pos: 0, ..app })
            &&& key.code == KeyCode::End ==> after == (AppView {
                cursor_pos: text::byte_len(a + b) as usize,
                ..app
            })
        }),
{
    let s = a + b;
    let n = a.len() as int;
    lemma_at_split(a, b);
    if n > 0 {
        assert(s.take(n - 1) =~= a.drop_last());
    }
    if b.len() > 0 {
        assert(s.take(n + 1) =~= a.push(b[0]));
    }
}

/// The keys of the chat that change no text: interrupting ends the stream, or the
/// application where there is none; the pages scroll by ten lines; the debug panel
/// is shown and hidden.
pub proof fn law_other_keys_of_the_chat(app: AppView, key: KeyEvent, ticket: PromptTicket)
    ensures
        ({
            let after = app.with_chat_key(key, ticket);
            &&& key.code == KeyCode::Char('c') && key.modifiers.control ==> after
                == if app.agent_streaming {
                AppView { agent_streaming: false, ..app }
            } else {
                AppView { should_quit: true, ..app }
            }
            &&& key.code == KeyCode::F(12) ==> after == (AppView {
                show_debug_panel: !app.show_debug_panel,
                debug_scroll: 0,
                effects: app.effects.push(EffectView::CaptureDebug(!app.show_debug_panel)),
                ..app
            })
            &&& key.code == KeyCode::PageUp && !(key.modifiers.shift && app.show_debug_panel)
                && app.scroll_offset + 10 <= usize::MAX ==> after == (AppView {
                scroll_offset: (app.scroll_offset + 10) as usize,
                ..app
            })
            &&& key.code == KeyCode::PageDown && !(key.modifiers.shift && app.show_debug_panel)
                ==> after == (AppView {
                scroll_offset: if app.scroll_offset >= 10 {
                    (app.scroll_offset - 10) as usize
                } else {
                    0
                },
                ..app
            })
            &&& key.code == KeyCode::PageUp && key.modifiers.shift && app.show_debug_panel
                && app.debug_scroll + 10 <= usize::MAX ==> after == (AppView {
                debug_scroll: (app.debug_scroll + 10) as usize,
                ..app
            })
            &&& key.code == KeyCode::PageDown && key.modifiers.shift && app.show_debug_panel
                ==> after == (AppView {
                debug_scroll: if app.debug_scroll >= 10 {
                    (app.debug_scroll - 10) as usize
                } else {
                    0
                },
                ..app
            })
            &&& key.code == KeyCode::Enter && key.modifiers.shift ==> after == app.with_typed('\n')
            &&& key.code == KeyCode::Enter && !key.modifiers.shift ==> after == app.with_enter(
                ticket,
            )
            &&& key.code == KeyCode::Esc ==> after == app.with_escape()
            &&& key.code == KeyCode::Backspace ==> after == app.with_deleted_before()
            &&& key.code == KeyCode::Delete ==> after == app.with_deleted_after()
            &&& key.code matches KeyCode::Char(c) ==> (!(c == 'c' && key.modifiers.control)
                ==> after == app.with_typed(c))
        }),
{
}

/// The arrows walk the cards while nothing is typed, and stop at the ends.
pub proof fn law_arrows_walk_the_cards(app: AppView, key: KeyEvent, ticket: PromptTicket, set: SetView)
    requires
        app.input.len() == 0,
        app.recommendations == Some(set),
        app.selected_recommendation < set.choices.len(),
        set.choices.len() <= usize::MAX,
    ensures
        ({
            let after = app.with_chat_key(key, ticket);
            &&& key.code == KeyCode::Up ==> after.selected_recommendation
                == if app.selected_recommendation > 0 {
                app.selected_recommendation - 1
            } else {
                0
            }
            &&& key.code == KeyCode::Down ==> after.selected_recommendation
                == if app.selected_recommendation + 1 < set.choices.len() {
                app.selected_recommendation + 1
            } else {
                app.selected_recommendation as int
            }
            &&& key.code == KeyCode::Up || key.code == KeyCode::Down ==> after.recommendations
                == app.recommendations && after.effects == app.effects
        }),
{
}

/// The buttons of a card that sends input are walked in a circle; a card with one
/// button stays on it.
pub proof fn law_arrows_walk_the_buttons(
    app: AppView,
    key: KeyEvent,
    ticket: PromptTicket,
    set: SetView,
)
    requires
        app.input.len() == 0,
        app.recommendations == Some(set),
        app.selected_recommendation < set.choices.len(),
        app.selected_button < 3,
    ensures
        ({
            let after = app.with_chat_key(key, ticket);
            let sends = cards::sends_input(set.choices[app.selected_recommendation as int]);
            &&& (key.code == KeyCode::Right || key.code == KeyCode::Tab) && sends ==> after
                == (AppView {
                selected_button: if app.selected_button == 2 {
                    0
                } else {
                    (app.selected_button + 1) as usize
                },
                ..app
            })
            &&& key.code == KeyCode::Left && sends ==> after == (AppView {
                selected_button: if app.selected_button == 0 {
                    2
                } else {
                    (app.selected_button - 1) as usize
                },
                ..app
            })
            &&& (key.code == KeyCode::Right || key.code == KeyCode::Tab || key.code
                == KeyCode::Left) && !sends ==> after == app
        }),
{
    let sends = cards::sends_input(set.choices[app.selected_recommendation as int]);
    assert(app.button_count() == if sends {
        3int
    } else {
        1int
    });
    if sends {
        assert((app.selected_button + 1) % app.button_count() == (app.selected_button + 1) % 3);
        assert((app.selected_button + app.button_count() - 1) % app.button_count() == (
        app.selected_button + 2) % 3);
    }
}

/// The arrows walk the turns of the conversation while nothing else is in front,
/// and Enter opens the selected one and closes it again.
pub proof fn law_arrows_walk_the_turns(app: AppView, key: KeyEvent, ticket: PromptTicket, i: usize)
    requires
        app.input.len() == 0,
        app.recommendations is None,
        app.permission is None,
        !app.prompt_in_flight,
        !app.agent_streaming,
        app.messages.len() == 0,
        app.pending_agent_response.len() == 0,
        app.pending_thought_response.len() == 0,
        0 < app.completed_turns.len() <= usize::MAX,
        app.selected_history == Some(i),
        i < app.completed_turns.len(),
        !key.modifiers.shift,
    ensures
        ({
            let after = app.with_chat_key(key, ticket);
            &&& key.code == KeyCode::Up ==> after == (AppView {
                selected_history: Some(
                    if i > 0 {
                        (i - 1) as usize
                    } else {
                        0
                    },
                ),
                ..app
            })
            &&& key.code == KeyCode::Down ==> after == (AppView {
                selected_history: Some(
                    if i + 1 < app.completed_turns.len() {
                        (i + 1) as usize
                    } else {
                        i
                    },
                ),
                ..app
            })
            &&& key.code == KeyCode::Enter ==> after == (AppView {
                expanded_history: if app.expanded_history == Some(i) {
                    None
                } else {
                    Some(i)
                },
                ..app
            })
        }),
{
}

/// In the list of agents Enter brings the pane of a session that runs to the
/// front, Delete forgets one that does not, and Escape goes back to the chat.
pub proof fn law_keys_of_the_agents(app: AppView, ctx: EventContext, i: usize)
    requires
        app.agents_selected == Some(i),
        i < ctx.rows@.len(),
    ensures
        ({
            let session = ctx.rows@[i as int];
            let runs = session.status != AgentStatus::Ended && session.status
                != AgentStatus::Historical;
            &&& runs ==> app.with_agents_key(KeyCode::Enter, ctx) == match session.pane_session_id {
                Some(pane) => AppView {
                    effects: app.effects.push(EffectView::FocusPane(pane@)),
                    ..app
                },
                None => app,
            }
            &&& app.with_agents_key(KeyCode::Delete, ctx) == if runs {
                app
            } else {
                AppView { effects: app.effects.push(EffectView::RemoveSession(session.key@)), ..app }
            }
            &&& app.with_agents_key(KeyCode::Esc, ctx) == (AppView {
                current_view: Screen::Chat,
                ..app
            })
            &&& app.with_agents_key(KeyCode::Up, ctx) == (AppView {
                agents_selected: Some(
                    if i > 0 {
                        (i - 1) as usize
                    } else {
                        0
                    },
                ),
                ..app
            })
            &&& app.with_agents_key(KeyCode::Down, ctx) == (AppView {
                agents_selected: Some(
                    if i + 1 < ctx.rows@.len() {
                        (i + 1) as usize
                    } else {
                        i
                    },
                ),
                ..app
            })
        }),
{
    assert(i + 1 >= ctx.rows@.len() ==> ctx.rows@.len() - 1 == i);
}

/// A session that has ended is resumed by its program, in its directory, and the
/// list of sessions is told; one that cannot be resumed is left, and a program that
/// is missing is named with how to install it.
pub proof fn law_ended_sessions_are_resumed(
    app: AppView,
    s: AgentSession,
    resume: ResumeProfile,
    name: Seq<char>,
)
    requires
        s.status == AgentStatus::Ended || s.status == AgentStatus::Historical,
    ensures
        ({
            let after = app.with_session_activated(s, resume);
            let resumable = !text::has_prefix(s.key@, "pane:"@) && resume.resume_flag@.len() > 0
                && s.cli_source != CliSource::Unknown;
            &&& !resumable ==> after == app
            &&& resumable && resume.available ==> {
                let line = resume.program@ + " "@ + resume.resume_flag@ + " "@ + s.key@;
                after == (AppView {
                    effects: app.effects.push(
                        EffectView::ResumeSession {
                            key: s.key@,
                            commandline: if s.cwd@.len() == 0 {
                                line
                            } else {
                                "cmd.exe /d /s /c \"cd /d \""@ + s.cwd@ + "\" && "@ + line + "\""@
                            },
                        },
                    ).push(
                        EffectView::ChangeSession(SessionView::ResumeDispatched { key: s.key@ }),
                    ),
                    ..app
                })
            }
            &&& resumable && !resume.available ==> {
                &&& after.effects == app.effects
                &&& after.messages.len() == app.messages.len() + 1
                &&& after.messages.last() matches ChatView::Error(message)
                &&& (name == match s.cli_source {
                    CliSource::Copilot => "copilot"@,
                    CliSource::Gemini => "gemini"@,
                    _ => resume.id@,
                } ==> message == "Cannot resume: '"@ + name
                    + "' is not installed or not on PATH.\n  Install hint: "@
                    + resume.install_hint@)
            }
        }),
{
}

/// The keys of the setup: Enter starts the installation of a program that is
/// missing, once; `o` opens its page; Escape and interrupting end the application;
/// the arrows select.
pub proof fn law_keys_of_the_setup(app: AppView, key: KeyEvent)
    ensures
        ({
            let after = app.with_setup_key(key);
            &&& key.code == KeyCode::Esc || (key.code == KeyCode::Char('c')
                && key.modifiers.control) ==> after == (AppView { should_quit: true, ..app })
            &&& app.setup is None && (key.code == KeyCode::Enter || key.code == KeyCode::Char('o')
                || key.code == KeyCode::Up || key.code == KeyCode::Down) ==> after == app
            &&& app.setup matches Some(setup) ==> {
                let missing = setup.selected_index == 0 && !(setup.preflight.cli_status is Passed);
                &&& key.code == KeyCode::Enter && missing && !setup.install_in_progress
                    && setup.preflight.agent_id == "copilot"@ && app.can_install ==> {
                    &&& after.effects == app.effects.push(EffectView::RequestInstall)
                    &&& after.setup matches Some(now)
                    &&& now.install_in_progress
                    &&& now.install_error is None
                    &&& now.install_log == seq!["Starting GitHub Copilot installation..."@]
                    &&& now.preflight == setup.preflight
                }
                &&& key.code == KeyCode::Enter && !(missing && !setup.install_in_progress
                    && setup.preflight.agent_id == "copilot"@ && app.can_install) ==> after == app
                &&& (key.code == KeyCode::Char('o') || key.code == KeyCode::Char('O')) ==> after
                    == if missing && setup.preflight.install_url.len() > 0 {
                    AppView {
                        effects: app.effects.push(
                            EffectView::OpenUrl(setup.preflight.install_url),
                        ),
                        ..app
                    }
                } else {
                    app
                }
                &&& key.code == KeyCode::Up ==> (after.setup matches Some(now)
                    && now.selected_index == if setup.selected_index > 0 {
                    setup.selected_index - 1
                } else {
                    0
                })
                &&& key.code == KeyCode::Down ==> (after.setup matches Some(now)
                    && now.selected_index == if setup.selected_index == 0 {
                    1
                } else {
                    setup.selected_index as int
                })
            }
        }),
{
}

} // verus!
