//! What the state of the application says, and how each step changes it.
use super::cards;
use super::notifications::{NotificationView, WtEventSeverity};
use super::types::{
    AppMode, ChatView, ConnectionView, ContextView, DebugView, EffectView, PermissionView, Screen,
    SetupView, TabView, ToolView, TurnView,
};
use crate::coordinator::{ChoiceView, SetView};
use crate::editing;
use crate::json;
use crate::json::JsonView;
use crate::text;
use vstd::prelude::*;

verus! {

/// What the state of the application says.
pub ghost struct AppView {
    pub mode: AppMode,
    pub setup: Option<SetupView>,
    pub state: ConnectionView,
    pub agent_name: Seq<char>,
    pub agent_model: Option<Seq<char>>,
    pub agent_version: Option<Seq<char>>,
    pub prompt_name: Option<Seq<char>>,
    pub progress_status: Option<Seq<char>>,
    pub activity_frame: usize,
    pub session_id: Seq<char>,
    pub wt_connected: bool,
    pub messages: Seq<ChatView>,
    pub completed_turns: Seq<TurnView>,
    pub selected_history: Option<usize>,
    pub expanded_history: Option<usize>,
    pub input: Seq<char>,
    pub cursor_pos: usize,
    pub tool_calls: Map<Seq<char>, ToolView>,
    pub permission: Option<PermissionView>,
    pub scroll_offset: usize,
    pub agent_streaming: bool,
    pub recommendations: Option<SetView>,
    pub selected_recommendation: usize,
    pub selected_button: usize,
    pub rec_scroll: usize,
    pub terminal_rows: u16,
    pub terminal_cols: u16,
    pub should_quit: bool,
    pub prompt_in_flight: bool,
    pub current_prompt_id: Option<u64>,
    pub current_prompt_stamp: Option<u64>,
    pub selection_visible_pending: bool,
    pub pending_thought_response: Seq<char>,
    pub pending_agent_response: Seq<char>,
    pub timing_note: Option<Seq<char>>,
    pub debug_messages: Seq<DebugView>,
    pub show_debug_panel: bool,
    pub debug_scroll: usize,
    pub pane_session_id: Option<Seq<char>>,
    pub tab_id: Option<Seq<char>>,
    pub window_id: Option<Seq<char>>,
    pub source_session_id: Option<Seq<char>>,
    pub source_cwd: Option<Seq<char>>,
    pub current_view: Screen,
    pub agents_selected: Option<usize>,
    pub current_prompt_text: Option<Seq<char>>,
    pub pending_completed_turn: Option<TurnView>,
    pub wt_notifications: Seq<NotificationView>,
    pub show_notification_banner: bool,
    pub autofix_session_id: Option<Seq<char>>,
    pub suggested_session_id: Option<Seq<char>>,
    pub autofix_enabled: bool,
    pub log_agent_events: bool,
    pub autofix_generation: u64,
    pub inflight_autofix_generation: Option<u64>,
    pub tab_sessions: Map<Seq<char>, TabView>,
    pub can_install: bool,
    pub effects: Seq<EffectView>,
}

/// An event that the application publishes.
pub open spec fn published(method: Seq<char>, params: Seq<(Seq<char>, JsonView)>) -> JsonView {
    JsonView::Object(
        seq![
            ("type"@, JsonView::Text("event"@)),
            ("method"@, JsonView::Text(method)),
            ("params"@, JsonView::Object(params)),
        ],
    )
}

/// The event that tells how the fix of a failed command stands.
pub open spec fn fix_event(
    state: Seq<char>,
    pane: Seq<char>,
    more: Seq<(Seq<char>, JsonView)>,
) -> JsonView {
    published(
        "autofix_state"@,
        seq![("state"@, JsonView::Text(state)), ("session_id"@, JsonView::Text(pane))] + more,
    )
}

/// A text, or null.
pub open spec fn text_or_null(text: Option<Seq<char>>) -> JsonView {
    match text {
        Some(text) => JsonView::Text(text),
        None => JsonView::Null,
    }
}

/// The messages that are not the user's.
pub open spec fn not_by_user(messages: Seq<ChatView>) -> Seq<ChatView>
    decreases messages.len(),
{
    if messages.len() == 0 {
        Seq::empty()
    } else if messages.last() is User {
        not_by_user(messages.drop_last())
    } else {
        not_by_user(messages.drop_last()).push(messages.last())
    }
}

/// The notifications once they were all seen.
pub open spec fn all_acknowledged(list: Seq<NotificationView>) -> Seq<NotificationView> {
    list.map_values(|n: NotificationView| NotificationView { acknowledged: true, ..n })
}

/// The most recent notification among the first `n` that was not seen yet.
pub open spec fn latest_open(list: Seq<NotificationView>) -> Option<NotificationView>
    decreases list.len(),
{
    if list.len() == 0 {
        None
    } else if !list.last().acknowledged {
        Some(list.last())
    } else {
        latest_open(list.drop_last())
    }
}

/// How many notifications that are more than informational were not seen yet.
pub open spec fn open_count(list: Seq<NotificationView>) -> nat
    decreases list.len(),
{
    if list.len() == 0 {
        0
    } else {
        open_count(list.drop_last()) + if !list.last().acknowledged && list.last().severity
            != WtEventSeverity::Informational {
            1nat
        } else {
            0nat
        }
    }
}

/// The last index of a list of `n` items, or 0 where there are none.
pub open spec fn last_index(n: nat) -> usize {
    (if n > 0 {
        n - 1
    } else {
        0
    }) as usize
}

/// A conversation in which nothing was said.
pub open spec fn empty_conversation() -> TabView {
    TabView {
        messages: Seq::empty(),
        completed_turns: Seq::empty(),
        selected_history: None,
        expanded_history: None,
        scroll_offset: 0,
    }
}

impl AppView {
    /// The application asks for something.
    pub open spec fn asks(self, effect: EffectView) -> AppView {
        AppView { effects: self.effects.push(effect), ..self }
    }

    /// The application publishes an event.
    pub open spec fn publishes(self, event: JsonView) -> AppView {
        self.asks(EffectView::Publish(json::compact_json(event)))
    }

    /// The application tells the state of the agent.
    pub open spec fn publishes_status(self) -> AppView {
        let state = match self.state {
            ConnectionView::Connecting(_) => "connecting"@,
            ConnectionView::Connected => "connected"@,
            ConnectionView::Failed(_) => "failed"@,
            ConnectionView::Disconnected => "disconnected"@,
        };
        self.publishes(
            published(
                "agent_status"@,
                seq![
                    ("name"@, JsonView::Text(self.agent_name)),
                    ("version"@, text_or_null(self.agent_version)),
                    ("model"@, text_or_null(self.agent_model)),
                    ("state"@, JsonView::Text(state)),
                ],
            ),
        )
    }

    /// The fix for a pane is no longer on offer.
    pub open spec fn publishes_cleared(self, pane: Seq<char>) -> AppView {
        self.publishes(fix_event("cleared"@, pane, Seq::empty()))
    }

    /// The end of the chat is shown.
    pub open spec fn scrolled_down(self) -> AppView {
        AppView { scroll_offset: 0, ..self }
    }

    /// A message is added to the chat.
    pub open spec fn says(self, message: ChatView) -> AppView {
        AppView { messages: self.messages.push(message), ..self }
    }

    /// Nothing is recommended.
    pub open spec fn without_recommendations(self) -> AppView {
        AppView {
            recommendations: None,
            selected_recommendation: 0,
            selected_button: 2,
            rec_scroll: 0,
            ..self
        }
    }

    /// The chat starts afresh.
    pub open spec fn with_new_chat(self) -> AppView {
        AppView {
            messages: Seq::empty(),
            tool_calls: Map::empty(),
            permission: None,
            progress_status: None,
            pending_thought_response: Seq::empty(),
            activity_frame: 0,
            pending_agent_response: Seq::empty(),
            agent_streaming: false,
            scroll_offset: 0,
            timing_note: None,
            selection_visible_pending: false,
            current_prompt_text: None,
            current_prompt_stamp: None,
            pending_completed_turn: None,
            ..self
        }.without_recommendations()
    }

    /// The chat of a turn that waits for the user's choice is put away.
    pub open spec fn with_turn_put_away(self) -> AppView {
        AppView {
            messages: Seq::empty(),
            tool_calls: Map::empty(),
            permission: None,
            progress_status: None,
            pending_thought_response: Seq::empty(),
            activity_frame: 0,
            pending_agent_response: Seq::empty(),
            agent_streaming: false,
            scroll_offset: 0,
            selection_visible_pending: false,
            current_prompt_text: None,
            current_prompt_stamp: None,
            ..self
        }
    }

    /// A prompt of the user is on its way.
    pub open spec fn with_prompt(self, prompt: Seq<char>) -> AppView {
        AppView {
            current_prompt_text: Some(prompt),
            prompt_in_flight: true,
            progress_status: Some("Preparing context..."@),
            activity_frame: 0,
            ..self.with_new_chat()
        }
    }

    /// The turn that the current prompt makes with the agent's answer.
    pub open spec fn with_staged_turn(self, answer: Seq<char>) -> AppView {
        AppView {
            pending_completed_turn: match self.current_prompt_text {
                Some(prompt) => Some(
                    TurnView {
                        prompt,
                        details: not_by_user(self.messages).push(ChatView::Agent(answer)),
                    },
                ),
                None => None,
            },
            ..self
        }
    }

    /// The latest turn is selected.
    pub open spec fn with_latest_turn(self) -> AppView {
        if self.completed_turns.len() == 0 {
            AppView { selected_history: None, expanded_history: None, ..self }
        } else {
            AppView {
                selected_history: Some((self.completed_turns.len() - 1) as usize),
                expanded_history: None,
                ..self
            }.scrolled_down()
        }
    }

    /// The staged turn becomes part of the history.
    pub open spec fn with_committed_turn(self) -> AppView {
        match self.pending_completed_turn {
            Some(turn) => AppView {
                pending_completed_turn: None,
                completed_turns: self.completed_turns.push(turn),
                ..self
            }.with_latest_turn(),
            None => self,
        }
    }

    /// Nothing is on its way to the agent or from it.
    pub open spec fn at_rest(self) -> AppView {
        AppView {
            prompt_in_flight: false,
            progress_status: None,
            agent_streaming: false,
            ..self
        }
    }

    /// The user may walk through the history.
    pub open spec fn walks_history(self) -> bool {
        &&& self.input.len() == 0
        &&& self.recommendations is None
        &&& self.permission is None
        &&& !self.prompt_in_flight
        &&& !self.agent_streaming
        &&& self.messages.len() == 0
        &&& self.pending_agent_response.len() == 0
        &&& self.pending_thought_response.len() == 0
        &&& self.completed_turns.len() > 0
    }

    /// Something is going on that the screen shows by moving.
    pub open spec fn is_busy(self) -> bool {
        self.prompt_in_flight || self.agent_streaming || self.progress_status is Some || (
        self.setup matches Some(setup) && setup.install_in_progress)
    }

    /// Where a prompt of the user comes from.
    pub open spec fn own_context(self) -> ContextView {
        ContextView {
            session_id: self.pane_session_id,
            tab_id: self.tab_id,
            window_id: self.window_id,
            cwd: self.source_cwd,
            source_session_id: self.source_session_id,
        }
    }

    /// The notifications are put away.
    pub open spec fn with_notifications_dismissed(self) -> AppView {
        AppView {
            show_notification_banner: false,
            wt_notifications: all_acknowledged(self.wt_notifications),
            ..self
        }
    }

    /// The choice that is selected.
    pub open spec fn selected_choice(self) -> Option<ChoiceView> {
        match self.recommendations {
            Some(set) => if self.selected_recommendation < set.choices.len() {
                Some(set.choices[self.selected_recommendation as int])
            } else {
                None
            },
            None => None,
        }
    }

    /// How many buttons the selected card has.
    pub open spec fn button_count(self) -> int {
        match self.selected_choice() {
            Some(choice) => if cards::sends_input(choice) {
                3
            } else {
                1
            },
            None => 1,
        }
    }

    /// The panel is scrolled to the selected card.
    pub open spec fn with_selected_card_shown(self) -> AppView {
        match self.recommendations {
            Some(set) => AppView {
                rec_scroll: cards::scrolled_to(
                    set.choices,
                    self.selected_recommendation as int,
                    self.rec_scroll as int,
                    self.panel_height() as int,
                    self.terminal_cols,
                ) as usize,
                ..self
            },
            None => self,
        }
    }

    /// Another card is selected, with its last button.
    pub open spec fn with_selected_card(self, index: usize) -> AppView {
        let moved = AppView { selected_recommendation: index, ..self };
        AppView { selected_button: (moved.button_count() - 1) as usize, ..moved }
            .with_selected_card_shown()
    }

    /// The turn before the selected one is selected.
    pub open spec fn with_previous_turn(self) -> AppView {
        AppView {
            selected_history: match self.selected_history {
                None => Some(last_index(self.completed_turns.len())),
                Some(i) => Some(
                    if i > 0 {
                        (i - 1) as usize
                    } else {
                        i
                    },
                ),
            },
            ..self
        }
    }

    /// The turn after the selected one is selected.
    pub open spec fn with_next_turn(self) -> AppView {
        AppView {
            selected_history: match self.selected_history {
                None => Some(last_index(self.completed_turns.len())),
                Some(i) => Some(
                    if i + 1 < self.completed_turns.len() {
                        (i + 1) as usize
                    } else {
                        i
                    },
                ),
            },
            ..self
        }
    }

    /// The selected turn is opened, or closed where it was open.
    pub open spec fn with_turn_toggled(self) -> AppView {
        match self.selected_history {
            None => self,
            Some(i) => AppView {
                expanded_history: if self.expanded_history == Some(i) {
                    None
                } else {
                    Some(i)
                },
                ..self
            },
        }
    }

    /// The selected turn is closed.
    pub open spec fn with_turn_closed(self) -> AppView {
        if self.expanded_history == self.selected_history {
            AppView { expanded_history: None, ..self }
        } else {
            self
        }
    }

    /// The selected turn is one that exists.
    pub open spec fn with_history_in_range(self) -> AppView {
        if self.completed_turns.len() == 0 {
            AppView { selected_history: None, expanded_history: None, ..self }
        } else {
            let last = last_index(self.completed_turns.len());
            AppView {
                selected_history: match self.selected_history {
                    Some(i) => Some(
                        if i < last {
                            i
                        } else {
                            last
                        },
                    ),
                    None => Some(last),
                },
                expanded_history: match self.expanded_history {
                    Some(i) => Some(
                        if i < last {
                            i
                        } else {
                            last
                        },
                    ),
                    None => None,
                },
                ..self
            }
        }
    }

    /// `c` is typed at the cursor.
    pub open spec fn with_typed(self, c: char) -> AppView {
        let pos = self.cursor_pos as int;
        AppView {
            input: editing::inserted(self.input, editing::chars_before(self.input, pos), c),
            cursor_pos: (editing::clamped(self.input, pos) + text::utf8_width(c)) as usize,
            ..self
        }
    }

    /// The character before the cursor is removed.
    pub open spec fn with_deleted_before(self) -> AppView {
        let pos = self.cursor_pos as int;
        let i = editing::chars_before(self.input, pos);
        AppView {
            input: editing::cut(
                self.input,
                if i == 0 {
                    0
                } else {
                    i - 1
                },
                i,
            ),
            cursor_pos: editing::before(self.input, pos) as usize,
            ..self
        }
    }

    /// The character after the cursor is removed.
    pub open spec fn with_deleted_after(self) -> AppView {
        let pos = self.cursor_pos as int;
        let i = editing::chars_before(self.input, pos);
        AppView {
            input: editing::cut(
                self.input,
                i,
                if i >= self.input.len() {
                    i
                } else {
                    i + 1
                },
            ),
            cursor_pos: editing::clamped(self.input, pos) as usize,
            ..self
        }
    }

    /// The cursor is moved.
    pub open spec fn with_cursor(self, pos: nat) -> AppView {
        AppView { cursor_pos: pos as usize, ..self }
    }

    /// The conversation of the tab in front.
    pub open spec fn conversation(self) -> TabView {
        TabView {
            messages: self.messages,
            completed_turns: self.completed_turns,
            selected_history: self.selected_history,
            expanded_history: self.expanded_history,
            scroll_offset: self.scroll_offset,
        }
    }

    /// A conversation is in front.
    pub open spec fn with_conversation(self, shown: TabView) -> AppView {
        AppView {
            messages: shown.messages,
            completed_turns: shown.completed_turns,
            selected_history: shown.selected_history,
            expanded_history: shown.expanded_history,
            scroll_offset: shown.scroll_offset,
            ..self
        }
    }

    pub open spec fn with_tabs(self, tabs: Map<Seq<char>, TabView>) -> AppView {
        AppView { tab_sessions: tabs, ..self }
    }

    pub open spec fn in_tab(self, tab: Seq<char>) -> AppView {
        AppView { tab_id: Some(tab), ..self }
    }

    /// The conversation that is kept for a tab, or an empty one.
    pub open spec fn kept(self, tab: Seq<char>) -> TabView {
        if self.tab_sessions.dom().contains(tab) {
            self.tab_sessions[tab]
        } else {
            empty_conversation()
        }
    }

    /// The conversation of the tab in front is kept for it.
    pub open spec fn with_own_tab_kept(self, current: Seq<char>) -> AppView {
        let taken = self.with_conversation(empty_conversation());
        taken.with_tabs(taken.tab_sessions.insert(current, self.conversation()))
    }

    /// Another tab comes to the front, with its own conversation.
    pub open spec fn with_tab(self, tab: Seq<char>) -> AppView {
        let left = match self.tab_id {
            Some(current) => if current != tab {
                self.with_own_tab_kept(current)
            } else {
                self
            },
            None => self,
        };
        left.with_tabs(left.tab_sessions.remove(tab)).with_conversation(left.kept(tab)).in_tab(tab)
    }

    /// The height of the panel of recommendations.
    pub open spec fn panel_height(self) -> u16 {
        cards::panel_height(self.recommendations, self.terminal_rows, self.terminal_cols)
    }
}

} // verus!
