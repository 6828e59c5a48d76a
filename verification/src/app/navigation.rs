//! Moving about: in the input, among the recommendations, through the history
//! and between tabs.
use super::cards::{is_send_choice, scroll_to_card};
use super::model;
use super::model::AppView;
use super::state::App;
use super::types;
use super::types::{ChatMessage, CompletedTurn, TabSession};
use crate::coordinator::RecommendationChoice;
use crate::editing;
use crate::editing::{
    delete_after, delete_before, insert_char, next_char_boundary, next_word_boundary,
    prev_char_boundary, prev_word_boundary,
};
use crate::text::same_text;
use vstd::prelude::*;

verus! {

impl App {
    /// The choice that is selected.
    pub(crate) fn selected_recommendation(&self) -> (choice: Option<&RecommendationChoice>)
        ensures
            match choice {
                Some(choice) => self@.selected_choice() == Some(choice@),
                None => self@.selected_choice() is None,
            },
    {
        match &self.recommendations {
            Some(set) => if self.selected_recommendation < set.choices.len() {
                assert(set@.choices[self.selected_recommendation as int]
                    == set.choices@[self.selected_recommendation as int]@);
                Some(&set.choices[self.selected_recommendation])
            } else {
                None
            },
            None => None,
        }
    }

    /// How many buttons the selected card has: three where it types into a
    /// pane, and else one.
    pub(crate) fn button_count_for_selected(&self) -> (count: usize)
        ensures
            count == self@.button_count(),
            count == 1 || count == 3,
    {
        match self.selected_recommendation() {
            Some(choice) => if is_send_choice(choice) {
                3
            } else {
                1
            },
            None => 1,
        }
    }

    /// Scrolls the panel to the selected card.
    pub(crate) fn scroll_rec_to_selected(&mut self)
        ensures
            final(self)@ == old(self)@.with_selected_card_shown(),
    {
        let height: usize = self.rec_panel_height() as usize;
        let scroll: usize = match &self.recommendations {
            Some(set) => scroll_to_card(
                set,
                self.selected_recommendation,
                self.rec_scroll,
                height,
                self.terminal_cols,
            ),
            None => return,
        };
        self.rec_scroll = scroll;
    }

    /// Selects the card at `index`, with its last button.
    pub(crate) fn select_card(&mut self, index: usize)
        ensures
            final(self)@ == old(self)@.with_selected_card(index),
    {
        self.selected_recommendation = index;
        self.selected_button = self.button_count_for_selected() - 1;
        self.scroll_rec_to_selected();
    }

    fn select_turn(&mut self, index: usize)
        ensures
            final(self)@ == (AppView { selected_history: Some(index), ..old(self)@ }),
    {
        self.selected_history = Some(index);
    }

    pub(crate) fn select_previous_history_turn(&mut self)
        ensures
            final(self)@ == old(self)@.with_previous_turn(),
    {
        let count: usize = self.completed_turns.len();
        let index: usize = match self.selected_history {
            None => if count > 0 {
                count - 1
            } else {
                0
            },
            Some(selected) => if selected > 0 {
                selected - 1
            } else {
                0
            },
        };
        self.select_turn(index);
    }

    pub(crate) fn select_next_history_turn(&mut self)
        ensures
            final(self)@ == old(self)@.with_next_turn(),
    {
        let count: usize = self.completed_turns.len();
        let index: usize = match self.selected_history {
            None => if count > 0 {
                count - 1
            } else {
                0
            },
            Some(selected) => if count > 0 && selected < count - 1 {
                selected + 1
            } else {
                selected
            },
        };
        self.select_turn(index);
    }

    pub(crate) fn toggle_selected_history_turn(&mut self)
        ensures
            final(self)@ == old(self)@.with_turn_toggled(),
    {
        let selected: usize = match self.selected_history {
            Some(selected) => selected,
            None => return,
        };
        self.expanded_history = if self.history_row_expanded(selected) {
            None
        } else {
            Some(selected)
        };
    }

    pub(crate) fn collapse_selected_history_turn(&mut self)
        ensures
            final(self)@ == old(self)@.with_turn_closed(),
    {
        let same: bool = match (self.expanded_history, self.selected_history) {
            (Some(expanded), Some(selected)) => expanded == selected,
            (None, None) => true,
            _ => false,
        };
        if same {
            self.expanded_history = None;
        }
    }

    pub(crate) fn normalize_history_state(&mut self)
        ensures
            final(self)@ == old(self)@.with_history_in_range(),
    {
        let count: usize = self.completed_turns.len();
        if count == 0 {
            self.selected_history = None;
            self.expanded_history = None;
            return;
        }
        let last: usize = count - 1;
        self.selected_history = match self.selected_history {
            Some(i) => Some(
                if i < last {
                    i
                } else {
                    last
                },
            ),
            None => Some(last),
        };
        self.expanded_history = match self.expanded_history {
            Some(i) => Some(
                if i < last {
                    i
                } else {
                    last
                },
            ),
            None => None,
        };
    }

    /// Takes the conversation out of the application.
    fn take_conversation(&mut self) -> (session: TabSession)
        ensures
            session@ == old(self)@.conversation(),
            final(self)@ == old(self)@.with_conversation(model::empty_conversation()),
    {
        let mut messages: Vec<ChatMessage> = Vec::new();
        std::mem::swap(&mut messages, &mut self.messages);
        let mut completed_turns: Vec<CompletedTurn> = Vec::new();
        std::mem::swap(&mut completed_turns, &mut self.completed_turns);
        let session = TabSession {
            messages,
            completed_turns,
            selected_history: self.selected_history,
            expanded_history: self.expanded_history,
            scroll_offset: self.scroll_offset,
        };
        self.selected_history = None;
        self.expanded_history = None;
        self.scroll_offset = 0;
        assert(types::chat_view(self.messages@) =~= Seq::empty());
        assert(types::turns_view(self.completed_turns@) =~= Seq::empty());
        session
    }

    /// Brings a conversation to the front.
    fn show_conversation(&mut self, session: TabSession)
        ensures
            final(self)@ == old(self)@.with_conversation(session@),
    {
        self.messages = session.messages;
        self.completed_turns = session.completed_turns;
        self.selected_history = session.selected_history;
        self.expanded_history = session.expanded_history;
        self.scroll_offset = session.scroll_offset;
    }

    /// Keeps the conversation of a tab that leaves the front.
    fn keep_conversation(&mut self, tab: String, session: TabSession)
        ensures
            final(self)@ == old(self)@.with_tabs(
                old(self)@.tab_sessions.insert(tab@, session@),
            ),
    {
        self.tab_sessions.insert(tab, session);
        assert(types::tabs_map(self.tab_sessions@) =~= types::tabs_map(
            old(self).tab_sessions@,
        ).insert(tab@, session@));
    }

    /// The conversation that was kept for a tab, or an empty one.
    fn kept_conversation(&mut self, tab: &str) -> (session: TabSession)
        ensures
            session@ == old(self)@.kept(tab@),
            final(self)@ == old(self)@.with_tabs(old(self)@.tab_sessions.remove(tab@)),
    {
        let found = self.tab_sessions.remove(tab);
        assert(types::tabs_map(self.tab_sessions@) =~= types::tabs_map(
            old(self).tab_sessions@,
        ).remove(tab@));
        match found {
            Some(session) => session,
            None => {
                let session = TabSession {
                    messages: Vec::new(),
                    completed_turns: Vec::new(),
                    selected_history: None,
                    expanded_history: None,
                    scroll_offset: 0,
                };
                assert(types::chat_view(session.messages@) =~= Seq::empty());
                assert(types::turns_view(session.completed_turns@) =~= Seq::empty());
                session
            },
        }
    }

    fn set_tab(&mut self, tab: String)
        ensures
            final(self)@ == old(self)@.in_tab(tab@),
    {
        self.tab_id = Some(tab);
    }

    /// Brings the conversation of another tab to the front, and keeps the one
    /// that was there.
    pub(crate) fn switch_tab_session(&mut self, new_tab_id: String)
        ensures
            final(self)@ == old(self)@.with_tab(new_tab_id@),
    {
        let leaving: Option<String> = match &self.tab_id {
            Some(current) => if same_text(current.as_str(), new_tab_id.as_str()) {
                None
            } else {
                Some(current.clone())
            },
            None => None,
        };
        if let Some(current) = leaving {
            let session = self.take_conversation();
            self.keep_conversation(current, session);
        }
        let session = self.kept_conversation(new_tab_id.as_str());
        self.show_conversation(session);
        self.set_tab(new_tab_id);
    }

    pub(crate) fn insert_input_char(&mut self, ch: char)
        ensures
            final(self)@ == old(self)@.with_typed(ch),
    {
        let (line, cursor) = insert_char(self.input.as_str(), self.cursor_pos, ch);
        self.input = line;
        self.cursor_pos = cursor;
    }

    pub(crate) fn delete_before_cursor(&mut self)
        ensures
            final(self)@ == old(self)@.with_deleted_before(),
    {
        let (line, cursor) = delete_before(self.input.as_str(), self.cursor_pos);
        self.input = line;
        self.cursor_pos = cursor;
    }

    pub(crate) fn delete_at_cursor(&mut self)
        ensures
            final(self)@ == old(self)@.with_deleted_after(),
    {
        let (line, cursor) = delete_after(self.input.as_str(), self.cursor_pos);
        self.input = line;
        self.cursor_pos = cursor;
    }

    pub(crate) fn move_cursor_left(&mut self)
        ensures
            final(self)@ == old(self)@.with_cursor(
                editing::before(old(self)@.input, old(self)@.cursor_pos as int),
            ),
    {
        self.cursor_pos = prev_char_boundary(self.input.as_str(), self.cursor_pos);
    }

    pub(crate) fn move_cursor_right(&mut self)
        ensures
            final(self)@ == old(self)@.with_cursor(
                editing::after(old(self)@.input, old(self)@.cursor_pos as int),
            ),
    {
        self.cursor_pos = next_char_boundary(self.input.as_str(), self.cursor_pos);
    }

    pub(crate) fn move_cursor_word_left(&mut self)
        ensures
            final(self)@ == old(self)@.with_cursor(
                editing::word_start(old(self)@.input, old(self)@.cursor_pos as int),
            ),
    {
        self.cursor_pos = prev_word_boundary(self.input.as_str(), self.cursor_pos);
    }

    pub(crate) fn move_cursor_word_right(&mut self)
        ensures
            final(self)@ == old(self)@.with_cursor(
                editing::word_end(old(self)@.input, old(self)@.cursor_pos as int),
            ),
    {
        self.cursor_pos = next_word_boundary(self.input.as_str(), self.cursor_pos);
    }
}

} // verus!
