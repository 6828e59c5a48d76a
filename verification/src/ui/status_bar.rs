//! What the status bar and the title of the input box say.
use crate::app::state::App;
use crate::app::types::{ConnectionState, ConnectionView};
use crate::app::model::AppView;
use crate::coordinator::text_ref;
use vstd::prelude::*;

verus! {

/// How the name of the agent is shown.
#[derive(Debug, Clone, Copy, PartialEq, Eq, Structural)]
pub enum IdentityStyle {
    Failed,
    InProgress,
    Connected,
    Connecting,
    Disconnected,
}

/// A text that is there and not empty.
pub open spec fn filled(text: Option<Seq<char>>) -> bool {
    text matches Some(text) && text.len() > 0
}

impl AppView {
    /// Who answers: the agent with its model, and the prompt it was given.
    pub open spec fn identity(self) -> Seq<char> {
        let name = if self.agent_name.len() == 0 {
            "agent"@
        } else {
            self.agent_name
        };
        let agent = if filled(self.agent_model) {
            name + " "@ + self.agent_model->0
        } else {
            name
        };
        if filled(self.prompt_name) {
            agent + " · "@ + self.prompt_name->0
        } else {
            agent
        }
    }

    pub open spec fn identity_style(self) -> IdentityStyle {
        if self.state is Failed {
            IdentityStyle::Failed
        } else if self.progress_status is Some || self.prompt_in_flight {
            IdentityStyle::InProgress
        } else {
            match self.state {
                ConnectionView::Connected => IdentityStyle::Connected,
                ConnectionView::Connecting(_) => IdentityStyle::Connecting,
                _ => IdentityStyle::Disconnected,
            }
        }
    }

    /// The title of the input box: what Enter does.
    pub open spec fn input_title(self) -> Seq<char> {
        if !(self.state is Connected) {
            " (not connected) "@
        } else if self.on_cards() {
            " Enter executes selected recommendation "@
        } else if self.walks_history() {
            " Enter expands selected turn "@
        } else {
            " > "@
        }
    }
}

fn add_filled(text: &mut String, separator: &str, more: Option<&str>)
    ensures
        final(text)@ == match more {
            Some(more) => if more@.len() > 0 {
                old(text)@ + separator@ + more@
            } else {
                old(text)@
            },
            None => old(text)@,
        },
{
    if let Some(more) = more {
        if !more.is_empty() {
            text.append(separator);
            text.append(more);
        }
    }
}

impl App {
    /// Who answers: the agent with its model, and the prompt it was given.
    pub fn agent_identity(&self) -> (identity: String)
        ensures
            identity@ == self@.identity(),
    {
        let mut identity = if self.agent_name.as_str().is_empty() {
            "agent".to_owned()
        } else {
            self.agent_name.clone()
        };
        add_filled(&mut identity, " ", text_ref(&self.agent_model));
        add_filled(&mut identity, " · ", text_ref(&self.prompt_name));
        identity
    }

    /// How the name of the agent is shown.
    pub fn identity_style(&self) -> (style: IdentityStyle)
        ensures
            style == self@.identity_style(),
    {
        let busy: bool = self.progress_status.is_some() || self.prompt_in_flight;
        match &self.state {
            ConnectionState::Failed(_) => IdentityStyle::Failed,
            _ if busy => IdentityStyle::InProgress,
            ConnectionState::Connected => IdentityStyle::Connected,
            ConnectionState::Connecting(_) => IdentityStyle::Connecting,
            ConnectionState::Disconnected => IdentityStyle::Disconnected,
        }
    }

    /// How long the answer took, where that is known.
    pub fn status_note(&self) -> (note: Option<&str>)
        ensures
            match note {
                Some(note) => filled(self@.timing_note) && note@ == self@.timing_note->0,
                None => !filled(self@.timing_note),
            },
    {
        match text_ref(&self.timing_note) {
            Some(note) => if note.is_empty() {
                None
            } else {
                Some(note)
            },
            None => None,
        }
    }

    /// The title of the input box: what Enter does.
    pub fn input_title(&self) -> (title: &'static str)
        ensures
            title@ == self@.input_title(),
    {
        if !self.state.is_connected() {
            " (not connected) "
        } else if self.recommendations.is_some() && self.input.as_str().is_empty() {
            " Enter executes selected recommendation "
        } else if self.history_navigation_enabled() {
            " Enter expands selected turn "
        } else {
            " > "
        }
    }
}

} // verus!
