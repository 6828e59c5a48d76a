//! Events of the terminal as notifications: how grave they are, what they say,
//! and how long they stay.
use crate::json;
use crate::json::Json;
use crate::text;
use crate::text::{concat3, parse_i32, same_text, signed_number_text, strip_prefix, trim};
use vstd::prelude::*;

verus! {

/// How grave an event is.
#[derive(Debug, Clone, Copy, PartialEq, Eq, Structural)]
pub enum WtEventSeverity {
    Critical,
    Actionable,
    Informational,
}

/// An event of the terminal as the user sees it.
#[derive(Debug)]
pub struct WtNotification {
    pub severity: WtEventSeverity,
    pub session_id: String,
    pub summary: String,
    pub acknowledged: bool,
    pub age_ticks: u32,
}

pub ghost struct NotificationView {
    pub severity: WtEventSeverity,
    pub session_id: Seq<char>,
    pub summary: Seq<char>,
    pub acknowledged: bool,
    pub age_ticks: u32,
}

impl View for WtNotification {
    type V = NotificationView;

    open spec fn view(&self) -> NotificationView {
        NotificationView {
            severity: self.severity,
            session_id: self.session_id@,
            summary: self.summary@,
            acknowledged: self.acknowledged,
            age_ticks: self.age_ticks,
        }
    }
}

pub open spec fn notifications_view(list: Seq<WtNotification>) -> Seq<NotificationView> {
    list.map_values(|n: WtNotification| n@)
}

/// How many ticks an informational notification stays.
pub const MAX_AGE_TICKS: u32 = 42;

impl NotificationView {
    /// Only informational notifications go away by themselves, after a while.
    pub open spec fn expired(self) -> bool {
        self.severity == WtEventSeverity::Informational && self.age_ticks > MAX_AGE_TICKS
    }

    /// The notification one tick later.
    pub open spec fn aged(self) -> NotificationView {
        NotificationView {
            age_ticks: if self.age_ticks < u32::MAX {
                (self.age_ticks + 1) as u32
            } else {
                self.age_ticks
            },
            ..self
        }
    }
}

impl WtNotification {
    /// Whether the notification goes away by itself now. Critical and
    /// actionable ones stay until they are dismissed.
    pub fn should_auto_dismiss(&self) -> (yes: bool)
        ensures
            yes == self@.expired(),
    {
        self.severity == WtEventSeverity::Informational && self.age_ticks > MAX_AGE_TICKS
    }
}

/// A notification that has not been seen yet.
pub open spec fn fresh(
    severity: WtEventSeverity,
    session_id: Seq<char>,
    summary: Seq<char>,
) -> NotificationView {
    NotificationView { severity, session_id, summary, acknowledged: false, age_ticks: 0 }
}

/// A notification that is never shown.
pub open spec fn silent(session_id: Seq<char>) -> NotificationView {
    NotificationView {
        severity: WtEventSeverity::Informational,
        session_id,
        summary: Seq::empty(),
        acknowledged: true,
        age_ticks: 100,
    }
}

/// The exit code in a marker of the shell that a command finished: `D` alone or
/// with a code. A code that is missing or no number counts as -1.
pub open spec fn command_exit(sequence: Seq<char>) -> Option<i32> {
    if text::has_prefix(sequence, "osc:133;"@) {
        let rest = sequence.skip("osc:133;"@.len() as int);
        if rest == "D"@ {
            Some((-1) as i32)
        } else if text::has_prefix(rest, "D;"@) {
            match text::spelled_i32(text::trimmed(rest.skip("D;"@.len() as int))) {
                Some(code) => Some(code),
                None => Some((-1) as i32),
            }
        } else {
            None
        }
    } else {
        None
    }
}

/// The exit code in a marker of the shell that a command finished.
pub fn finished_command(sequence: &str) -> (code: Option<i32>)
    ensures
        code == command_exit(sequence@),
{
    match strip_prefix(sequence, "osc:133;") {
        Some(rest) => if same_text(rest, "D") {
            Some(-1)
        } else {
            match strip_prefix(rest, "D;") {
                Some(code) => match parse_i32(trim(code)) {
                    Some(code) => Some(code),
                    None => Some(-1),
                },
                None => None,
            }
        },
        None => None,
    }
}

pub open spec fn session_said(session_id: Seq<char>, what: Seq<char>) -> Seq<char> {
    "Session "@ + session_id + ": "@ + what
}

/// The notification of a change of a connection.
pub open spec fn connection_notification(
    session_id: Seq<char>,
    state: Seq<char>,
) -> NotificationView {
    if state == "failed"@ {
        fresh(
            WtEventSeverity::Critical,
            session_id,
            session_said(session_id, "connection failed"@),
        )
    } else if state == "closed"@ {
        fresh(
            WtEventSeverity::Informational,
            session_id,
            session_said(session_id, "process exited"@),
        )
    } else if state == "connected"@ {
        fresh(
            WtEventSeverity::Informational,
            session_id,
            session_said(session_id, "connected"@),
        )
    } else if state == "unknown"@ {
        silent(session_id)
    } else {
        fresh(WtEventSeverity::Informational, session_id, session_said(session_id, state))
    }
}

/// A text that may be there, or another one.
pub open spec fn text_or(text: Option<Seq<char>>, otherwise: Seq<char>) -> Seq<char> {
    match text {
        Some(text) => text,
        None => otherwise,
    }
}

/// The notification of an event of the terminal.
pub open spec fn classified(
    method: Seq<char>,
    session_id: Seq<char>,
    params: json::JsonView,
) -> NotificationView {
    if method == "connection_state"@ {
        connection_notification(session_id, text_or(params.text_at("state"@), "unknown"@))
    } else if method == "vt_sequence"@ {
        match command_exit(text_or(params.text_at("sequence"@), Seq::empty())) {
            Some(code) => if code != 0 {
                fresh(
                    WtEventSeverity::Actionable,
                    session_id,
                    "Command failed (exit "@ + text::signed_decimal(code as int) + ")"@,
                )
            } else {
                silent(session_id)
            },
            None => silent(session_id),
        }
    } else if method == "agent_prompt"@ {
        fresh(
            WtEventSeverity::Actionable,
            session_id,
            "agent_prompt:"@ + text_or(params.text_at("prompt"@), Seq::empty()),
        )
    } else {
        fresh(WtEventSeverity::Informational, session_id, session_said(session_id, method))
    }
}

fn notify(severity: WtEventSeverity, session_id: &str, summary: String) -> (n: WtNotification)
    ensures
        n@ == fresh(severity, session_id@, summary@),
{
    WtNotification {
        severity,
        session_id: session_id.to_owned(),
        summary,
        acknowledged: false,
        age_ticks: 0,
    }
}

fn keep_silent(session_id: &str) -> (n: WtNotification)
    ensures
        n@ == silent(session_id@),
{
    WtNotification {
        severity: WtEventSeverity::Informational,
        session_id: session_id.to_owned(),
        summary: String::new(),
        acknowledged: true,
        age_ticks: 100,
    }
}

fn say(session_id: &str, what: &str) -> (summary: String)
    ensures
        summary@ == session_said(session_id@, what@),
{
    let mut summary = concat3("Session ", session_id, ": ");
    summary.append(what);
    summary
}

/// The text of a member, or another one.
pub fn str_or<'a>(value: Option<&'a str>, otherwise: &'a str) -> (r: &'a str)
    ensures
        r@ == text_or(json::opt_text(value), otherwise@),
{
    match value {
        Some(value) => value,
        None => otherwise,
    }
}

/// The notification of an event of the terminal.
pub fn classify_wt_event(method: &str, session_id: &str, params: &Json) -> (n: WtNotification)
    ensures
        n@ == classified(method@, session_id@, params@),
{
    if same_text(method, "connection_state") {
        let state = str_or(params.str_at("state"), "unknown");
        if same_text(state, "failed") {
            notify(WtEventSeverity::Critical, session_id, say(session_id, "connection failed"))
        } else if same_text(state, "closed") {
            notify(WtEventSeverity::Informational, session_id, say(session_id, "process exited"))
        } else if same_text(state, "connected") {
            notify(WtEventSeverity::Informational, session_id, say(session_id, "connected"))
        } else if same_text(state, "unknown") {
            keep_silent(session_id)
        } else {
            notify(WtEventSeverity::Informational, session_id, say(session_id, state))
        }
    } else if same_text(method, "vt_sequence") {
        proof {
            reveal_strlit("");
            assert(""@ =~= Seq::<char>::empty());
        }
        match finished_command(str_or(params.str_at("sequence"), "")) {
            Some(code) => if code != 0 {
                let summary = concat3(
                    "Command failed (exit ",
                    signed_number_text(code as i64).as_str(),
                    ")",
                );
                notify(WtEventSeverity::Actionable, session_id, summary)
            } else {
                keep_silent(session_id)
            },
            None => keep_silent(session_id),
        }
    } else if same_text(method, "agent_prompt") {
        proof {
            reveal_strlit("");
            assert(""@ =~= Seq::<char>::empty());
        }
        let mut summary = "agent_prompt:".to_owned();
        summary.append(str_or(params.str_at("prompt"), ""));
        notify(WtEventSeverity::Actionable, session_id, summary)
    } else {
        notify(WtEventSeverity::Informational, session_id, say(session_id, method))
    }
}

/// A pane that closes is never a failure to fix: the notification of a closed
/// connection is informational, whatever else the event says.
pub proof fn law_closing_is_informational(session_id: Seq<char>, params: json::JsonView)
    requires
        params.text_at("state"@) == Some("closed"@),
    ensures
        classified("connection_state"@, session_id, params).severity
            == WtEventSeverity::Informational,
{
    reveal_strlit("closed");
    reveal_strlit("failed");
    reveal_strlit("connected");
    assert("closed"@[0] != "failed"@[0]);
}

/// A marker of a finished command asks for action exactly when the command
/// failed; other sequences are silent.
pub proof fn law_only_failures_ask_for_action(
    session_id: Seq<char>,
    params: json::JsonView,
)
    ensures
        ({
            let n = classified("vt_sequence"@, session_id, params);
            let code = command_exit(text_or(params.text_at("sequence"@), Seq::empty()));
            &&& n.severity == WtEventSeverity::Actionable <==> (code is Some && code != Some(0i32))
            &&& n.severity != WtEventSeverity::Actionable ==> n == silent(session_id)
        }),
{
    reveal_strlit("vt_sequence");
    reveal_strlit("connection_state");
    assert("vt_sequence"@.len() != "connection_state"@.len());
}

/// Critical and actionable notifications never go away by themselves, however
/// old they are; an informational one does.
pub proof fn law_only_informational_expires(n: NotificationView)
    ensures
        n.severity != WtEventSeverity::Informational ==> !n.expired(),
        n.severity == WtEventSeverity::Informational ==> (n.expired() <==> n.age_ticks
            > MAX_AGE_TICKS),
        n.aged().severity == n.severity,
        n.aged().acknowledged == n.acknowledged,
{
}

} // verus!
