//! What the events of the terminal, the agent and the user do to the application.
use crate::app::keys;
use crate::app::model;
use crate::app::model::AppView;
use crate::app::notifications;
use crate::app::notifications::{
    classify_wt_event, NotificationView, WtEventSeverity, WtNotification,
};
use crate::app::state::App;
use crate::app::terminal_events;
use crate::app::types;
use crate::app::types::{
    AppEvent, AppMode, ChatView, ConnectionView, DebugView, EffectView, EventContext,
    FocusPaneFailureReason, PermissionView, SessionView, SetupView, SharedStateSnapshot, TabView,
    ToolView,
};
use crate::app::update;
use crate::coordinator;
use crate::json;
use crate::json::{Json, JsonView};
use crate::preflight::{AgentProfile, PreflightView};
use crate::text;
use vstd::prelude::*;

verus! {

/// A notification that was not seen yet.
pub open spec fn unseen(
    severity: WtEventSeverity,
    session: Seq<char>,
    summary: Seq<char>,
) -> NotificationView {
    NotificationView {
        severity,
        session_id: session,
        summary,
        acknowledged: false,
        age_ticks: 0,
    }
}

proof fn lemma_words()
    ensures
        "vt_sequence"@.len() == 11 && "vt_sequence"@[0] == 'v',
        "agent_event"@.len() == 11 && "agent_event"@[0] == 'a',
        "tab_changed"@.len() == 11 && "tab_changed"@[0] == 't',
        "autofix_execute"@.len() == 15,
        "agent_prompt"@.len() == 12,
        "connection_state"@.len() == 16,
        "failed"@.len() == 6 && "failed"@[0] == 'f',
        "closed"@.len() == 6 && "closed"@[0] == 'c',
        "connected"@.len() == 9,
        "unknown"@.len() == 7,
{
    reveal_strlit("vt_sequence");
    reveal_strlit("agent_event");
    reveal_strlit("tab_changed");
    reveal_strlit("autofix_execute");
    reveal_strlit("agent_prompt");
    reveal_strlit("connection_state");
    reveal_strlit("failed");
    reveal_strlit("closed");
    reveal_strlit("connected");
    reveal_strlit("unknown");
}

/// What is made of an event of a pane: a connection that fails is critical, a
/// command that fails and a prompt for an agent ask for action, anything else
/// informs, and what the shell marks besides failures is not shown.
pub proof fn law_events_are_classified(
    method: &str,
    session: &str,
    params: &Json,
    n: WtNotification,
    state: Seq<char>,
    sequence: Seq<char>,
    prompt: Seq<char>,
)
    requires
        call_ensures(classify_wt_event, (method, session, params), n),
    ensures
        n@.session_id == session@,
        method@ == "connection_state"@ && params@.get("state"@) == Some(JsonView::Text(state)) ==> {
            &&& state == "failed"@ ==> n@ == unseen(
                WtEventSeverity::Critical,
                session@,
                "Session "@ + session@ + ": "@ + "connection failed"@,
            )
            &&& state == "closed"@ ==> n@ == unseen(
                WtEventSeverity::Informational,
                session@,
                "Session "@ + session@ + ": "@ + "process exited"@,
            )
            &&& state != "failed"@ && state != "closed"@ && state != "unknown"@ ==> n@ == unseen(
                WtEventSeverity::Informational,
                session@,
                "Session "@ + session@ + ": "@ + state,
            )
        },
        method@ == "vt_sequence"@ && params@.get("sequence"@) == Some(JsonView::Text(sequence))
            ==> match notifications::command_exit(sequence) {
            Some(code) if code != 0 => n@ == unseen(
                WtEventSeverity::Actionable,
                session@,
                "Command failed (exit "@ + text::signed_decimal(code as int) + ")"@,
            ),
            _ => n@.severity == WtEventSeverity::Informational && n@.acknowledged
                && n@.summary.len() == 0,
        },
        method@ == "agent_prompt"@ && params@.get("prompt"@) == Some(JsonView::Text(prompt))
            ==> n@ == unseen(
            WtEventSeverity::Actionable,
            session@,
            "agent_prompt:"@ + prompt,
        ),
        method@ != "connection_state"@ && method@ != "vt_sequence"@ && method@ != "agent_prompt"@
            ==> n@ == unseen(
            WtEventSeverity::Informational,
            session@,
            "Session "@ + session@ + ": "@ + method@,
        ),
{
    lemma_words();
    if state == "connected"@ {
        assert("Session "@ + session@ + ": "@ + state == "Session "@ + session@ + ": "@
            + "connected"@);
    }
}

/// The latest twenty notifications are kept, in the order in which they came.
pub proof fn law_latest_notifications_are_kept(app: AppView, n: NotificationView)
    requires
        app.wt_notifications.len() <= 20,
    ensures
        ({
            let list = app.with_queued(n).wt_notifications;
            &&& list.len() > 0 && list.last() == n
            &&& app.wt_notifications.len() < 20 ==> list.drop_last() == app.wt_notifications
            &&& app.wt_notifications.len() == 20 ==> list.len() == 20 && list.drop_last()
                == app.wt_notifications.drop_first()
        }),
{
    let list = app.with_queued(n).wt_notifications;
    if app.wt_notifications.len() < 20 {
        assert(list.drop_last() =~= app.wt_notifications);
    } else {
        assert(list.drop_last() =~= app.wt_notifications.drop_first());
    }
}

/// A critical notification is told in the chat and on the banner; it asks for
/// nothing.
pub proof fn law_critical_notifications_are_told(
    app: AppView,
    method: Seq<char>,
    session: Seq<char>,
    params: JsonView,
    n: NotificationView,
    ctx: EventContext,
)
    requires
        n.severity == WtEventSeverity::Critical,
    ensures
        ({
            let after = app.with_notification(method, session, params, n, ctx);
            &&& after.messages == app.messages.push(ChatView::Error(n.summary))
            &&& after.show_notification_banner
            &&& after.effects == app.effects
            &&& after.wt_notifications.len() > 0
            &&& after.wt_notifications.last() == n
            &&& after.recommendations == app.recommendations
        }),
{
}

/// A prompt for an agent is delegated as it is; an empty one is not.
pub proof fn law_prompts_are_delegated(
    app: &mut App,
    method: &str,
    session: &str,
    params: &Json,
    ctx: &EventContext,
    prompt: Seq<char>,
)
    requires
        call_ensures(App::handle_wt_event, (app, method, session, params, ctx), ()),
        method@ == "agent_prompt"@,
        params@.get("prompt"@) == Some(JsonView::Text(prompt)),
        old(app)@.pane_session_id != Some(session@),
    ensures
        prompt.len() > 0 ==> final(app)@.effects == old(app)@.effects.push(
            EffectView::Delegate(prompt),
        ),
        prompt.len() == 0 ==> final(app)@.effects == old(app)@.effects,
        final(app)@.messages == old(app)@.messages,
        final(app)@.wt_notifications == old(app)@.wt_notifications,
        final(app)@.recommendations == old(app)@.recommendations,
{
    lemma_words();
}

/// The sessions are told of a connection that failed, with the reason, and of one
/// that was closed; a shell prompt in the pane of an agent means that the agent
/// has ended.
pub proof fn law_sessions_are_told_of_their_panes(
    app: AppView,
    session: Seq<char>,
    params: JsonView,
    agent_pane: bool,
    reason: Seq<char>,
)
    ensures
        params.get("state"@) == Some(JsonView::Text("failed"@)) && params.get("reason"@) == Some(
            JsonView::Text(reason),
        ) ==> app.with_sessions_told(
            "connection_state"@,
            session,
            params,
            agent_pane,
        ).effects == app.effects.push(
            EffectView::ChangeSession(
                SessionView::ConnectionFailed { pane_session_id: session, reason },
            ),
        ),
        params.get("state"@) == Some(JsonView::Text("failed"@)) && params.get("reason"@) is None
            ==> app.with_sessions_told(
            "connection_state"@,
            session,
            params,
            agent_pane,
        ).effects == app.effects.push(
            EffectView::ChangeSession(
                SessionView::ConnectionFailed {
                    pane_session_id: session,
                    reason: "connection failed"@,
                },
            ),
        ),
        params.get("state"@) == Some(JsonView::Text("closed"@)) ==> app.with_sessions_told(
            "connection_state"@,
            session,
            params,
            agent_pane,
        ).effects == app.effects.push(
            EffectView::ChangeSession(SessionView::PaneClosed { pane_session_id: session }),
        ),
        params.get("state"@) == Some(JsonView::Text("connected"@)) ==> app.with_sessions_told(
            "connection_state"@,
            session,
            params,
            agent_pane,
        ) == app,
        params.get("sequence"@) == Some(JsonView::Text("osc:133;A"@)) ==> app.with_sessions_told(
            "vt_sequence"@,
            session,
            params,
            agent_pane,
        ) == if agent_pane {
            AppView {
                effects: app.effects.push(
                    EffectView::ChangeSession(SessionView::PaneClosed { pane_session_id: session }),
                ),
                ..app
            }
        } else {
            app
        },
{
    lemma_words();
}

/// A tick makes every notification older by one, and only one that informs leaves,
/// when it is older than forty-two ticks.
pub proof fn law_ticks_age_notifications(list: Seq<NotificationView>, n: NotificationView)
    requires
        n.age_ticks < u32::MAX,
    ensures
        update::ticked(Seq::empty()).len() == 0,
        n.severity == WtEventSeverity::Informational && n.age_ticks >= 42 ==> update::ticked(
            list.push(n),
        ) == update::ticked(list),
        n.severity != WtEventSeverity::Informational || n.age_ticks < 42 ==> update::ticked(
            list.push(n),
        ) == update::ticked(list).push(
            NotificationView { age_ticks: (n.age_ticks + 1) as u32, ..n },
        ),
{
    assert(list.push(n).drop_last() =~= list);
}

/// A tick turns the sign of activity while something goes on, and hides the banner
/// when every notification that is left was seen.
pub proof fn law_ticks_show_activity(app: AppView)
    ensures
        ({
            let after = app.with_tick();
            let busy = app.prompt_in_flight || app.agent_streaming || app.progress_status is Some
                || (app.setup matches Some(setup) && setup.install_in_progress);
            &&& after.activity_frame == if busy {
                (app.activity_frame + 1) % 10
            } else {
                app.activity_frame as int
            }
            &&& after.wt_notifications == update::ticked(app.wt_notifications)
            &&& (forall|i: int|
                0 <= i < after.wt_notifications.len() ==> (
                #[trigger] after.wt_notifications[i]).acknowledged)
                ==> !after.show_notification_banner
            &&& (exists|i: int|
                0 <= i < after.wt_notifications.len() && !(
                #[trigger] after.wt_notifications[i]).acknowledged)
                ==> after.show_notification_banner == app.show_notification_banner
            &&& after.effects == app.effects
            &&& after.messages == app.messages
        }),
{
}

/// The wheel scrolls the cards where it is turned over them, and else the chat:
/// down moves the cards on and the chat towards its end.
pub proof fn law_the_wheel_scrolls(app: AppView, delta: i32, row: u16)
    requires
        app.rec_scroll < 0x7fff_ffff,
        app.scroll_offset < 0x7fff_ffff,
        delta > i32::MIN,
    ensures
        ({
            let after = app.with_wheel(delta, row);
            let over = app.recommendations is Some && row + 3 + app.panel_height()
                >= app.terminal_rows;
            &&& over && delta > 0 ==> after.rec_scroll == app.rec_scroll + delta
            &&& over && delta <= 0 ==> after.rec_scroll == if app.rec_scroll + delta > 0 {
                app.rec_scroll + delta
            } else {
                0
            }
            &&& over ==> after.scroll_offset == app.scroll_offset
            &&& !over && delta < 0 ==> after.scroll_offset == app.scroll_offset - delta
            &&& !over && delta >= 0 ==> after.scroll_offset == if app.scroll_offset > delta {
                app.scroll_offset - delta
            } else {
                0
            }
            &&& !over ==> after.rec_scroll == app.rec_scroll
        }),
{
}

/// The event that tells the terminal of the agent.
pub open spec fn status_event(app: AppView, state: Seq<char>) -> EffectView {
    EffectView::Publish(
        json::compact_json(
            JsonView::Object(
                seq![
                    ("type"@, JsonView::Text("event"@)),
                    ("method"@, JsonView::Text("agent_status"@)),
                    (
                        "params"@,
                        JsonView::Object(
                            seq![
                                ("name"@, JsonView::Text(app.agent_name)),
                                (
                                    "version"@,
                                    match app.agent_version {
                                        Some(version) => JsonView::Text(version),
                                        None => JsonView::Null,
                                    },
                                ),
                                (
                                    "model"@,
                                    match app.agent_model {
                                        Some(agent_model) => JsonView::Text(agent_model),
                                        None => JsonView::Null,
                                    },
                                ),
                                ("state"@, JsonView::Text(state)),
                            ],
                        ),
                    ),
                ],
            ),
        ),
    )
}

proof fn lemma_status(app: AppView)
    ensures
        app.publishes_status() == (AppView {
            effects: app.effects.push(
                status_event(
                    app,
                    match app.state {
                        ConnectionView::Connecting(_) => "connecting"@,
                        ConnectionView::Connected => "connected"@,
                        ConnectionView::Failed(_) => "failed"@,
                        ConnectionView::Disconnected => "disconnected"@,
                    },
                ),
            ),
            ..app
        }),
{
    let state = match app.state {
        ConnectionView::Connecting(_) => "connecting"@,
        ConnectionView::Connected => "connected"@,
        ConnectionView::Failed(_) => "failed"@,
        ConnectionView::Disconnected => "disconnected"@,
    };
    let told = seq![
        ("name"@, JsonView::Text(app.agent_name)),
        ("version"@, model::text_or_null(app.agent_version)),
        ("model"@, model::text_or_null(app.agent_model)),
        ("state"@, JsonView::Text(state)),
    ];
    assert(told =~= seq![
        ("name"@, JsonView::Text(app.agent_name)),
        (
            "version"@,
            match app.agent_version {
                Some(version) => JsonView::Text(version),
                None => JsonView::Null,
            },
        ),
        (
            "model"@,
            match app.agent_model {
                Some(agent_model) => JsonView::Text(agent_model),
                None => JsonView::Null,
            },
        ),
        ("state"@, JsonView::Text(state)),
    ]);
    assert(app.publishes_status() == app.publishes(model::published("agent_status"@, told)));
    assert(status_event(app, state) == EffectView::Publish(
        json::compact_json(model::published("agent_status"@, told)),
    ));
}

/// What comes of the connection to the agent: a stage is shown and told, an agent
/// that is connected is known by what it says of itself, and the rest is shown.
pub proof fn law_connections_are_told(app: AppView, event: AppEvent, ctx: EventContext)
    ensures
        ({
            let after = app.with_connection_event(event, ctx);
            &&& event matches AppEvent::ConnectionStage(stage) ==> after == (AppView {
                state: ConnectionView::Connecting(stage@),
                effects: app.effects.push(status_event(app, "connecting"@)),
                ..app
            })
            &&& event matches AppEvent::AgentConnected { name, model, version, session_id } ==> {
                &&& after.state is Connected
                &&& after.agent_name == name@
                &&& after.session_id == session_id@
                &&& match model {
                    Some(model) => after.agent_model == Some(model@),
                    None => after.agent_model is None,
                }
                &&& match version {
                    Some(version) => after.agent_version == Some(version@),
                    None => after.agent_version is None,
                }
                &&& after.effects == app.effects.push(status_event(after, "connected"@))
                &&& after.messages == app.messages
            }
            &&& event matches AppEvent::ProgressStatus(status) ==> after == (AppView {
                progress_status: Some(status@),
                scroll_offset: 0,
                ..app
            })
            &&& event matches AppEvent::PromptTemplateLoaded { name } ==> after == (AppView {
                prompt_name: Some(name@),
                ..app
            })
            &&& event matches AppEvent::TimingMetric(note) ==> after == (AppView {
                timing_note: Some(note@),
                ..app
            })
        }),
{
    match event {
        AppEvent::ConnectionStage(stage) => lemma_status(
            app.with_state(ConnectionView::Connecting(stage@)),
        ),
        AppEvent::AgentConnected { name, model, version, session_id } => lemma_status(
            app.with_agent(
                name@,
                coordinator::seen(model),
                coordinator::seen(version),
                session_id@,
            ),
        ),
        _ => {},
    }
}

/// An error of the agent ends what was going on and is told; one that speaks of a
/// login leads to the setup instead.
pub proof fn law_agent_errors_are_told(app: AppView, message: Seq<char>, profile: AgentProfile)
    ensures
        ({
            let after = app.with_agent_error(message, profile);
            let lower = text::lowered(message);
            let login = text::has(lower, "auth"@) || text::has(lower, "login"@) || text::has(
                lower,
                "unauthorized"@,
            ) || text::has(lower, "401"@) || text::has(lower, "credentials"@);
            &&& !after.prompt_in_flight
            &&& !after.agent_streaming
            &&& after.progress_status is None
            &&& after.pending_agent_response.len() == 0
            &&& after.pending_completed_turn is None
            &&& after.input == app.input
            &&& !(login && app.mode != AppMode::Setup) ==> {
                &&& after.state == ConnectionView::Failed(message)
                &&& after.messages == app.messages.push(ChatView::Error(message))
                &&& after.mode == app.mode
                &&& after.effects == app.effects.push(status_event(app, "failed"@))
            }
            &&& login && app.mode != AppMode::Setup ==> {
                &&& after.state is Disconnected
                &&& after.mode == AppMode::Setup
                &&& after.messages == app.messages
                &&& after.effects == app.effects.push(status_event(app, "disconnected"@))
                &&& after.setup matches Some(setup)
                &&& setup.selected_index == 1
                &&& setup.preflight.cli_status is Passed
                &&& setup.preflight.auth_status is Failed
                &&& setup.preflight.agent_id == profile.id@
                &&& setup.preflight.auth_hint == profile.auth_hint@
            }
        }),
{
    lemma_status(AppView { state: ConnectionView::Failed(message), ..app });
    lemma_status(app.with_login_wanted(message, profile));
}

/// What the agent says: pieces are put together in the order in which they come, a
/// tool is listed and its state kept up, and everything else is a message.
pub proof fn law_the_conversation_is_kept(app: AppView, event: AppEvent)
    ensures
        ({
            let after = app.with_conversation_event(event);
            &&& event matches AppEvent::AgentMessageChunk(piece) ==> {
                &&& after.pending_agent_response == app.pending_agent_response + piece@
                &&& after.agent_streaming && after.prompt_in_flight
                &&& after.pending_thought_response.len() == 0
                &&& after.progress_status is None
                &&& after.messages == app.messages
                &&& after.recommendations == app.recommendations
                &&& after.effects == app.effects
            }
            &&& event matches AppEvent::AgentThoughtChunk(piece) ==> {
                &&& after.prompt_in_flight
                &&& after.pending_agent_response == app.pending_agent_response
                &&& app.progress_status is None ==> after.progress_status == Some("Thinking..."@)
                &&& app.progress_status is Some ==> after.progress_status == app.progress_status
                &&& (app.pending_thought_response + piece@).len() <= 1024
                    ==> after.pending_thought_response == app.pending_thought_response + piece@
                &&& after.recommendations == app.recommendations
                &&& after.effects == app.effects
            }
            &&& event matches AppEvent::SystemMessage(message) ==> after == (AppView {
                messages: app.messages.push(ChatView::System(message@)),
                scroll_offset: 0,
                ..app
            })
            &&& event matches AppEvent::ExecutionInfo(_) ==> after == (AppView {
                scroll_offset: 0,
                ..app
            })
            &&& event matches AppEvent::Plan(entries) ==> after == (AppView {
                messages: app.messages.push(ChatView::Plan(types::plan_view(entries@))),
                scroll_offset: 0,
                ..app
            })
            &&& event matches AppEvent::ToolCall { id, title, status } ==> after == (AppView {
                tool_calls: app.tool_calls.insert(
                    id@,
                    ToolView { id: id@, title: title@, status: status@ },
                ),
                messages: app.messages.push(
                    ChatView::ToolCall { id: id@, title: title@, status: status@ },
                ),
                scroll_offset: 0,
                ..app
            })
            &&& event matches AppEvent::UserMessage(message) ==> {
                &&& after.messages == seq![ChatView::User(message@)]
                &&& after.current_prompt_text == Some(message@)
                &&& after.prompt_in_flight
                &&& after.recommendations is None
                &&& after.completed_turns == app.completed_turns
                &&& after.effects == app.effects
            }
        }),
{
    if let AppEvent::UserMessage(message) = event {
        assert(Seq::<ChatView>::empty().push(ChatView::User(message@)) =~= seq![
            ChatView::User(message@),
        ]);
    }
    if let AppEvent::AgentThoughtChunk(piece) = event {
        if piece@.len() == 0 {
            assert(app.pending_thought_response + piece@ =~= app.pending_thought_response);
        }
    }
}

/// The state of a tool changes where the tool is listed, and nowhere else.
pub proof fn law_tools_change_their_state(
    app: AppView,
    id: Seq<char>,
    status: Seq<char>,
    other: Seq<char>,
    i: int,
)
    requires
        other != id,
    ensures
        ({
            let after = app.with_tool_status(id, status);
            &&& after.tool_calls.dom() == app.tool_calls.dom()
            &&& app.tool_calls.dom().contains(id) ==> after.tool_calls[id] == (ToolView {
                status,
                ..app.tool_calls[id]
            })
            &&& app.tool_calls.dom().contains(other) ==> after.tool_calls[other]
                == app.tool_calls[other]
            &&& after.messages.len() == app.messages.len()
            &&& 0 <= i < app.messages.len() ==> match app.messages[i] {
                ChatView::ToolCall { id: own, title, .. } if own == id => after.messages[i] == (
                ChatView::ToolCall { id, title, status }),
                _ => after.messages[i] == app.messages[i],
            }
            &&& after.effects == app.effects
        }),
{
    assert(app.with_tool_status(id, status).tool_calls.dom() =~= app.tool_calls.dom());
}

/// Long thoughts are shown by their end.
pub proof fn law_thoughts_are_shown_by_their_end(shown: Seq<char>, piece: Seq<char>)
    requires
        piece.len() > 0,
        (shown + piece).len() > 1024,
    ensures
        update::thoughts(shown, piece).len() == 1027,
        update::thoughts(shown, piece).take(3) == "..."@,
        update::thoughts(shown, piece).skip(3) == (shown + piece).skip(
            (shown + piece).len() - 1024,
        ),
{
    reveal_strlit("...");
    assert(update::thoughts(shown, piece).take(3) =~= "..."@);
    assert(update::thoughts(shown, piece).skip(3) =~= (shown + piece).skip(
        (shown + piece).len() - 1024,
    ));
}

/// A request for permission is shown with its first option selected, and whoever
/// asked is remembered; when it is cleared it is gone.
pub proof fn law_requests_are_shown(app: AppView, event: AppEvent)
    ensures
        ({
            let after = app.with_permission_event(event);
            &&& event matches AppEvent::PermissionRequest { description, options } ==> after
                == (AppView {
                permission: Some(
                    PermissionView {
                        description: description@,
                        options: types::options_view(options@),
                        selected: 0,
                        direct: true,
                    },
                ),
                ..app
            })
            &&& event matches AppEvent::SharedPermissionRequest { description, options } ==> after
                == (AppView {
                permission: Some(
                    PermissionView {
                        description: description@,
                        options: types::options_view(options@),
                        selected: 0,
                        direct: false,
                    },
                ),
                ..app
            })
            &&& event is PermissionCleared ==> after == (AppView { permission: None, ..app })
        }),
{
}

/// The setup is left when everything it needs is there, and shown when not; an
/// installation is followed line by line until it ends.
pub proof fn law_the_setup_follows_what_is_found(app: AppView, result: PreflightView)
    ensures
        ({
            let after = app.with_preflight(result);
            let ready = result.cli_status is Passed && (result.auth_status is Passed
                || result.auth_status is Skipped);
            &&& ready ==> after.mode == AppMode::Chat && after.setup is None && after.state
                == ConnectionView::Connecting("Starting agent..."@)
            &&& !ready ==> {
                &&& after.mode == AppMode::Setup
                &&& after.state is Disconnected
                &&& after.setup matches Some(setup)
                &&& setup.preflight == result
                &&& setup.selected_index == 0
                &&& !setup.install_in_progress
            }
            &&& after.messages == app.messages
            &&& after.effects == app.effects
        }),
{
}

/// An installation is followed: its start and its end are noted, its latest eight
/// lines are kept, and an error is kept as it came.
pub proof fn law_installations_are_followed(
    app: AppView,
    setup: SetupView,
    line: Seq<char>,
    reason: String,
)
    requires
        app.setup == Some(setup),
    ensures
        app.with_install_started().setup == Some(
            SetupView { install_in_progress: true, install_error: None, ..setup },
        ),
        app.with_install_done(Ok(())).setup == Some(
            SetupView {
                install_in_progress: false,
                install_error: None,
                install_log: setup.install_log.push("Installation complete."@),
                ..setup
            },
        ),
        app.with_install_done(Err(reason)).setup == Some(
            SetupView { install_in_progress: false, install_error: Some(reason@), ..setup },
        ),
        app.with_install_line(line).setup matches Some(after) && {
            &&& after.install_log.len() > 0
            &&& after.install_log.last() == line
            &&& setup.install_log.len() < 8 ==> after.install_log == setup.install_log.push(line)
            &&& setup.install_log.len() >= 8 ==> after.install_log.len() == 8
                && after.install_log == setup.install_log.skip(
                setup.install_log.len() - 7,
            ).push(line)
            &&& after.install_in_progress == setup.install_in_progress
            &&& after.preflight == setup.preflight
        },
{
    if setup.install_log.len() >= 8 {
        if let Some(after) = app.with_install_line(line).setup {
            assert(after.install_log =~= setup.install_log.skip(
                setup.install_log.len() - 7,
            ).push(line));
        }
    }
}

/// The conversation of another tab is shown when that tab comes to the front: one
/// that was not seen before is empty, and what was shown is kept for its own tab.
pub proof fn law_tabs_have_their_conversation(
    app: AppView,
    params: JsonView,
    own: Seq<char>,
    tab: Seq<char>,
)
    requires
        app.tab_id == Some(own),
        params.get("tab_id"@) == Some(JsonView::Text(tab)),
        own != tab,
    ensures
        ({
            let after = app.with_tab_change(params);
            &&& after.tab_id == Some(tab)
            &&& after.tab_sessions.dom().contains(own)
            &&& after.tab_sessions[own] == (TabView {
                messages: app.messages,
                completed_turns: app.completed_turns,
                selected_history: app.selected_history,
                expanded_history: app.expanded_history,
                scroll_offset: app.scroll_offset,
            })
            &&& !after.tab_sessions.dom().contains(tab)
            &&& !app.tab_sessions.dom().contains(tab) ==> after.messages.len() == 0
                && after.completed_turns.len() == 0 && after.selected_history is None
                && after.scroll_offset == 0
            &&& app.tab_sessions.dom().contains(tab) ==> {
                let kept = app.tab_sessions[tab];
                &&& after.messages == kept.messages
                &&& after.completed_turns == kept.completed_turns
                &&& after.selected_history == kept.selected_history
                &&& after.expanded_history == kept.expanded_history
                &&& after.scroll_offset == kept.scroll_offset
            }
            &&& after.input == app.input
            &&& after.effects == app.effects
            &&& after.recommendations == app.recommendations
        }),
{
}

/// The hooks of agents are shown only where they are logged, and never on a
/// banner.
pub proof fn law_hooks_are_shown_where_logged(
    app: &mut App,
    method: &str,
    session: &str,
    params: &Json,
    ctx: &EventContext,
    event: Seq<char>,
)
    requires
        call_ensures(App::handle_wt_event, (app, method, session, params, ctx), ()),
        method@ == "agent_event"@,
        params@.get("event"@) == Some(JsonView::Text(event)),
        text::has_prefix(event, "agent."@),
    ensures
        final(app)@.wt_notifications == old(app)@.wt_notifications,
        final(app)@.show_notification_banner == old(app)@.show_notification_banner,
        !old(app)@.log_agent_events ==> final(app)@.messages == old(app)@.messages,
        old(app)@.log_agent_events ==> final(app)@.messages.len() == old(app)@.messages.len() + 1
            && final(app)@.messages.last() is AgentEvent,
{
    lemma_words();
}

/// A pane that cannot be found is closed for its session, and a pane that resumes
/// a session is its pane.
pub proof fn law_panes_of_sessions_are_kept_up(
    app: AppView,
    pane: Seq<char>,
    reason: FocusPaneFailureReason,
    message: DebugView,
)
    requires
        app.debug_messages.len() <= 500,
    ensures
        app.with_focus_failure(pane, reason).effects == if reason is NotFound {
            app.effects.push(
                EffectView::ChangeSession(SessionView::PaneClosed { pane_session_id: pane }),
            )
        } else {
            app.effects
        },
        ({
            let list = app.with_debug_message(message).debug_messages;
            &&& list.len() > 0 && list.last() == message
            &&& app.debug_messages.len() < 500 ==> list == app.debug_messages.push(message)
            &&& app.debug_messages.len() == 500 ==> list.len() == 500
        }),
{
}

/// Something that goes on is shown again with every tick; a message of the debug
/// panel only where the panel is shown; anything else always.
pub proof fn law_changes_are_shown(app: &App, event: &AppEvent, yes: bool)
    requires
        call_ensures(App::event_requires_redraw, (app, event), yes),
    ensures
        event is Tick ==> yes == (app@.prompt_in_flight || app@.agent_streaming
            || app@.progress_status is Some || (app@.setup matches Some(setup)
            && setup.install_in_progress) || app@.show_notification_banner),
        event is DebugPipeMessage ==> yes == app@.show_debug_panel,
        !(event is Tick) && !(event is DebugPipeMessage) ==> yes,
{
}

} // verus!
