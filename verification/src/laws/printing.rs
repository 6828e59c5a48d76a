//! What the commands print, how the terminal is found, and how the host of the
//! agent is started.
use crate::cli::host;
use crate::cli::host::{
    delegate_arguments, host_action, host_arguments, host_step, pane_context_from_identity,
    HostAction, HostStage, HostStep, SourceVariables,
};
use crate::cli::output;
use crate::cli::output::{print_output, Format, Listing};
use crate::cli::pipes;
use crate::cli::pipes::{
    pipe_info_lines, resolve_pipe_info, run_pipe_id, run_set_env, EnvironmentLines, PipeOverride,
    TerminalVariables,
};
use crate::cli::walk;
use crate::cli::walk::{Awaiting, PaneIdentity, WalkView};
use crate::app::types::PaneContext;
use crate::json;
use crate::json::{Json, JsonView, NumberView};
use crate::text;
use crate::wt_channel::discovery::{ConnectionInfo, DiscoverySource};
use vstd::prelude::*;

verus! {

/// A text or a number under a name, and a dash where there is none.
pub open spec fn shown(value: JsonView, key: Seq<char>) -> Seq<char> {
    match value.get(key) {
        Some(JsonView::Text(text)) => text,
        Some(JsonView::Number(NumberView::Unsigned(n))) => text::decimal(n as nat),
        Some(JsonView::Number(NumberView::Negative(n))) => text::signed_decimal(n as int),
        Some(JsonView::Number(NumberView::Decimal(text))) => text,
        _ => "-"@,
    }
}

/// What is printed for people: what was created, what is in front, and what the
/// process of a pane does.
pub proof fn law_answers_are_printed(
    value: &Json,
    tab: String,
    pane: String,
    active: String,
    status: String,
    raw: String,
    format: Format,
)
    requires
        call_ensures(print_output, (value, false, Format::CreatedTab), tab),
        call_ensures(print_output, (value, false, Format::CreatedPane), pane),
        call_ensures(print_output, (value, false, Format::ActivePane), active),
        call_ensures(print_output, (value, false, Format::PaneStatus), status),
        call_ensures(print_output, (value, true, format), raw),
    ensures
        tab@ == "Created tab "@ + shown(value@, "tab_id"@) + " (pane "@ + shown(
            value@,
            "pane_id"@,
        ) + ")"@,
        pane@ == "Created pane "@ + shown(value@, "pane_id"@),
        active@ == "Active pane: "@ + shown(value@, "pane_id"@) + " (tab: "@ + shown(
            value@,
            "tab_id"@,
        ) + ", window: "@ + shown(value@, "window_id"@) + ")"@,
        raw@ == json::pretty_json(value@),
        forall|pid: u64|
            value@.get("pid"@) == Some(JsonView::Number(NumberView::Unsigned(pid))) && value@.get(
                "state"@,
            ) == Some(JsonView::Text("running"@)) ==> status@ == "Running (PID: "@
                + #[trigger] text::decimal(pid as nat) + ")"@,
        forall|pid: u64, code: i64|
            #![trigger text::decimal(pid as nat), text::signed_decimal(code as int)]
            value@.get("pid"@) == Some(JsonView::Number(NumberView::Unsigned(pid))) && value@.get(
                "state"@,
            ) != Some(JsonView::Text("running"@)) && value@.get("exit_code"@) == Some(
                JsonView::Number(NumberView::Negative(code)),
            ) ==> status@ == "Exited (code: "@ + text::signed_decimal(code as int) + ", PID: "@
                + text::decimal(pid as nat) + ")"@,
{
}

/// A table has a heading, and a line for each item, in order; an empty list is
/// said to be one, and what is no list is printed as it came.
pub proof fn law_lists_are_printed_line_by_line(
    value: &Json,
    listing: Listing,
    printed: String,
    items: Seq<JsonView>,
    key: Seq<char>,
)
    requires
        call_ensures(print_output, (value, false, Format::Table(listing)), printed),
        key == match listing {
            Listing::Windows => "windows"@,
            Listing::Tabs => "tabs"@,
            Listing::Panes => "panes"@,
        },
    ensures
        value@.get(key) is None ==> printed@ == json::pretty_json(value@),
        value@.get(key) == Some(JsonView::Array(Seq::<JsonView>::empty())) ==> printed@
            == match listing {
            Listing::Windows => "No windows found."@,
            Listing::Tabs => "No tabs found."@,
            Listing::Panes => "No panes found."@,
        },
        value@.get(key) == Some(JsonView::Array(items)) && items.len() > 0 ==> printed@
            == output::table(listing, items.drop_last(), items.len() - 1) + "\n"@
            + output::table_line(listing, items.last()),
{
    if value@.get(key) == Some(JsonView::Array(items)) && items.len() > 0 {
        lemma_table_prefix(listing, items, items.len() - 1);
    }
}

proof fn lemma_table_prefix(listing: Listing, items: Seq<JsonView>, n: int)
    requires
        0 <= n < items.len(),
    ensures
        output::table(listing, items, n) == output::table(listing, items.drop_last(), n),
    decreases n,
{
    if n > 0 {
        lemma_table_prefix(listing, items, n - 1);
        assert(items.drop_last()[n - 1] == items[n - 1]);
    }
}

/// A line of a table names its item, and marks the one in front.
pub proof fn law_lines_name_their_item(value: JsonView, id: Seq<char>, title: Seq<char>)
    requires
        value.get("window_id"@) == Some(JsonView::Text(id)),
        value.get("tab_id"@) == Some(JsonView::Text(id)),
        value.get("pane_id"@) == Some(JsonView::Text(id)),
        value.get("title"@) == Some(JsonView::Text(title)),
        id.len() >= 12,
        title.len() >= 30,
    ensures
        output::table_line(Listing::Windows, value) == id + " "@ + title + " "@ + if value.get(
            "is_focused"@,
        ) == Some(JsonView::Bool(true)) {
            "*"@
        } else {
            Seq::empty()
        },
        output::table_line(Listing::Tabs, value) == id + " "@ + title + " "@ + if value.get(
            "is_active"@,
        ) == Some(JsonView::Bool(true)) {
            "*"@
        } else {
            Seq::empty()
        },
        output::table_line(Listing::Panes, value).take(id.len() as int) == id,
{
    assert(output::table_line(Listing::Panes, value).take(id.len() as int) =~= id);
}

/// Columns are filled up with blanks to their width, and nothing is cut.
pub proof fn law_columns_are_filled_up(s: Seq<char>, width: int)
    ensures
        output::padded(s, width).len() >= width,
        output::padded(s, width).take(s.len() as int) == s,
        forall|i: int|
            s.len() <= i < output::padded(s, width).len() ==> #[trigger] output::padded(s, width)[i]
                == ' ',
        s.len() >= width ==> output::padded(s, width) == s,
{
    assert(output::padded(s, width).take(s.len() as int) =~= s);
}

/// A pipe that is named counts before the class of the terminal, and that before
/// the pipe of the environment.
pub proof fn law_named_pipes_count_first(
    given: &PipeOverride,
    variables: &TerminalVariables,
    info: Option<ConnectionInfo>,
)
    requires
        call_ensures(resolve_pipe_info, (given, variables), info),
    ensures
        given.pipe_name matches Some(name) ==> (info matches Some(found) && found.pipe_name@ == name@
            && found.source == DiscoverySource::EnvVar && match given.pipe_token {
            Some(token) => found.token@ == token@,
            None => found.token@.len() == 0,
        }),
        given.pipe_name is None && variables.clsid is Some ==> (info matches Some(found)
            && found.pipe_name@ == variables.clsid->0@ && found.source
            == DiscoverySource::ComClsid && found.token@.len() == 0),
        given.pipe_name is None && variables.clsid is None && variables.pipe_name is Some ==> (
        info matches Some(found) && found.pipe_name@ == variables.pipe_name->0@ && found.source
            == DiscoverySource::EnvVar && match variables.token {
            Some(token) => found.token@ == token@,
            None => found.token@.len() == 0,
        }),
        given.pipe_name is None && variables.clsid is None && variables.pipe_name is None ==> info
            is None,
{
}

/// The lines that set the environment set the pipe, and the token where there is
/// one, in the words of the shell; an unknown shell is refused.
pub proof fn law_environments_are_set_in_the_words_of_the_shell(
    info: ConnectionInfo,
    shell: &str,
    r: Result<EnvironmentLines, String>,
)
    requires
        call_ensures(run_set_env, (&Some(info), shell), r),
    ensures
        shell@ == "bash"@ || shell@ == "sh"@ || shell@ == "zsh"@ ==> (r matches Ok(set)
            && set.lines@.len() == (if info.token@.len() > 0 {
            2int
        } else {
            1int
        }) && set.lines@[0]@ == "export "@ + "WT_PIPE_NAME"@ + "='"@ + info.pipe_name@ + "'"@
            && (info.token@.len() > 0 ==> set.lines@[1]@ == "export "@ + "WT_MCP_TOKEN"@
            + "='"@ + info.token@ + "'"@)),
        shell@ == "fish"@ ==> (r matches Ok(set) && set.lines@.len() > 0
            && set.lines@[0]@ == "set -gx "@ + "WT_PIPE_NAME"@ + " '"@ + info.pipe_name@
            + "'"@),
        shell@ == "powershell"@ || shell@ == "pwsh"@ || shell@ == "ps"@ ==> (r matches Ok(set)
            && set.lines@.len() > 0 && set.lines@[0]@ == "$env:"@ + "WT_PIPE_NAME"@
            + " = '"@ + info.pipe_name@ + "'"@),
        shell@ == "cmd"@ ==> (r matches Ok(set) && set.lines@.len() > 0
            && set.lines@[0]@ == "set "@ + "WT_PIPE_NAME"@ + "="@ + info.pipe_name@ + ""@),
{
    reveal_strlit("bash");
    reveal_strlit("sh");
    reveal_strlit("zsh");
    reveal_strlit("fish");
    reveal_strlit("powershell");
    reveal_strlit("pwsh");
    reveal_strlit("ps");
    reveal_strlit("cmd");
    assert("bash"@[0] == 'b' && "fish"@[0] == 'f' && "pwsh"@[0] == 'p');
    assert("sh"@[0] == 's' && "ps"@[0] == 'p' && "zsh"@[0] == 'z' && "cmd"@[0] == 'c');
    if let Ok(set) = r {
        assert(text::texts(set.lines@).len() == set.lines@.len());
        if set.lines@.len() > 0 {
            assert(text::texts(set.lines@)[0] == set.lines@[0]@);
        }
        if set.lines@.len() > 1 {
            assert(text::texts(set.lines@)[1] == set.lines@[1]@);
        }
    }
}

/// The host is started with the agent, with the delegate where one is named, and
/// with the pipe of the terminal and its token.
pub proof fn law_hosts_are_told_of_the_agent(
    agent: &str,
    delegate: Option<&str>,
    info: &Option<ConnectionInfo>,
    args: Vec<String>,
)
    requires
        call_ensures(host_arguments, (agent, delegate, info), args),
    ensures
        text::texts(args@) == seq!["host"@, "--agent"@, agent@] + (match delegate {
            Some(delegate) => if text::blank(delegate@) {
                Seq::empty()
            } else {
                seq!["--delegate-agent"@, delegate@]
            },
            None => Seq::empty(),
        }) + (match *info {
            Some(info) => seq!["--pipe-name"@, info.pipe_name@],
            None => Seq::empty(),
        }) + (match *info {
            Some(info) => if info.token@.len() > 0 {
                seq!["--pipe-token"@, info.token@]
            } else {
                Seq::empty()
            },
            None => Seq::empty(),
        }),
{
    assert(text::texts(args@) =~= seq!["host"@, "--agent"@, agent@] + (match delegate {
        Some(delegate) => if text::blank(delegate@) {
            Seq::empty()
        } else {
            seq!["--delegate-agent"@, delegate@]
        },
        None => Seq::empty(),
    }) + (match *info {
        Some(info) => seq!["--pipe-name"@, info.pipe_name@],
        None => Seq::empty(),
    }) + (match *info {
        Some(info) => if info.token@.len() > 0 {
            seq!["--pipe-token"@, info.token@]
        } else {
            Seq::empty()
        },
        None => Seq::empty(),
    }));
}

/// A delegate is told of the prompt as it is, and of the pipe and the token.
pub proof fn law_delegates_are_told_of_the_prompt(
    prompt: &str,
    pipe: &Option<String>,
    token: &Option<String>,
    args: Vec<String>,
)
    requires
        call_ensures(delegate_arguments, (prompt, pipe, token), args),
    ensures
        text::texts(args@) == seq!["delegate"@, prompt@] + (match *pipe {
            Some(pipe) => seq!["--pipe-name"@, pipe@],
            None => Seq::empty(),
        }) + (match *token {
            Some(token) => seq!["--pipe-token"@, token@],
            None => Seq::empty(),
        }),
{
    assert(text::texts(args@) =~= seq!["delegate"@, prompt@] + (match *pipe {
        Some(pipe) => seq!["--pipe-name"@, pipe@],
        None => Seq::empty(),
    }) + (match *token {
        Some(token) => seq!["--pipe-token"@, token@],
        None => Seq::empty(),
    }));
}

/// What is done to reach the host: it is ready as soon as it answers, it is looked
/// for before it is started, it is started only under the lock, and what fails for
/// good is given up.
pub proof fn law_hosts_are_reached(stage: HostStage, yes: HostStep, no: HostStep, action: HostAction)
    requires
        call_ensures(host_step, (stage, true), yes),
        call_ensures(host_step, (stage, false), no),
        call_ensures(host_action, (stage,), action),
    ensures
        action is WaitReady <==> stage == HostStage::Attaching || stage == HostStage::AttachWaiting
            || stage == HostStage::Checking || stage == HostStage::CheckingLocked || stage
            == HostStage::Waiting,
        action is Lock <==> stage == HostStage::Locking,
        action is Spawn <==> stage == HostStage::Starting,
        action is Probe <==> stage == HostStage::AttachProbing || stage == HostStage::Probing,
        yes is Ready <==> action is WaitReady,
        !(no is Ready),
        no is GiveUp <==> stage == HostStage::AttachWaiting || stage == HostStage::Locking || stage
            == HostStage::Starting || stage == HostStage::Waiting,
        yes == HostStep::Go(HostStage::CheckingLocked) <==> stage == HostStage::Locking,
        no == HostStep::Go(HostStage::Starting) <==> stage == HostStage::Probing,
        yes == HostStep::Go(HostStage::Waiting) <==> stage == HostStage::Probing || stage
            == HostStage::Starting,
        yes == HostStep::Go(HostStage::AttachWaiting) <==> stage == HostStage::AttachProbing,
        no == HostStep::Go(HostStage::Locking) <==> stage == HostStage::Checking,
        no == HostStep::Go(HostStage::Probing) <==> stage == HostStage::CheckingLocked,
        no == HostStep::Go(HostStage::Checking) <==> stage == HostStage::AttachProbing,
        no == HostStep::Go(HostStage::AttachProbing) <==> stage == HostStage::Attaching,
{
}

/// The pane that a command was started from is known by the variables that name
/// it, and else by the pane that the process runs in.
pub proof fn law_sources_are_named_by_their_variables(
    own: PaneIdentity,
    source: &SourceVariables,
    cwd: &Option<String>,
    known: PaneContext,
    unknown: PaneContext,
)
    requires
        call_ensures(pane_context_from_identity, (&Some(own), source, cwd), known),
        call_ensures(pane_context_from_identity, (&None::<PaneIdentity>, source, cwd), unknown),
    ensures
        known@.session_id == Some(own.pane_id@),
        unknown@.session_id is None,
        match source.pane_id {
            Some(pane) if text::trimmed(pane@).len() > 0 => known@.source_session_id == Some(
                text::trimmed(pane@),
            ) && unknown@.source_session_id == Some(text::trimmed(pane@)),
            _ => known@.source_session_id == Some(own.pane_id@) && unknown@.source_session_id
                is None,
        },
        match source.tab_id {
            Some(tab) if text::trimmed(tab@).len() > 0 => known@.tab_id == Some(
                text::trimmed(tab@),
            ) && unknown@.tab_id == Some(text::trimmed(tab@)),
            _ => known@.tab_id == Some(own.tab_id@) && unknown@.tab_id is None,
        },
        match source.window_id {
            Some(window) if text::trimmed(window@).len() > 0 => known@.window_id == Some(
                text::trimmed(window@),
            ) && unknown@.window_id == Some(text::trimmed(window@)),
            _ => known@.window_id == Some(own.window_id@) && unknown@.window_id is None,
        },
        match source.cwd {
            Some(dir) if text::trimmed(dir@).len() > 0 => known@.cwd == Some(text::trimmed(dir@)),
            _ => match *cwd {
                Some(dir) => known@.cwd == Some(dir@),
                None => known@.cwd is None,
            },
        },
{
}

/// The walk through the terminal asks for the windows, then for the tabs of a
/// window, then for the panes of a tab, each by its name.
pub proof fn law_walks_ask_for_what_comes_next(walk: WalkView)
    ensures
        walk.awaiting == Awaiting::Windows ==> walk.question() == Some(
            ("list_windows"@, JsonView::Object(Seq::empty())),
        ),
        walk.awaiting == Awaiting::Tabs ==> walk.question() == Some(
            ("list_tabs"@, JsonView::Object(seq![("window_id"@, JsonView::Text(walk.window_id))])),
        ),
        walk.awaiting == Awaiting::Panes ==> walk.question() == Some(
            ("list_panes"@, JsonView::Object(seq![("tab_id"@, JsonView::Text(walk.tab_id))])),
        ),
        walk.awaiting == Awaiting::Nothing ==> walk.question() is None,
{
}

/// The first window that has a name is walked first, and the first tab of it; a
/// walk that finds the pane of the process ends there, unless it counts them all.
pub proof fn law_walks_go_on_in_order(
    walk: WalkView,
    value: JsonView,
    items: Seq<JsonView>,
    id: Seq<char>,
)
    requires
        items.len() > 0,
    ensures
        walk.awaiting == Awaiting::Windows && value.get("windows"@) == Some(JsonView::Array(items))
            && items[0].get("window_id"@) == Some(JsonView::Text(id)) ==> {
            let after = walk.with_answer(Some(value));
            after.awaiting == Awaiting::Tabs && after.window_id == id
        },
        walk.awaiting == Awaiting::Tabs && value.get("tabs"@) == Some(JsonView::Array(items))
            && items[0].get("tab_id"@) == Some(JsonView::Text(id)) ==> {
            let after = walk.with_answer(Some(value));
            after.awaiting == Awaiting::Panes && after.tab_id == id && after.window_id
                == walk.window_id
        },
        walk.awaiting == Awaiting::Panes && !walk.thorough && value.get("panes"@) == Some(
            JsonView::Array(items),
        ) && items[0].get("pid"@) == Some(
            JsonView::Number(NumberView::Unsigned(walk.pid as u64)),
        ) && items[0].get("pane_id"@) == Some(JsonView::Text(id)) ==> {
            let after = walk.with_answer(Some(value));
            after.awaiting == Awaiting::Nothing && after.found == Some(
                walk::IdentityView {
                    pane_id: id,
                    tab_id: walk.tab_id,
                    window_id: walk.window_id,
                },
            )
        },
{
}

} // verus!
