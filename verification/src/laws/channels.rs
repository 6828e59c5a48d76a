//! How the requests reach the terminal: by its command line program, by its
//! object interface, and by its pipe.
use crate::json;
use crate::json::{Json, JsonView, NumberView};
use crate::text;
use crate::wt_channel::cli_channel::wtcli_arguments;
use crate::wt_channel::com_channel;
use crate::wt_channel::com_channel::{com_call, com_response, CallView, ComCall, ComReply};
use crate::wt_channel::pipe_channel::request_text;
use vstd::prelude::*;

verus! {

proof fn lemma_methods()
    ensures
        "list_windows"@.len() == 12 && "list_windows"@[0] == 'l',
        "authenticate"@.len() == 12 && "authenticate"@[0] == 'a',
        "get_settings"@.len() == 12 && "get_settings"@[0] == 'g',
        "set_settings"@.len() == 12 && "set_settings"@[0] == 's',
        "list_tabs"@.len() == 9,
        "list_panes"@.len() == 10 && "list_panes"@[0] == 'l',
        "create_tab"@.len() == 10 && "create_tab"@[0] == 'c' && "create_tab"@[1] == 'r',
        "split_pane"@.len() == 10 && "split_pane"@[0] == 's' && "split_pane"@[1] == 'p',
        "close_pane"@.len() == 10 && "close_pane"@[0] == 'c' && "close_pane"@[1] == 'l',
        "send_input"@.len() == 10 && "send_input"@[0] == 's' && "send_input"@[1] == 'e',
        "quick_pick"@.len() == 10 && "quick_pick"@[0] == 'q',
        "get_active_pane"@.len() == 15,
        "read_pane_output"@.len() == 16 && "read_pane_output"@[0] == 'r',
        "get_capabilities"@.len() == 16 && "get_capabilities"@[0] == 'g',
        "get_process_status"@.len() == 18,
        "get_session_variable"@.len() == 20 && "get_session_variable"@[0] == 'g',
        "set_session_variable"@.len() == 20 && "set_session_variable"@[0] == 's',
{
    reveal_strlit("list_windows");
    reveal_strlit("authenticate");
    reveal_strlit("get_settings");
    reveal_strlit("set_settings");
    reveal_strlit("list_tabs");
    reveal_strlit("list_panes");
    reveal_strlit("create_tab");
    reveal_strlit("split_pane");
    reveal_strlit("close_pane");
    reveal_strlit("send_input");
    reveal_strlit("quick_pick");
    reveal_strlit("get_active_pane");
    reveal_strlit("read_pane_output");
    reveal_strlit("get_capabilities");
    reveal_strlit("get_process_status");
    reveal_strlit("get_session_variable");
    reveal_strlit("set_session_variable");
}

/// The arguments of the program for a request about a pane: the subcommand of the
/// request, the pane, and what goes with it.
pub proof fn law_program_is_told_of_the_pane(
    method: &str,
    params: &Json,
    r: Result<Vec<String>, String>,
    pane: Seq<char>,
    typed: Seq<char>,
)
    requires
        call_ensures(wtcli_arguments, (method, params), r),
        params@.get("pane_id"@) == Some(JsonView::Text(pane)),
        pane.len() > 0,
    ensures
        method@ == "close_pane"@ ==> (r matches Ok(args) && text::texts(args@) == seq![
            "kill-pane"@,
            "-t"@,
            pane,
            "--json"@,
        ]),
        method@ == "get_process_status"@ ==> (r matches Ok(args) && text::texts(args@) == seq![
            "pane-status"@,
            "-t"@,
            pane,
            "--json"@,
        ]),
        method@ == "send_input"@ && params@.get("text"@) == Some(JsonView::Text(typed)) ==> (
        r matches Ok(args) && text::texts(args@) == seq![
            "send-keys"@,
            "-t"@,
            pane,
            typed,
            "--json"@,
        ]),
        method@ == "read_pane_output"@ && params@.get("max_lines"@) is None ==> (r matches Ok(args)
            && text::texts(args@) == seq![
            "capture-pane"@,
            "-t"@,
            pane,
            "-l"@,
            text::signed_decimal(200),
            "--json"@,
        ]),
{
    lemma_methods();
    if let Ok(args) = r {
        let list = text::texts(args@);
        if method@ == "close_pane"@ {
            assert(list =~= seq!["kill-pane"@, "-t"@, pane, "--json"@]);
        }
        if method@ == "get_process_status"@ {
            assert(list =~= seq!["pane-status"@, "-t"@, pane, "--json"@]);
        }
        if method@ == "send_input"@ && params@.get("text"@) == Some(JsonView::Text(typed)) {
            assert(list =~= seq!["send-keys"@, "-t"@, pane, typed, "--json"@]);
        }
        if method@ == "read_pane_output"@ && params@.get("max_lines"@) is None {
            assert(list =~= seq![
                "capture-pane"@,
                "-t"@,
                pane,
                "-l"@,
                text::signed_decimal(200),
                "--json"@,
            ]);
        }
    }
}

/// As many lines are read as are asked for.
pub proof fn law_program_reads_the_lines_asked_for(
    params: &Json,
    r: Result<Vec<String>, String>,
    pane: Seq<char>,
    n: u64,
)
    requires
        call_ensures(wtcli_arguments, ("read_pane_output", params), r),
        params@.get("pane_id"@) == Some(JsonView::Text(pane)),
        params@.get("max_lines"@) == Some(JsonView::Number(NumberView::Unsigned(n))),
        n <= i64::MAX,
        pane.len() > 0,
    ensures
        r matches Ok(args) && text::texts(args@) == seq![
            "capture-pane"@,
            "-t"@,
            pane,
            "-l"@,
            text::decimal(n as nat),
            "--json"@,
        ],
{
    lemma_methods();
    if let Ok(args) = r {
        assert(text::texts(args@) =~= seq![
            "capture-pane"@,
            "-t"@,
            pane,
            "-l"@,
            text::decimal(n as nat),
            "--json"@,
        ]);
    }
}

/// A pane is split into rows for the directions that stack panes, and else into
/// columns; the command line goes along where there is one.
pub proof fn law_program_splits_the_way_asked_for(
    params: &Json,
    r: Result<Vec<String>, String>,
    pane: Seq<char>,
    direction: Seq<char>,
    line: Seq<char>,
)
    requires
        call_ensures(wtcli_arguments, ("split_pane", params), r),
        params@.get("pane_id"@) == Some(JsonView::Text(pane)),
        pane.len() > 0,
        params@.get("direction"@) == Some(JsonView::Text(direction)),
        params@.get("commandline"@) == Some(JsonView::Text(line)),
    ensures
        ({
            let flag = if direction == "horizontal"@ || direction == "down"@ || direction == "up"@ {
                "-H"@
            } else {
                "-v"@
            };
            r matches Ok(args) && text::texts(args@) == if line.len() > 0 {
                seq!["split-pane"@, "-t"@, pane, flag, "-c"@, line, "--json"@]
            } else {
                seq!["split-pane"@, "-t"@, pane, flag, "--json"@]
            }
        }),
{
    lemma_methods();
    let flag = if direction == "horizontal"@ || direction == "down"@ || direction == "up"@ {
        "-H"@
    } else {
        "-v"@
    };
    if let Ok(args) = r {
        if line.len() > 0 {
            assert(text::texts(args@) =~= seq![
                "split-pane"@,
                "-t"@,
                pane,
                flag,
                "-c"@,
                line,
                "--json"@,
            ]);
        } else {
            assert(text::texts(args@) =~= seq!["split-pane"@, "-t"@, pane, flag, "--json"@]);
        }
    }
}

/// The arguments of the program for the other requests.
pub proof fn law_program_is_told_what_to_list(
    method: &str,
    params: &Json,
    r: Result<Vec<String>, String>,
    window: Seq<char>,
    tab: Seq<char>,
)
    requires
        call_ensures(wtcli_arguments, (method, params), r),
        params@.get("window_id"@) == Some(JsonView::Text(window)),
        params@.get("tab_id"@) == Some(JsonView::Text(tab)),
        window.len() > 0,
        tab.len() > 0,
    ensures
        method@ == "list_windows"@ ==> (r matches Ok(args) && text::texts(args@) == seq![
            "list-windows"@,
            "--json"@,
        ]),
        method@ == "list_tabs"@ ==> (r matches Ok(args) && text::texts(args@) == seq![
            "list-tabs"@,
            "-w"@,
            window,
            "--json"@,
        ]),
        method@ == "list_panes"@ ==> (r matches Ok(args) && text::texts(args@) == seq![
            "list-panes"@,
            "-w"@,
            window,
            "-t"@,
            tab,
            "--json"@,
        ]),
        method@ == "get_active_pane"@ ==> (r matches Ok(args) && text::texts(args@) == seq![
            "active-pane"@,
            "--json"@,
        ]),
        method@ == "get_capabilities"@ ==> (r matches Ok(args) && text::texts(args@) == seq![
            "info"@,
            "--json"@,
        ]),
{
    lemma_methods();
    if let Ok(args) = r {
        let list = text::texts(args@);
        if method@ == "list_windows"@ {
            assert(list =~= seq!["list-windows"@, "--json"@]);
        }
        if method@ == "list_tabs"@ {
            assert(list =~= seq!["list-tabs"@, "-w"@, window, "--json"@]);
        }
        if method@ == "list_panes"@ {
            assert(list =~= seq!["list-panes"@, "-w"@, window, "-t"@, tab, "--json"@]);
        }
        if method@ == "get_active_pane"@ {
            assert(list =~= seq!["active-pane"@, "--json"@]);
        }
        if method@ == "get_capabilities"@ {
            assert(list =~= seq!["info"@, "--json"@]);
        }
    }
}

/// A new tab gets its command line and its title where they are given.
pub proof fn law_program_opens_the_tab_asked_for(
    params: &Json,
    r: Result<Vec<String>, String>,
    line: Seq<char>,
    title: Seq<char>,
)
    requires
        call_ensures(wtcli_arguments, ("create_tab", params), r),
        params@.get("commandline"@) == Some(JsonView::Text(line)),
        params@.get("title"@) == Some(JsonView::Text(title)),
    ensures
        r matches Ok(args) && text::texts(args@) == seq!["new-tab"@] + (if line.len() > 0 {
            seq!["-c"@, line]
        } else {
            Seq::empty()
        }) + (if title.len() > 0 {
            seq!["-n"@, title]
        } else {
            Seq::empty()
        }) + seq!["--json"@],
{
    lemma_methods();
    if let Ok(args) = r {
        assert(text::texts(args@) =~= seq!["new-tab"@] + (if line.len() > 0 {
            seq!["-c"@, line]
        } else {
            Seq::empty()
        }) + (if title.len() > 0 {
            seq!["-n"@, title]
        } else {
            Seq::empty()
        }) + seq!["--json"@]);
    }
}

/// The object interface is called with the pane, the text and the names that the
/// request gives.
pub proof fn law_object_calls_hold_what_is_asked(
    method: &str,
    params: &Json,
    r: Result<ComCall, String>,
    pane: Seq<char>,
    typed: Seq<char>,
    name: Seq<char>,
    value: Seq<char>,
)
    requires
        call_ensures(com_call, (method, params), r),
        params@.get("pane_id"@) == Some(JsonView::Text(pane)),
        params@.get("text"@) == Some(JsonView::Text(typed)),
        params@.get("name"@) == Some(JsonView::Text(name)),
        params@.get("value"@) == Some(JsonView::Text(value)),
    ensures
        method@ == "close_pane"@ ==> (r matches Ok(call) && call@ == (CallView::ClosePane {
            pane_id: pane,
        })),
        method@ == "send_input"@ ==> (r matches Ok(call) && call@ == (CallView::SendInput {
            pane_id: pane,
            text: typed,
        })),
        method@ == "get_process_status"@ ==> (r matches Ok(call) && call@ == (
        CallView::GetProcessStatus { pane_id: pane })),
        method@ == "get_session_variable"@ ==> (r matches Ok(call) && call@ == (
        CallView::GetSessionVariable { pane_id: pane, name })),
        method@ == "set_session_variable"@ ==> (r matches Ok(call) && call@ == (
        CallView::SetSessionVariable { pane_id: pane, name, value })),
        method@ == "read_pane_output"@ ==> (r matches Ok(call) && call@ matches CallView::ReadPaneOutput {
            pane_id,
            ..
        } && pane_id == pane),
        method@ == "split_pane"@ ==> (r matches Ok(call) && call@ matches CallView::SplitPane {
            pane_id,
            ..
        } && pane_id == pane),
        method@ == "list_windows"@ ==> (r matches Ok(call) && call@ == CallView::ListWindows),
        method@ == "get_active_pane"@ ==> (r matches Ok(call) && call@ == CallView::GetActivePane),
        method@ == "get_capabilities"@ ==> (r matches Ok(call) && call@
            == CallView::GetCapabilities),
        method@ == "get_settings"@ ==> (r matches Ok(call) && call@ == CallView::GetSettings),
{
    lemma_methods();
}

/// What is not said of a new tab or pane is what the terminal does by itself: it
/// opens in the background, to the right, without credentials.
pub proof fn law_object_calls_fill_in_what_is_left_out(
    method: &str,
    params: &Json,
    r: Result<ComCall, String>,
    line: Seq<char>,
)
    requires
        call_ensures(com_call, (method, params), r),
        params@.get("commandline"@) == Some(JsonView::Text(line)),
        params@.get("background"@) is None,
        params@.get("inject_mcp_credentials"@) is None,
        params@.get("suppress_application_title"@) is None,
        params@.get("direction"@) is None,
        params@.get("source"@) is None,
        params@.get("max_lines"@) is None,
    ensures
        method@ == "create_tab"@ ==> (r matches Ok(call) && call@ matches CallView::CreateTab {
            commandline,
            background,
            inject_mcp_credentials,
            suppress_application_title,
            ..
        } && commandline == line && background && !inject_mcp_credentials
            && !suppress_application_title),
        method@ == "split_pane"@ ==> (r matches Ok(call) && call@ matches CallView::SplitPane {
            commandline,
            background,
            inject_mcp_credentials,
            direction,
            ..
        } && commandline == line && background && !inject_mcp_credentials && direction
            == "right"@),
        method@ == "read_pane_output"@ ==> (r matches Ok(call) && call@ matches CallView::ReadPaneOutput {
            source,
            max_lines,
            ..
        } && source == "scrollback"@ && max_lines == com_channel::low_bits(200)),
{
    lemma_methods();
}

/// Both ways to the terminal take every request that the commands make, and refuse
/// one of another name by its name.
pub proof fn law_requests_of_the_commands_are_known(
    method: &str,
    params: &Json,
    program: Result<Vec<String>, String>,
    object: Result<ComCall, String>,
)
    requires
        call_ensures(wtcli_arguments, (method, params), program),
        call_ensures(com_call, (method, params), object),
    ensures
        method@ == "list_windows"@ || method@ == "list_tabs"@ || method@ == "list_panes"@ || method@
            == "get_active_pane"@ || method@ == "read_pane_output"@ || method@
            == "get_process_status"@ || method@ == "create_tab"@ || method@ == "split_pane"@
            || method@ == "close_pane"@ || method@ == "send_input"@ || method@
            == "get_capabilities"@ ==> program is Ok && object is Ok,
        program matches Err(message) ==> message@ == "Unsupported method: "@ + method@,
        object matches Err(message) ==> message@ == "Unknown method: "@ + method@,
        program matches Ok(args) ==> args@.len() > 0 && args@.last()@ == "--json"@,
{
    lemma_methods();
    if let Ok(args) = program {
        assert(text::texts(args@).last() == "--json"@);
        assert(args@.len() == text::texts(args@).len());
        assert(text::texts(args@)[args@.len() - 1] == args@[args@.len() - 1]@);
    }
}

/// What the object interface answers is found under the names that the requests
/// look for.
pub proof fn law_object_replies_are_found(reply: &ComReply, value: Json)
    requires
        call_ensures(com_response, (reply,), value),
    ensures
        reply matches ComReply::Created(created) ==> {
            &&& value@.get("pane_id"@) == Some(JsonView::Text(created.pane_id@))
            &&& value@.get("tab_id"@) == Some(JsonView::Text(created.tab_id@))
            &&& value@.get("window_id"@) == Some(JsonView::Text(created.window_id@))
        },
        reply matches ComReply::ActivePane(pane) ==> {
            &&& value@.get("pane_id"@) == Some(JsonView::Text(pane.pane_id@))
            &&& value@.get("tab_id"@) == Some(JsonView::Text(pane.tab_id@))
            &&& value@.get("window_id"@) == Some(JsonView::Text(pane.window_id@))
        },
        reply matches ComReply::Output(output) ==> {
            &&& value@.get("pane_id"@) == Some(JsonView::Text(output.pane_id@))
            &&& value@.get("content"@) == Some(JsonView::Text(output.content@))
            &&& value@.get("truncated"@) == Some(JsonView::Bool(output.truncated != 0))
        },
        reply matches ComReply::Status(status) ==> {
            &&& value@.get("pane_id"@) == Some(JsonView::Text(status.pane_id@))
            &&& value@.get("state"@) == Some(JsonView::Text(status.state@))
            &&& value@.get("exit_code"@) is Some <==> status.has_exit_code != 0
        },
        reply matches ComReply::Settings(content) ==> value@.get("settings"@) == Some(
            JsonView::Text(content@),
        ),
        reply matches ComReply::Variable(variable) ==> {
            &&& value@.get("name"@) == Some(JsonView::Text(variable.name@))
            &&& value@.get("value"@) == Some(
                if variable.exists != 0 {
                    JsonView::Text(variable.value@)
                } else {
                    JsonView::Null
                },
            )
        },
        reply is Closed ==> value@.get("closed"@) == Some(JsonView::Bool(true)),
        reply is Sent ==> value@.get("sent"@) == Some(JsonView::Bool(true)),
        reply is VariableSet ==> value@.get("set"@) == Some(JsonView::Bool(true)),
{
    reveal_with_fuel(json::member_from, 8);
    reveal_strlit("pane_id");
    reveal_strlit("tab_id");
    reveal_strlit("window_id");
    reveal_strlit("title");
    reveal_strlit("content");
    reveal_strlit("line_count");
    reveal_strlit("truncated");
    reveal_strlit("state");
    reveal_strlit("pid");
    reveal_strlit("exit_code");
    reveal_strlit("settings");
    reveal_strlit("name");
    reveal_strlit("value");
    reveal_strlit("exists");
    reveal_strlit("closed");
    reveal_strlit("sent");
    reveal_strlit("set");
    assert("state"@[0] == 's' && "title"@[0] == 't' && "value"@[0] == 'v');
    assert("content"@[0] == 'c' && "pane_id"@[0] == 'p');
    assert("truncated"@[0] == 't' && "exit_code"@[0] == 'e' && "window_id"@[0] == 'w');
}

/// The lists that the object interface answers hold every item, in its order.
pub proof fn law_object_lists_hold_every_item(reply: &ComReply, value: Json, i: int)
    requires
        call_ensures(com_response, (reply,), value),
    ensures
        reply matches ComReply::Windows(list) ==> (value@.get("windows"@) matches Some(
            JsonView::Array(items),
        ) && items.len() == list@.len() && (0 <= i < list@.len() ==> items[i].get("window_id"@)
            == Some(JsonView::Text(list@[i].window_id@)))),
        reply matches ComReply::Tabs(list) ==> (value@.get("tabs"@) matches Some(
            JsonView::Array(items),
        ) && items.len() == list@.len() && (0 <= i < list@.len() ==> items[i].get("tab_id"@) == Some(
            JsonView::Text(list@[i].tab_id@),
        ))),
        reply matches ComReply::Panes(list) ==> (value@.get("panes"@) matches Some(
            JsonView::Array(items),
        ) && items.len() == list@.len() && (0 <= i < list@.len() ==> items[i].get("pane_id"@)
            == Some(JsonView::Text(list@[i].pane_id@)))),
{
    reveal_with_fuel(json::member_from, 2);
}

/// A request on the pipe is one line that holds its number, its method and its
/// parameters.
pub proof fn law_pipe_requests_hold_what_is_asked(
    id: u64,
    method: &str,
    params: &Json,
    line: String,
)
    requires
        call_ensures(request_text, (id, method, params), line),
    ensures
        line@ == "{\"type\":\"request\",\"id\":\""@ + text::decimal(id as nat) + "\",\"method\":"@
            + json::compact_json(JsonView::Text(method@)) + ",\"params\":"@ + json::compact_json(
            params@,
        ) + "}"@,
{
}

} // verus!
