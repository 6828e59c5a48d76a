//! Requests that are carried out by running `wtcli`.
use crate::app::notifications;
use crate::app::notifications::str_or;
use crate::json;
use crate::json::{parse_json, Json, JsonView};
use crate::text;
use crate::text::{same_text, signed_number_text, trim};
use vstd::prelude::*;

verus! {

/// A parameter that is a text; one that is missing is empty.
pub open spec fn param(params: JsonView, key: Seq<char>) -> Seq<char> {
    notifications::text_or(params.text_at(key), Seq::empty())
}

/// An option with its value; nothing where the value is empty.
pub open spec fn option_of(name: Seq<char>, value: Seq<char>) -> Seq<Seq<char>> {
    if value.len() > 0 {
        seq![name, value]
    } else {
        Seq::empty()
    }
}

/// The texts among the first `n` values.
pub open spec fn texts_among(values: Seq<JsonView>, n: int) -> Seq<Seq<char>>
    decreases n,
{
    if n <= 0 || n > values.len() {
        Seq::empty()
    } else {
        match values[n - 1] {
            JsonView::Text(text) => texts_among(values, n - 1).push(text),
            _ => texts_among(values, n - 1),
        }
    }
}

/// The choices of a quick pick.
pub open spec fn choices_of(params: JsonView) -> Seq<Seq<char>> {
    match params.array_at("choices"@) {
        Some(values) => texts_among(values, values.len() as int),
        None => Seq::empty(),
    }
}

/// How many lines are read from a pane.
pub open spec fn lines_wanted(params: JsonView) -> i64 {
    match params.i64_at("max_lines"@) {
        Some(n) => n,
        None => 200,
    }
}

/// A pane is split into an upper and a lower one.
pub open spec fn splits_rows(direction: Seq<char>) -> bool {
    direction == "horizontal"@ || direction == "down"@ || direction == "up"@
}

/// The subcommand of `wtcli` for a method, with its options.
pub open spec fn subcommand(method: Seq<char>, params: JsonView) -> Option<Seq<Seq<char>>> {
    let pane = option_of("-t"@, param(params, "pane_id"@));
    if method == "list_windows"@ {
        Some(seq!["list-windows"@])
    } else if method == "list_tabs"@ {
        Some(seq!["list-tabs"@] + option_of("-w"@, param(params, "window_id"@)))
    } else if method == "list_panes"@ {
        Some(
            seq!["list-panes"@] + option_of("-w"@, param(params, "window_id"@)) + option_of(
                "-t"@,
                param(params, "tab_id"@),
            ),
        )
    } else if method == "get_active_pane"@ {
        Some(seq!["active-pane"@])
    } else if method == "read_pane_output"@ {
        Some(
            (seq!["capture-pane"@] + pane).push("-l"@).push(
                text::signed_decimal(lines_wanted(params) as int),
            ),
        )
    } else if method == "get_process_status"@ {
        Some(seq!["pane-status"@] + pane)
    } else if method == "create_tab"@ {
        Some(
            seq!["new-tab"@] + option_of("-c"@, param(params, "commandline"@)) + option_of(
                "-n"@,
                param(params, "title"@),
            ),
        )
    } else if method == "split_pane"@ {
        Some(
            (seq!["split-pane"@] + pane).push(
                if splits_rows(param(params, "direction"@)) {
                    "-H"@
                } else {
                    "-v"@
                },
            ) + option_of("-c"@, param(params, "commandline"@)),
        )
    } else if method == "close_pane"@ {
        Some(seq!["kill-pane"@, "-t"@, param(params, "pane_id"@)])
    } else if method == "send_input"@ {
        Some((seq!["send-keys"@] + pane).push(param(params, "text"@)))
    } else if method == "get_capabilities"@ {
        Some(seq!["info"@])
    } else if method == "quick_pick"@ {
        Some(
            seq!["quick-pick"@] + option_of("--title"@, param(params, "title"@)) + choices_of(
                params,
            ),
        )
    } else {
        None
    }
}

fn get<'a>(params: &'a Json, key: &str) -> (value: &'a str)
    ensures
        value@ == param(params@, key@),
{
    proof {
        reveal_strlit("");
        assert(""@ =~= Seq::<char>::empty());
    }
    str_or(params.str_at(key), "")
}

fn start(name: &str) -> (args: Vec<String>)
    ensures
        text::texts(args@) == seq![name@],
{
    let mut args: Vec<String> = Vec::new();
    args.push(name.to_owned());
    assert(text::texts(args@) =~= seq![name@]);
    args
}

fn push(args: &mut Vec<String>, arg: &str)
    ensures
        text::texts(final(args)@) == text::texts(old(args)@).push(arg@),
{
    args.push(arg.to_owned());
    assert(text::texts(args@) =~= text::texts(old(args)@).push(arg@));
}

fn push_option(args: &mut Vec<String>, name: &str, value: &str)
    ensures
        text::texts(final(args)@) == text::texts(old(args)@) + option_of(name@, value@),
{
    if !value.is_empty() {
        push(args, name);
        push(args, value);
    }
    assert(text::texts(args@) =~= text::texts(old(args)@) + option_of(name@, value@));
}

fn push_choices(args: &mut Vec<String>, params: &Json)
    ensures
        text::texts(final(args)@) == text::texts(old(args)@) + choices_of(params@),
{
    let values = match params.array_at("choices") {
        Some(values) => values,
        None => {
            assert(text::texts(args@) =~= text::texts(args@) + choices_of(params@));
            return;
        },
    };
    let ghost seen = params@.array_at("choices"@)->0;
    let ghost before = text::texts(args@);
    let mut i: usize = 0;
    assert(before + texts_among(seen, 0) =~= before);
    while i < values.len()
        invariant
            i <= values@.len(),
            seen.len() == values@.len(),
            forall|j: int| 0 <= j < values@.len() ==> #[trigger] seen[j] == values@[j]@,
            text::texts(args@) == before + texts_among(seen, i as int),
        decreases values@.len() - i,
    {
        assert(seen[i as int] == values@[i as int]@);
        if let Some(choice) = values[i].as_str() {
            push(args, choice);
            assert(text::texts(args@) =~= before + texts_among(seen, i + 1));
        }
        i += 1;
    }
}

/// The arguments of `wtcli` for a request.
pub fn wtcli_arguments(method: &str, params: &Json) -> (r: Result<Vec<String>, String>)
    ensures
        match r {
            Ok(args) => subcommand(method@, params@) matches Some(wanted) && text::texts(args@)
                == wanted.push("--json"@),
            Err(message) => subcommand(method@, params@) is None && message@
                == "Unsupported method: "@ + method@,
        },
{
    let mut args: Vec<String>;
    if same_text(method, "list_windows") {
        args = start("list-windows");
    } else if same_text(method, "list_tabs") {
        args = start("list-tabs");
        push_option(&mut args, "-w", get(params, "window_id"));
    } else if same_text(method, "list_panes") {
        args = start("list-panes");
        push_option(&mut args, "-w", get(params, "window_id"));
        push_option(&mut args, "-t", get(params, "tab_id"));
    } else if same_text(method, "get_active_pane") {
        args = start("active-pane");
    } else if same_text(method, "read_pane_output") {
        args = start("capture-pane");
        push_option(&mut args, "-t", get(params, "pane_id"));
        push(&mut args, "-l");
        let lines: i64 = match params.i64_at("max_lines") {
            Some(n) => n,
            None => 200,
        };
        push(&mut args, signed_number_text(lines).as_str());
    } else if same_text(method, "get_process_status") {
        args = start("pane-status");
        push_option(&mut args, "-t", get(params, "pane_id"));
    } else if same_text(method, "create_tab") {
        args = start("new-tab");
        push_option(&mut args, "-c", get(params, "commandline"));
        push_option(&mut args, "-n", get(params, "title"));
    } else if same_text(method, "split_pane") {
        args = start("split-pane");
        push_option(&mut args, "-t", get(params, "pane_id"));
        let direction = get(params, "direction");
        if same_text(direction, "horizontal") || same_text(direction, "down") || same_text(
            direction,
            "up",
        ) {
            push(&mut args, "-H");
        } else {
            push(&mut args, "-v");
        }
        push_option(&mut args, "-c", get(params, "commandline"));
    } else if same_text(method, "close_pane") {
        args = start("kill-pane");
        push(&mut args, "-t");
        push(&mut args, get(params, "pane_id"));
        assert(text::texts(args@) =~= seq!["kill-pane"@, "-t"@, param(params@, "pane_id"@)]);
    } else if same_text(method, "send_input") {
        args = start("send-keys");
        push_option(&mut args, "-t", get(params, "pane_id"));
        push(&mut args, get(params, "text"));
    } else if same_text(method, "get_capabilities") {
        args = start("info");
    } else if same_text(method, "quick_pick") {
        args = start("quick-pick");
        push_option(&mut args, "--title", get(params, "title"));
        push_choices(&mut args, params);
    } else {
        let mut message = "Unsupported method: ".to_owned();
        message.append(method);
        return Err(message);
    }
    push(&mut args, "--json");
    Ok(args)
}

/// What was read from the output of `wtcli`.
pub fn wtcli_value(read: Result<Json, String>) -> (r: Result<Json, String>)
    ensures
        match read {
            Ok(value) => r matches Ok(same) && same@ == value@,
            Err(reason) => r matches Err(message) && message@
                == "Failed to parse wtcli JSON output: "@ + reason@,
        },
{
    match read {
        Ok(value) => Ok(value),
        Err(reason) => {
            let mut message = "Failed to parse wtcli JSON output: ".to_owned();
            message.append(reason.as_str());
            Err(message)
        },
    }
}

/// What a run of `wtcli` came to.
pub fn wtcli_result(success: bool, stdout: &str, stderr: &str) -> (r: Result<Json, String>)
    ensures
        if !success {
            r matches Err(message) && message@ == "wtcli failed: "@ + text::trimmed(stderr@)
        } else {
            match json::read_json(text::trimmed(stdout@)) {
                Ok(value) => r matches Ok(same) && same@ == value,
                Err(reason) => r matches Err(message) && message@
                    == "Failed to parse wtcli JSON output: "@ + reason,
            }
        },
{
    if !success {
        let mut message = "wtcli failed: ".to_owned();
        message.append(trim(stderr));
        return Err(message);
    }
    wtcli_value(parse_json(trim(stdout)))
}

/// The event in a line that `wtcli listen` writes. A line that is no JSON holds
/// none.
pub fn event_in_line(line: &str) -> (event: Option<Json>)
    ensures
        match (json::read_json(text::trimmed(line@)), event) {
            (Ok(value), Some(event)) => event@ == value,
            (Err(_), None) => true,
            _ => false,
        },
{
    match parse_json(trim(line)) {
        Ok(value) => Some(value),
        Err(_) => None,
    }
}

/// Whether the environment names the terminal.
pub fn check_environment(clsid_set: bool, pipe_name_set: bool) -> (r: Result<(), String>)
    ensures
        match r {
            Ok(()) => clsid_set || pipe_name_set,
            Err(message) => !clsid_set && !pipe_name_set && message@
                == "Neither WT_COM_CLSID nor WT_PIPE_NAME set. Must run inside a Windows Terminal pane."@,
        },
{
    if clsid_set || pipe_name_set {
        Ok(())
    } else {
        Err(
            "Neither WT_COM_CLSID nor WT_PIPE_NAME set. Must run inside a Windows Terminal pane.".to_owned(),
        )
    }
}

/// Whether the terminal is named at all.
pub fn check_identifier(pipe_name: &str) -> (r: Result<(), String>)
    ensures
        match r {
            Ok(()) => pipe_name@.len() > 0,
            Err(message) => pipe_name@.len() == 0 && message@ == "Empty connection identifier"@,
        },
{
    if pipe_name.is_empty() {
        Err("Empty connection identifier".to_owned())
    } else {
        Ok(())
    }
}

} // verus!
