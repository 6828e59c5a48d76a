//! The pipe of the terminal: which one is used, and how it is shown.
use crate::coordinator::text_ref;
use crate::json;
use crate::json::{add_member, object, pretty_text, text_value, Json, JsonView};
use crate::text;
use crate::text::same_text;
use crate::wt_channel::discovery::{discover_connection_info, ConnectionInfo, DiscoverySource};
use vstd::prelude::*;

verus! {

/// The pipe and the token that the command line names.
#[derive(Debug)]
pub struct PipeOverride {
    pub pipe_name: Option<String>,
    pub pipe_token: Option<String>,
}

/// What the environment says of the terminal: the variables `WT_COM_CLSID`,
/// `WT_PIPE_NAME` and `WT_MCP_TOKEN`.
#[derive(Debug)]
pub struct TerminalVariables {
    pub clsid: Option<String>,
    pub pipe_name: Option<String>,
    pub token: Option<String>,
}

/// `info` names this pipe outright, with a token that is empty where there is
/// none.
pub open spec fn names_pipe(
    info: Option<ConnectionInfo>,
    name: String,
    token: Option<String>,
) -> bool {
    info matches Some(info) && info.pipe_name@ == name@ && info.source == DiscoverySource::EnvVar
        && match token {
        Some(token) => info.token@ == token@,
        None => info.token@.len() == 0,
    }
}

/// `info` says how to reach the terminal: the command line comes first, then the
/// terminal that is discovered, and then the pipe that the environment names.
pub open spec fn resolves(
    given: PipeOverride,
    variables: TerminalVariables,
    info: Option<ConnectionInfo>,
) -> bool {
    match (given.pipe_name, variables.clsid, variables.pipe_name) {
        (Some(name), _, _) => names_pipe(info, name, given.pipe_token),
        (None, Some(clsid), _) => info matches Some(info) && info.pipe_name@ == clsid@
            && info.source == DiscoverySource::ComClsid && info.token@.len() == 0,
        (None, None, Some(name)) => names_pipe(info, name, variables.token),
        (None, None, None) => info is None,
    }
}

fn named_pipe(name: &String, token: &Option<String>) -> (info: Option<ConnectionInfo>)
    ensures
        names_pipe(info, *name, *token),
{
    Some(
        ConnectionInfo {
            pipe_name: name.clone(),
            token: match token {
                Some(token) => token.clone(),
                None => String::new(),
            },
            source: DiscoverySource::EnvVar,
        },
    )
}

/// How to reach the terminal.
pub fn resolve_pipe_info(given: &PipeOverride, variables: &TerminalVariables) -> (info: Option<
    ConnectionInfo,
>)
    ensures
        resolves(*given, *variables, info),
{
    if let Some(name) = &given.pipe_name {
        return named_pipe(name, &given.pipe_token);
    }
    let discovered = discover_connection_info(text_ref(&variables.clsid));
    if discovered.is_some() {
        return discovered;
    }
    match &variables.pipe_name {
        Some(name) => named_pipe(name, &variables.token),
        None => None,
    }
}

/// What is said where no pipe is known.
pub fn no_pipe_message() -> (message: String)
    ensures
        message@
            == "Cannot find Windows Terminal pipe. Use --pipe-name or set WT_PIPE_NAME."@,
{
    "Cannot find Windows Terminal pipe. Use --pipe-name or set WT_PIPE_NAME.".to_owned()
}

/// What is said where no pipe is found for a command that prints it.
pub fn no_discovery_message() -> (message: String)
    ensures
        message@
            == "Cannot discover pipe. Use --pipe-name or set WT_PIPE_NAME, or run inside Windows Terminal."@,
{
    "Cannot discover pipe. Use --pipe-name or set WT_PIPE_NAME, or run inside Windows Terminal.".to_owned()
}

/// The name of a source.
pub open spec fn source_text(source: DiscoverySource) -> Seq<char> {
    match source {
        DiscoverySource::VtOsc => "VtOsc"@,
        DiscoverySource::ComClsid => "ComClsid"@,
        DiscoverySource::InheritedPipe => "InheritedPipe"@,
        DiscoverySource::EnvVar => "EnvVar"@,
    }
}

/// The name of a source.
pub fn source_name(source: DiscoverySource) -> (name: &'static str)
    ensures
        name@ == source_text(source),
{
    match source {
        DiscoverySource::VtOsc => "VtOsc",
        DiscoverySource::ComClsid => "ComClsid",
        DiscoverySource::InheritedPipe => "InheritedPipe",
        DiscoverySource::EnvVar => "EnvVar",
    }
}

/// The pipe as a JSON value. The token itself is not shown.
pub open spec fn pipe_value(info: ConnectionInfo) -> JsonView {
    JsonView::Object(
        seq![
            ("pipe_name"@, JsonView::Text(info.pipe_name@)),
            ("token_set"@, JsonView::Bool(info.token@.len() > 0)),
            ("source"@, JsonView::Text(source_text(info.source))),
        ],
    )
}

/// What `pipe-id` prints.
pub fn run_pipe_id(info: &Option<ConnectionInfo>, json_mode: bool) -> (r: Result<String, String>)
    ensures
        match (*info, r) {
            (Some(info), Ok(text)) => text@ == if json_mode {
                json::pretty_json(pipe_value(info))
            } else {
                info.pipe_name@
            },
            (None, Err(message)) => message@
                == "Cannot discover pipe. Use --pipe-name or set WT_PIPE_NAME, or run inside Windows Terminal."@,
            _ => false,
        },
{
    let info = match info {
        Some(info) => info,
        None => return Err(no_discovery_message()),
    };
    if !json_mode {
        return Ok(info.pipe_name.clone());
    }
    let mut members: Vec<(String, Json)> = Vec::new();
    assert(json::members_view(members@) =~= Seq::<(Seq<char>, JsonView)>::empty());
    add_member(&mut members, "pipe_name", text_value(info.pipe_name.as_str()));
    add_member(&mut members, "token_set", Json::Bool(!info.token.as_str().is_empty()));
    add_member(&mut members, "source", text_value(source_name(info.source)));
    assert(json::members_view(members@) =~= seq![
        ("pipe_name"@, JsonView::Text(info.pipe_name@)),
        ("token_set"@, JsonView::Bool(info.token@.len() > 0)),
        ("source"@, JsonView::Text(source_text(info.source))),
    ]);
    Ok(pretty_text(&object(members)))
}

/// A shell for which variables can be set.
#[derive(Debug, Clone, Copy, PartialEq, Eq, Structural)]
pub enum ShellSyntax {
    Bash,
    PowerShell,
    Cmd,
    Fish,
}

/// The shell of a name.
pub open spec fn syntax_of(name: Seq<char>) -> Option<ShellSyntax> {
    if name == "bash"@ || name == "sh"@ || name == "zsh"@ {
        Some(ShellSyntax::Bash)
    } else if name == "powershell"@ || name == "pwsh"@ || name == "ps"@ {
        Some(ShellSyntax::PowerShell)
    } else if name == "cmd"@ {
        Some(ShellSyntax::Cmd)
    } else if name == "fish"@ {
        Some(ShellSyntax::Fish)
    } else {
        None
    }
}

/// The shell of a name.
pub fn shell_syntax(name: &str) -> (syntax: Option<ShellSyntax>)
    ensures
        syntax == syntax_of(name@),
{
    if same_text(name, "bash") || same_text(name, "sh") || same_text(name, "zsh") {
        Some(ShellSyntax::Bash)
    } else if same_text(name, "powershell") || same_text(name, "pwsh") || same_text(name, "ps") {
        Some(ShellSyntax::PowerShell)
    } else if same_text(name, "cmd") {
        Some(ShellSyntax::Cmd)
    } else if same_text(name, "fish") {
        Some(ShellSyntax::Fish)
    } else {
        None
    }
}

/// The line that sets a variable.
pub open spec fn setting(syntax: ShellSyntax, name: Seq<char>, value: Seq<char>) -> Seq<char> {
    match syntax {
        ShellSyntax::Bash => "export "@ + name + "='"@ + value + "'"@,
        ShellSyntax::PowerShell => "$env:"@ + name + " = '"@ + value + "'"@,
        ShellSyntax::Cmd => "set "@ + name + "="@ + value + ""@,
        ShellSyntax::Fish => "set -gx "@ + name + " '"@ + value + "'"@,
    }
}

/// How the lines are run.
pub open spec fn hint(syntax: ShellSyntax) -> Seq<char> {
    match syntax {
        ShellSyntax::Bash => "# Run: eval \"$(wta set-env)\""@,
        ShellSyntax::PowerShell => "# Run: wta set-env -s powershell | Invoke-Expression"@,
        ShellSyntax::Cmd => "REM Run in a for /f loop or copy-paste"@,
        ShellSyntax::Fish => "# Run: wta set-env -s fish | source"@,
    }
}

fn setting_text(syntax: ShellSyntax, name: &str, value: &str) -> (line: String)
    ensures
        line@ == setting(syntax, name@, value@),
{
    let (before, between, after) = match syntax {
        ShellSyntax::Bash => ("export ", "='", "'"),
        ShellSyntax::PowerShell => ("$env:", " = '", "'"),
        ShellSyntax::Cmd => ("set ", "=", ""),
        ShellSyntax::Fish => ("set -gx ", " '", "'"),
    };
    let mut line = before.to_owned();
    line.append(name);
    line.append(between);
    line.append(value);
    line.append(after);
    line
}

/// What `set-env` prints: the lines for the shell, and a hint for the user.
#[derive(Debug)]
pub struct EnvironmentLines {
    pub lines: Vec<String>,
    pub hint: String,
}

/// The lines that set the variables: the token only where there is one.
pub open spec fn settings(syntax: ShellSyntax, info: ConnectionInfo) -> Seq<Seq<char>> {
    let pipe = seq![setting(syntax, "WT_PIPE_NAME"@, info.pipe_name@)];
    if info.token@.len() > 0 {
        pipe.push(setting(syntax, "WT_MCP_TOKEN"@, info.token@))
    } else {
        pipe
    }
}

/// What `set-env` prints.
pub fn run_set_env(info: &Option<ConnectionInfo>, shell_type: &str) -> (r: Result<
    EnvironmentLines,
    String,
>)
    ensures
        match (*info, syntax_of(shell_type@)) {
            (None, _) => r matches Err(message) && message@
                == "Cannot discover pipe. Use --pipe-name or set WT_PIPE_NAME, or run inside Windows Terminal."@,
            (Some(_), None) => r matches Err(message) && message@ == "Unknown shell type '"@
                + shell_type@ + "'. Use: bash, powershell, cmd, fish"@,
            (Some(info), Some(syntax)) => r matches Ok(printed) && text::texts(printed.lines@)
                == settings(syntax, info) && printed.hint@ == hint(syntax),
        },
{
    let info = match info {
        Some(info) => info,
        None => return Err(no_discovery_message()),
    };
    let syntax = match shell_syntax(shell_type) {
        Some(syntax) => syntax,
        None => {
            let mut message = "Unknown shell type '".to_owned();
            message.append(shell_type);
            message.append("'. Use: bash, powershell, cmd, fish");
            return Err(message);
        },
    };
    let hint = match syntax {
        ShellSyntax::Bash => "# Run: eval \"$(wta set-env)\"",
        ShellSyntax::PowerShell => "# Run: wta set-env -s powershell | Invoke-Expression",
        ShellSyntax::Cmd => "REM Run in a for /f loop or copy-paste",
        ShellSyntax::Fish => "# Run: wta set-env -s fish | source",
    };
    let mut lines: Vec<String> = Vec::new();
    lines.push(setting_text(syntax, "WT_PIPE_NAME", info.pipe_name.as_str()));
    if !info.token.as_str().is_empty() {
        lines.push(setting_text(syntax, "WT_MCP_TOKEN", info.token.as_str()));
    }
    assert(text::texts(lines@) =~= settings(syntax, *info));
    Ok(EnvironmentLines { lines, hint: hint.to_owned() })
}

/// How a pipe was found, for people.
pub open spec fn source_words(source: DiscoverySource) -> Seq<char> {
    match source {
        DiscoverySource::VtOsc => "VT OSC discovery"@,
        DiscoverySource::ComClsid => "WT_COM_CLSID env var"@,
        DiscoverySource::InheritedPipe => "inherited pipe"@,
        DiscoverySource::EnvVar => "WT_PIPE_NAME env var"@,
    }
}

/// The lines that `info` prints about the pipe.
pub open spec fn info_lines(info: Option<ConnectionInfo>) -> Seq<Seq<char>> {
    match info {
        None => seq![
            "  Status: Not running inside Windows Terminal"@,
            "  (No VT response, WT_PIPE_NAME not set, no --pipe-name)"@,
        ],
        Some(info) => seq![
            "  Pipe:   "@ + info.pipe_name@,
            "  Token:  "@ + if info.token@.len() == 0 {
                "(dev bypass)"@
            } else {
                "(set)"@
            },
            "  Source: "@ + source_words(info.source),
        ],
    }
}

/// The lines that `info` prints about the pipe.
pub fn pipe_info_lines(info: &Option<ConnectionInfo>) -> (lines: Vec<String>)
    ensures
        text::texts(lines@) == info_lines(*info),
{
    let mut lines: Vec<String> = Vec::new();
    match info {
        None => {
            lines.push("  Status: Not running inside Windows Terminal".to_owned());
            lines.push("  (No VT response, WT_PIPE_NAME not set, no --pipe-name)".to_owned());
        },
        Some(info) => {
            let mut pipe = "  Pipe:   ".to_owned();
            pipe.append(info.pipe_name.as_str());
            let mut token = "  Token:  ".to_owned();
            token.append(
                if info.token.as_str().is_empty() {
                    "(dev bypass)"
                } else {
                    "(set)"
                },
            );
            let mut source = "  Source: ".to_owned();
            source.append(
                match info.source {
                    DiscoverySource::VtOsc => "VT OSC discovery",
                    DiscoverySource::ComClsid => "WT_COM_CLSID env var",
                    DiscoverySource::InheritedPipe => "inherited pipe",
                    DiscoverySource::EnvVar => "WT_PIPE_NAME env var",
                },
            );
            lines.push(pipe);
            lines.push(token);
            lines.push(source);
        },
    }
    assert(text::texts(lines@) =~= info_lines(*info));
    lines
}

} // verus!
