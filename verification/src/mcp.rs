//! The tools that the application offers to other agents: their parameters and
//! the texts they answer with.
use crate::app::cards;
use crate::coordinator;
use crate::editing;
use crate::json;
use crate::json::{pretty_text, Json};
use crate::text;
use crate::text::{
    byte_count, chars_of, concat3, number_text, shorten, signed_number_text, string_between,
};
use vstd::prelude::*;

verus! {

/// How many lines of the active pane are read at the start.
pub const ACTIVE_PANE_CONTEXT_MAX_LINES: u32 = 80;

/// How many characters of the active pane are shown at the start.
pub const ACTIVE_PANE_CONTEXT_MAX_CHARS: usize = 4000;

/// A command to run to its end.
#[derive(Debug)]
pub struct RunCommandParams {
    pub command: String,
    pub args: Vec<String>,
    pub cwd: Option<String>,
}

/// A command to run in a terminal that stays.
#[derive(Debug)]
pub struct CreateTerminalParams {
    pub command: String,
    pub args: Vec<String>,
    pub cwd: Option<String>,
}

#[derive(Debug)]
pub struct TerminalIdParams {
    pub terminal_id: String,
}

#[derive(Debug)]
pub struct WindowIdParams {
    pub window_id: String,
}

#[derive(Debug)]
pub struct TabIdParams {
    pub tab_id: String,
}

#[derive(Debug)]
pub struct PaneIdParams {
    pub pane_id: String,
}

#[derive(Debug)]
pub struct ReadPaneOutputParams {
    pub pane_id: String,
    pub max_lines: Option<u32>,
}

#[derive(Debug)]
pub struct SendInputParams {
    pub pane_id: String,
    pub input: String,
}

#[derive(Debug)]
pub struct CreateTabParams {
    pub commandline: Option<String>,
    pub cwd: Option<String>,
    pub title: Option<String>,
}

/// A question for the user, with the answers on offer.
#[derive(Debug)]
pub struct QuickPickParams {
    pub title: String,
    pub choices: Vec<String>,
    pub allow_free_input: bool,
}

/// What a terminal is started with.
#[derive(Debug)]
pub struct TerminalConfig {
    pub command: String,
    pub args: Vec<String>,
    pub cwd: Option<String>,
    pub env: Vec<(String, String)>,
}

impl RunCommandParams {
    /// What the terminal of the command is started with.
    pub fn config(self) -> (config: TerminalConfig)
        ensures
            config.command == self.command,
            config.args == self.args,
            config.cwd == self.cwd,
            config.env@.len() == 0,
    {
        TerminalConfig {
            command: self.command,
            args: self.args,
            cwd: self.cwd,
            env: Vec::new(),
        }
    }
}

impl CreateTerminalParams {
    /// What the terminal of the command is started with.
    pub fn config(self) -> (config: TerminalConfig)
        ensures
            config.command == self.command,
            config.args == self.args,
            config.cwd == self.cwd,
            config.env@.len() == 0,
    {
        TerminalConfig {
            command: self.command,
            args: self.args,
            cwd: self.cwd,
            env: Vec::new(),
        }
    }
}

/// `s`, or its first `max` bytes followed by dots where it has more.
pub fn truncate(s: &str, max: usize) -> (r: String)
    requires
        cards::can_cut(s@, max as int),
    ensures
        r@ == if text::byte_len(s@) > max {
            s@.take(editing::chars_before(s@, max as int)) + "..."@
        } else {
            s@
        },
{
    if byte_count(s) > max {
        let chars = chars_of(s);
        let cut: usize = editing::char_index(&chars, max);
        let mut r = string_between(&chars, 0, cut);
        assert(r@ =~= s@.take(cut as int));
        r.append("...");
        r
    } else {
        s.to_owned()
    }
}

/// `s`, cut after `max_chars` characters with a note that it was.
pub fn truncate_for_prompt(s: &str, max_chars: usize) -> (r: String)
    ensures
        r@ == text::shortened(s@, max_chars as int, "\n...<truncated>"@),
{
    shorten(s, max_chars, "\n...<truncated>")
}

/// The pane that is active when an agent connects.
#[derive(Debug)]
pub struct ActivePaneSnapshot {
    pub window_id: String,
    pub tab_id: String,
    pub pane_id: String,
    pub title: Option<String>,
    pub profile: Option<String>,
    pub line_count: Option<u64>,
    pub truncated: bool,
    pub content: Option<String>,
}

/// A line of the description of the active pane.
pub open spec fn context_line(label: Seq<char>, value: Seq<char>) -> Seq<char> {
    "             - "@ + label + "="@ + value + "\n"@
}

/// A line of the description, where there is something to tell.
pub open spec fn optional_line(label: Seq<char>, value: Option<Seq<char>>) -> Seq<char> {
    match value {
        Some(value) => context_line(label, value),
        None => Seq::empty(),
    }
}

/// The content of the active pane as the description shows it.
pub open spec fn content_block(content: Seq<char>) -> Seq<char> {
    "             - recent pane content:\n"@ + "```text\n"@ + text::shortened(
        content,
        ACTIVE_PANE_CONTEXT_MAX_CHARS as int,
        "\n...<truncated>"@,
    ) + if content.len() > 0 && content.last() == '\n' {
        Seq::<char>::empty()
    } else {
        seq!['\n']
    } + "```\n"@
}

/// The description of the active pane.
pub open spec fn pane_context(snapshot: ActivePaneSnapshot) -> Seq<char> {
    "Startup active pane context:\n- window_id="@ + snapshot.window_id@ + "\n- tab_id="@
        + snapshot.tab_id@ + "\n- pane_id="@ + snapshot.pane_id@ + "\n"@ + optional_line(
        "title"@,
        coordinator::seen(snapshot.title),
    ) + optional_line("profile"@, coordinator::seen(snapshot.profile)) + optional_line(
        "captured_line_count"@,
        match snapshot.line_count {
            Some(n) => Some(text::decimal(n as nat)),
            None => None,
        },
    ) + if snapshot.truncated {
        "             - captured_output_truncated=true\n"@
    } else {
        Seq::empty()
    } + match snapshot.content {
        Some(content) => content_block(content@),
        None => Seq::empty(),
    }
}

fn add_context_line(context: &mut String, label: &str, value: Option<&str>)
    ensures
        final(context)@ == old(context)@ + optional_line(label@, json::opt_text(value)),
{
    if let Some(value) = value {
        context.append("             - ");
        context.append(label);
        context.append("=");
        context.append(value);
        context.append("\n");
    }
    assert(context@ =~= old(context)@ + optional_line(label@, json::opt_text(value)));
}

/// The description of the active pane.
pub fn format_active_pane_context(snapshot: &ActivePaneSnapshot) -> (context: String)
    ensures
        context@ == pane_context(*snapshot),
{
    let mut context = concat3(
        "Startup active pane context:\n- window_id=",
        snapshot.window_id.as_str(),
        "\n- tab_id=",
    );
    context.append(snapshot.tab_id.as_str());
    context.append("\n- pane_id=");
    context.append(snapshot.pane_id.as_str());
    context.append("\n");
    add_context_line(&mut context, "title", coordinator::text_ref(&snapshot.title));
    add_context_line(&mut context, "profile", coordinator::text_ref(&snapshot.profile));
    let lines = match snapshot.line_count {
        Some(n) => Some(number_text(n)),
        None => None,
    };
    add_context_line(&mut context, "captured_line_count", coordinator::text_ref(&lines));
    let ghost before = context@;
    if snapshot.truncated {
        context.append("             - captured_output_truncated=true\n");
    }
    let ghost middle = context@;
    assert(middle =~= before + if snapshot.truncated {
        "             - captured_output_truncated=true\n"@
    } else {
        Seq::empty()
    });
    if let Some(content) = &snapshot.content {
        context.append("             - recent pane content:\n");
        context.append("```text\n");
        context.append(
            truncate_for_prompt(content.as_str(), ACTIVE_PANE_CONTEXT_MAX_CHARS).as_str(),
        );
        let chars = chars_of(content.as_str());
        let n: usize = chars.len();
        if !(n > 0 && chars[n - 1] == '\n') {
            context.push('\n');
        }
        context.append("```\n");
        assert(context@ =~= middle + content_block(content@));
    }
    assert(context@ =~= middle + match snapshot.content {
        Some(content) => content_block(content@),
        None => Seq::empty(),
    });
    context
}

/// What an agent is told when it connects.
pub open spec fn instructions() -> Seq<char> {
    "WTA (Windows Terminal Agent) — provides shell tools and Windows Terminal integration. Use the wt_* tools to inspect and control Windows Terminal windows, tabs, and panes. Use wt_list_windows → wt_list_tabs → wt_list_panes to discover pane IDs, then wt_read_pane_output to see what's on screen, wt_send_input to type commands, and wt_create_tab / wt_split_pane to create new sessions."@
}

/// What an agent is told when it connects, with the active pane where it is
/// known.
pub fn build_initialize_instructions(snapshot: Option<&ActivePaneSnapshot>) -> (told: String)
    ensures
        told@ == match snapshot {
            Some(snapshot) => instructions() + "\n\n"@ + pane_context(*snapshot),
            None => instructions(),
        },
{
    let mut told =
        "WTA (Windows Terminal Agent) — provides shell tools and Windows Terminal integration. Use the wt_* tools to inspect and control Windows Terminal windows, tabs, and panes. Use wt_list_windows → wt_list_tabs → wt_list_panes to discover pane IDs, then wt_read_pane_output to see what's on screen, wt_send_input to type commands, and wt_create_tab / wt_split_pane to create new sessions.".to_owned();
    if let Some(snapshot) = snapshot {
        told.append("\n\n");
        told.append(format_active_pane_context(snapshot).as_str());
    }
    told
}

/// How a command that was run to its end ended.
#[derive(Debug)]
pub enum CommandRun {
    NotCreated(String),
    NotAwaited(String),
    NoOutput(String),
    Finished { exit_code: i64, output: String },
}

/// The answer of the tool that runs a command.
pub fn run_command(run: &CommandRun) -> (answer: String)
    ensures
        answer@ == match *run {
            CommandRun::NotCreated(reason) => "Error creating terminal: "@ + reason@,
            CommandRun::NotAwaited(reason) => "Error waiting for exit: "@ + reason@,
            CommandRun::NoOutput(reason) => "Error getting output: "@ + reason@,
            CommandRun::Finished { exit_code, output } => "Exit code: "@ + text::signed_decimal(
                exit_code as int,
            ) + "\n\n"@ + output@,
        },
{
    match run {
        CommandRun::NotCreated(reason) => {
            let mut answer = "Error creating terminal: ".to_owned();
            answer.append(reason.as_str());
            answer
        },
        CommandRun::NotAwaited(reason) => {
            let mut answer = "Error waiting for exit: ".to_owned();
            answer.append(reason.as_str());
            answer
        },
        CommandRun::NoOutput(reason) => {
            let mut answer = "Error getting output: ".to_owned();
            answer.append(reason.as_str());
            answer
        },
        CommandRun::Finished { exit_code, output } => {
            let mut answer = concat3(
                "Exit code: ",
                signed_number_text(*exit_code).as_str(),
                "\n\n",
            );
            answer.append(output.as_str());
            answer
        },
    }
}

/// The answer of the tool that creates a terminal.
pub fn create_terminal(outcome: &Result<String, String>) -> (answer: String)
    ensures
        answer@ == match *outcome {
            Ok(id) => "Terminal created: "@ + id@,
            Err(reason) => "Error creating terminal: "@ + reason@,
        },
{
    match outcome {
        Ok(id) => {
            let mut answer = "Terminal created: ".to_owned();
            answer.append(id.as_str());
            answer
        },
        Err(reason) => {
            let mut answer = "Error creating terminal: ".to_owned();
            answer.append(reason.as_str());
            answer
        },
    }
}

/// What a terminal has written, and the code that its command exited with.
#[derive(Debug)]
pub struct TerminalOutput {
    pub data: String,
    pub exit_status: Option<i64>,
}

/// What is said where a tool failed.
pub open spec fn tool_error(reason: Seq<char>) -> Seq<char> {
    "Error: "@ + reason
}

fn error_text(reason: &str) -> (answer: String)
    ensures
        answer@ == tool_error(reason@),
{
    let mut answer = "Error: ".to_owned();
    answer.append(reason);
    answer
}

/// The answer of the tool that shows what a terminal wrote.
pub fn get_terminal_output(terminal_id: &str, outcome: &Result<TerminalOutput, String>) -> (answer:
    String)
    ensures
        answer@ == match *outcome {
            Ok(output) => "["@ + terminal_id@ + match output.exit_status {
                Some(code) => " (exited: "@ + text::signed_decimal(code as int) + ")"@,
                None => " (running)"@,
            } + "]\n"@ + output.data@,
            Err(reason) => tool_error(reason@),
        },
{
    match outcome {
        Ok(output) => {
            let status = match output.exit_status {
                Some(code) => concat3(" (exited: ", signed_number_text(code).as_str(), ")"),
                None => " (running)".to_owned(),
            };
            let mut answer = concat3("[", terminal_id, status.as_str());
            answer.append("]\n");
            answer.append(output.data.as_str());
            answer
        },
        Err(reason) => error_text(reason.as_str()),
    }
}

/// The answer of the tool that waits for a terminal.
pub fn wait_for_terminal(terminal_id: &str, outcome: &Result<i64, String>) -> (answer: String)
    ensures
        answer@ == match *outcome {
            Ok(code) => "Terminal "@ + terminal_id@ + " exited with code "@ + text::signed_decimal(
                code as int,
            ),
            Err(reason) => tool_error(reason@),
        },
{
    match outcome {
        Ok(code) => {
            let mut answer = concat3("Terminal ", terminal_id, " exited with code ");
            answer.append(signed_number_text(*code).as_str());
            answer
        },
        Err(reason) => error_text(reason.as_str()),
    }
}

/// The answer of the tool that kills a terminal.
pub fn kill_terminal(terminal_id: &str, outcome: &Result<(), String>) -> (answer: String)
    ensures
        answer@ == match *outcome {
            Ok(()) => "Terminal "@ + terminal_id@ + " killed"@,
            Err(reason) => tool_error(reason@),
        },
{
    match outcome {
        Ok(()) => concat3("Terminal ", terminal_id, " killed"),
        Err(reason) => error_text(reason.as_str()),
    }
}

/// The answer of a tool that asks the terminal: the response, indented, or why
/// there is none.
pub fn terminal_answer(outcome: &Result<Json, String>) -> (answer: String)
    ensures
        answer@ == match *outcome {
            Ok(response) => json::pretty_json(response@),
            Err(reason) => tool_error(reason@),
        },
{
    match outcome {
        Ok(response) => pretty_text(response),
        Err(reason) => error_text(reason.as_str()),
    }
}

} // verus!
