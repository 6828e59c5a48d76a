//! Windows command lines: splitting, quoting, joining, and what they say of
//! the agent they launch.
use crate::text;
use crate::text::{
    chars_of, eq_ignore_ascii_case, is_whitespace, same_text, strip_prefix, strip_suffix,
};
use vstd::prelude::*;

verus! {

/// How far a command line has been split.
pub struct SplitState {
    pub args: Seq<Seq<char>>,
    pub current: Seq<char>,
    pub quoted: bool,
}

/// The state of splitting after `line` was read. Quotation marks are dropped;
/// between two of them white space does not separate.
pub open spec fn split_state(line: Seq<char>) -> SplitState
    decreases line.len(),
{
    if line.len() == 0 {
        SplitState { args: Seq::empty(), current: Seq::empty(), quoted: false }
    } else {
        let before = split_state(line.drop_last());
        let c = line.last();
        if c == '"' {
            SplitState { quoted: !before.quoted, ..before }
        } else if text::is_space(c) && !before.quoted {
            SplitState {
                args: split_close(before),
                current: Seq::empty(),
                quoted: before.quoted,
            }
        } else {
            SplitState { current: before.current.push(c), ..before }
        }
    }
}

/// The arguments, with the one that was being read where it is not empty.
pub open spec fn split_close(state: SplitState) -> Seq<Seq<char>> {
    if state.current.len() > 0 {
        state.args.push(state.current)
    } else {
        state.args
    }
}

/// The arguments of `line`.
pub open spec fn split_args(line: Seq<char>) -> Seq<Seq<char>> {
    split_close(split_state(line))
}

/// Splits `commandline` at white space outside quotation marks.
pub fn split_windows_commandline(commandline: &str) -> (args: Vec<String>)
    ensures
        text::texts(args@) == split_args(commandline@),
{
    let chars = chars_of(commandline);
    let mut args: Vec<String> = Vec::new();
    let mut current: String = String::new();
    let mut in_quotes: bool = false;
    let mut i: usize = 0;
    assert(text::texts(args@) =~= Seq::<Seq<char>>::empty());
    while i < chars.len()
        invariant
            i <= chars@.len(),
            chars@ == commandline@,
            text::texts(args@) == split_state(chars@.take(i as int)).args,
            current@ == split_state(chars@.take(i as int)).current,
            in_quotes == split_state(chars@.take(i as int)).quoted,
        decreases chars@.len() - i,
    {
        let c = chars[i];
        assert(chars@.take(i + 1).drop_last() =~= chars@.take(i as int));
        assert(chars@.take(i + 1).last() == c);
        if c == '"' {
            in_quotes = !in_quotes;
        } else if is_whitespace(c) && !in_quotes {
            if !current.as_str().is_empty() {
                let ghost earlier = args@;
                args.push(current);
                assert(text::texts(args@) =~= text::texts(earlier).push(current@));
                current = String::new();
            }
            assert(current@ =~= Seq::<char>::empty());
        } else {
            current.push(c);
        }
        i += 1;
    }
    assert(chars@.take(i as int) =~= commandline@);
    if !current.as_str().is_empty() {
        let ghost earlier = args@;
        args.push(current);
        assert(text::texts(args@) =~= text::texts(earlier).push(current@));
    }
    args
}

/// `n` backslashes.
pub open spec fn backslashes(n: nat) -> Seq<char> {
    Seq::new(n, |i: int| '\\')
}

/// `arg` has to stand between quotation marks.
pub open spec fn needs_quotes(arg: Seq<char>) -> bool {
    exists|i: int| 0 <= i < arg.len() && (text::is_space(#[trigger] arg[i]) || arg[i] == '"')
}

/// The quoted form of `arg` but for its quotation marks and the backslashes at
/// its end: a quotation mark gets a backslash, and backslashes before it are
/// doubled.
pub open spec fn escaped(arg: Seq<char>) -> Seq<char>
    decreases arg.len(),
{
    if arg.len() == 0 {
        Seq::empty()
    } else {
        let init = arg.drop_last();
        let pending = trailing_backslashes(init);
        let c = arg.last();
        if c == '\\' {
            escaped(init)
        } else if c == '"' {
            escaped(init) + backslashes(2 * pending + 1) + seq!['"']
        } else {
            escaped(init) + backslashes(pending) + seq![c]
        }
    }
}

/// How many backslashes stand at the end of `arg`.
pub open spec fn trailing_backslashes(arg: Seq<char>) -> nat
    decreases arg.len(),
{
    if arg.len() > 0 && arg.last() == '\\' {
        trailing_backslashes(arg.drop_last()) + 1
    } else {
        0
    }
}

/// `arg` as it stands in a command line.
pub open spec fn quoted(arg: Seq<char>) -> Seq<char> {
    if arg.len() == 0 {
        seq!['"', '"']
    } else if !needs_quotes(arg) {
        arg
    } else {
        seq!['"'] + escaped(arg) + backslashes(2 * trailing_backslashes(arg)) + seq!['"']
    }
}

fn push_backslashes(text: &mut String, n: usize)
    ensures
        final(text)@ == old(text)@ + backslashes(n as nat),
{
    let mut i: usize = 0;
    while i < n
        invariant
            i <= n,
            text@ == old(text)@ + backslashes(i as nat),
        decreases n - i,
    {
        text.push('\\');
        i += 1;
        assert(text@ =~= old(text)@ + backslashes(i as nat));
    }
    assert(text@ =~= old(text)@ + backslashes(n as nat));
}

/// `arg` as it stands in a command line, by the escaping rules of
/// CommandLineToArgvW.
pub fn quote_windows_commandline_arg(arg: &str) -> (text: String)
    ensures
        text@ == quoted(arg@),
{
    let chars = chars_of(arg);
    let mut needed: bool = false;
    let mut k: usize = 0;
    while k < chars.len()
        invariant
            k <= chars@.len(),
            needed == exists|i: int|
                0 <= i < k && (text::is_space(#[trigger] chars@[i]) || chars@[i] == '"'),
        decreases chars@.len() - k,
    {
        if is_whitespace(chars[k]) || chars[k] == '"' {
            needed = true;
            assert(text::is_space(chars@[k as int]) || chars@[k as int] == '"');
        }
        k += 1;
    }
    if chars.len() == 0 {
        let text = "\"\"".to_owned();
        proof {
            reveal_strlit("\"\"");
        }
        assert(text@ =~= seq!['"', '"']);
        return text;
    }
    if !needed {
        return arg.to_owned();
    }
    let mut text: String = String::new();
    text.push('"');
    let mut pending: usize = 0;
    let mut i: usize = 0;
    assert(chars@.take(0) =~= Seq::<char>::empty());
    assert(text@ =~= seq!['"'] + escaped(chars@.take(0)));
    while i < chars.len()
        invariant
            i <= chars@.len(),
            pending <= i,
            pending == trailing_backslashes(chars@.take(i as int)),
            text@ == seq!['"'] + escaped(chars@.take(i as int)),
        decreases chars@.len() - i,
    {
        let c = chars[i];
        assert(chars@.take(i + 1).drop_last() =~= chars@.take(i as int));
        assert(chars@.take(i + 1).last() == c);
        if c == '\\' {
            pending += 1;
        } else if c == '"' {
            push_backslashes(&mut text, pending);
            push_backslashes(&mut text, pending);
            text.push('\\');
            text.push('"');
            assert(backslashes(pending as nat) + backslashes(pending as nat) + seq!['\\']
                =~= backslashes((2 * pending + 1) as nat));
            assert(text@ =~= seq!['"'] + escaped(chars@.take(i + 1)));
            pending = 0;
        } else {
            push_backslashes(&mut text, pending);
            text.push(c);
            assert(text@ =~= seq!['"'] + escaped(chars@.take(i + 1)));
            pending = 0;
        }
        i += 1;
    }
    assert(chars@.take(i as int) =~= arg@);
    push_backslashes(&mut text, pending);
    push_backslashes(&mut text, pending);
    text.push('"');
    assert(backslashes(pending as nat) + backslashes(pending as nat) =~= backslashes(
        (2 * pending) as nat,
    ));
    assert(text@ =~= quoted(arg@));
    text
}

/// The arguments as one command line.
pub open spec fn joined(args: Seq<Seq<char>>) -> Seq<char>
    decreases args.len(),
{
    if args.len() == 0 {
        Seq::empty()
    } else if args.len() == 1 {
        quoted(args[0])
    } else {
        joined(args.drop_last()) + seq![' '] + quoted(args.last())
    }
}

/// Quotes the arguments where needed and puts a space between them.
pub fn join_windows_commandline(args: &Vec<String>) -> (line: String)
    ensures
        line@ == joined(text::texts(args@)),
{
    let mut line: String = String::new();
    let mut i: usize = 0;
    assert(text::texts(args@).take(0) =~= Seq::<Seq<char>>::empty());
    while i < args.len()
        invariant
            i <= args@.len(),
            line@ == joined(text::texts(args@).take(i as int)),
        decreases args@.len() - i,
    {
        let ghost seen = text::texts(args@).take(i + 1);
        assert(seen.drop_last() =~= text::texts(args@).take(i as int));
        assert(seen.last() == args@[i as int]@);
        if i > 0 {
            line.push(' ');
        }
        let text = quote_windows_commandline_arg(args[i].as_str());
        line.append(text.as_str());
        assert(line@ =~= joined(seen));
        i += 1;
    }
    assert(text::texts(args@).take(i as int) =~= text::texts(args@));
    line
}

/// The argument without quotation marks, single or double, at either end.
pub open spec fn unquoted(arg: Seq<char>) -> Seq<char> {
    let mark = |c: char| c == '"' || c == '\'';
    text::without_suffix(text::without_prefix(arg, mark), mark)
}

fn trim_quotes(arg: &str) -> (r: &str)
    ensures
        r@ == unquoted(arg@),
{
    let chars = chars_of(arg);
    let n: usize = chars.len();
    let ghost mark = |c: char| c == '"' || c == '\'';
    let mut from: usize = 0;
    while from < n && (chars[from] == '"' || chars[from] == '\'')
        invariant
            from <= n == chars@.len(),
            forall|i: int| 0 <= i < from ==> (#[trigger] chars@[i] == '"' || chars@[i] == '\''),
        decreases n - from,
    {
        from += 1;
    }
    let mut to: usize = n;
    while to > from && (chars[to - 1] == '"' || chars[to - 1] == '\'')
        invariant
            from <= to <= n == chars@.len(),
            forall|i: int| to <= i < n ==> (#[trigger] chars@[i] == '"' || chars@[i] == '\''),
        decreases to,
    {
        to -= 1;
    }
    proof {
        text::lemma_trim_bounds(arg@, mark, from as int, to as int);
    }
    arg.substring_char(from, to)
}

/// The model that the arguments from `from` on name: the value of the first
/// `--model` or `-m` that has one.
pub open spec fn named_model(args: Seq<Seq<char>>, from: int) -> Option<Seq<char>>
    decreases args.len() + 1 - from,
{
    if from < 0 || from >= args.len() {
        None
    } else if args[from] == "--model"@ || args[from] == "-m"@ {
        if from + 1 < args.len() && unquoted(args[from + 1]).len() > 0 {
            Some(unquoted(args[from + 1]))
        } else {
            named_model(args, from + 2)
        }
    } else {
        match model_value(args[from]) {
            Some(value) => if unquoted(value).len() > 0 {
                Some(unquoted(value))
            } else {
                named_model(args, from + 1)
            },
            None => named_model(args, from + 1),
        }
    }
}

/// What follows `--model=` or `-m=` in `arg`.
pub open spec fn model_value(arg: Seq<char>) -> Option<Seq<char>> {
    if text::has_prefix(arg, "--model="@) {
        Some(arg.skip("--model="@.len() as int))
    } else if text::has_prefix(arg, "-m="@) {
        Some(arg.skip("-m="@.len() as int))
    } else {
        None
    }
}

/// The model that the arguments from `from` on name.
pub fn extract_model_from_args(args: &Vec<String>, from: usize) -> (model: Option<String>)
    ensures
        match model {
            Some(name) => named_model(text::texts(args@), from as int) == Some(name@),
            None => named_model(text::texts(args@), from as int) is None,
        },
{
    let mut i: usize = from;
    while i < args.len()
        invariant
            named_model(text::texts(args@), from as int) == named_model(
                text::texts(args@),
                i as int,
            ),
        decreases args@.len() - i,
    {
        let arg = args[i].as_str();
        assert(text::texts(args@)[i as int] == arg@);
        if same_text(arg, "--model") || same_text(arg, "-m") {
            if i + 1 < args.len() {
                let trimmed = trim_quotes(args[i + 1].as_str());
                assert(text::texts(args@)[i + 1] == args@[i + 1]@);
                if !trimmed.is_empty() {
                    return Some(trimmed.to_owned());
                }
                i += 2;
            } else {
                assert(named_model(text::texts(args@), i + 2) is None);
                return None;
            }
        } else {
            let value = match strip_prefix(arg, "--model=") {
                Some(value) => Some(value),
                None => strip_prefix(arg, "-m="),
            };
            if let Some(value) = value {
                let trimmed = trim_quotes(value);
                if !trimmed.is_empty() {
                    return Some(trimmed.to_owned());
                }
            }
            i += 1;
        }
    }
    None
}

/// What follows the last `\` or `/` of a path.
pub open spec fn file_name(path: Seq<char>) -> Seq<char>
    decreases path.len(),
{
    if path.len() == 0 || path.last() == '\\' || path.last() == '/' {
        Seq::empty()
    } else {
        file_name(path.drop_last()).push(path.last())
    }
}

/// `name` without `.exe` at its end.
pub open spec fn without_exe(name: Seq<char>) -> Seq<char> {
    if text::has_suffix(name, ".exe"@) {
        name.take(name.len() - ".exe"@.len())
    } else {
        name
    }
}

/// `command` runs the copilot program, wherever it is installed.
pub open spec fn names_copilot(command: Seq<char>) -> bool {
    text::same_ignoring_ascii_case(without_exe(file_name(command)), "copilot"@)
}

proof fn lemma_file_name(path: Seq<char>, from: int)
    requires
        0 <= from <= path.len(),
        forall|i: int| from <= i < path.len() ==> #[trigger] path[i] != '\\' && path[i] != '/',
        from > 0 ==> path[from - 1] == '\\' || path[from - 1] == '/',
    ensures
        file_name(path) == path.skip(from),
    decreases path.len(),
{
    if path.len() == from {
        assert(path.skip(from) =~= Seq::<char>::empty());
    } else {
        let init = path.drop_last();
        assert forall|i: int| from <= i < init.len() implies #[trigger] init[i] != '\\' && init[i]
            != '/' by {
            assert(init[i] == path[i]);
        }
        lemma_file_name(init, from);
        assert(path[path.len() - 1] != '\\');
        assert(path.skip(from) =~= init.skip(from).push(path.last()));
    }
}

/// Whether `command` runs the copilot program.
pub fn is_copilot_command(command: &str) -> (yes: bool)
    ensures
        yes == names_copilot(command@),
{
    let chars = chars_of(command);
    let mut from: usize = chars.len();
    while from > 0 && chars[from - 1] != '\\' && chars[from - 1] != '/'
        invariant
            from <= chars@.len(),
            forall|i: int|
                from <= i < chars@.len() ==> #[trigger] chars@[i] != '\\' && chars@[i] != '/',
        decreases from,
    {
        from -= 1;
    }
    proof {
        lemma_file_name(command@, from as int);
    }
    let executable = command.substring_char(from, chars.len());
    assert(executable@ =~= command@.skip(from as int));
    let name = match strip_suffix(executable, ".exe") {
        Some(name) => name,
        None => executable,
    };
    eq_ignore_ascii_case(name, "copilot")
}

/// How far CommandLineToArgvW has read what follows the program's name in a
/// command line: the arguments it has seen, the one it is in (where it is in
/// one), whether it is between quotation marks, whether it has just read the
/// mark that closes them, and how many backslashes it has just read.
pub struct ArgvState {
    pub args: Seq<Seq<char>>,
    pub current: Seq<char>,
    pub started: bool,
    pub quoted: bool,
    pub closed: bool,
    pub slashes: nat,
}

/// Reading starts in front of an argument.
pub open spec fn argv_start() -> ArgvState {
    ArgvState {
        args: Seq::empty(),
        current: Seq::empty(),
        started: false,
        quoted: false,
        closed: false,
        slashes: 0,
    }
}

/// One character read: backslashes count only before a quotation mark, where a
/// pair of them stands for one and an odd one makes the mark a plain character.
/// A mark directly behind the one that closes a quotation is a plain character
/// too.
pub open spec fn argv_step(state: ArgvState, c: char) -> ArgvState {
    if c == '\\' {
        ArgvState { slashes: state.slashes + 1, started: true, closed: false, ..state }
    } else if c == '"' {
        let current = state.current + backslashes(state.slashes / 2);
        if state.slashes % 2 == 1 || state.closed {
            ArgvState {
                current: current.push('"'),
                slashes: 0,
                started: true,
                closed: false,
                ..state
            }
        } else {
            ArgvState {
                current,
                slashes: 0,
                started: true,
                quoted: !state.quoted,
                closed: state.quoted,
                ..state
            }
        }
    } else if (c == ' ' || c == '\t') && !state.quoted {
        ArgvState { args: argv_close(state), ..argv_start() }
    } else {
        ArgvState {
            current: (state.current + backslashes(state.slashes)).push(c),
            slashes: 0,
            started: true,
            closed: false,
            ..state
        }
    }
}

/// The arguments seen, with the one being read.
pub open spec fn argv_close(state: ArgvState) -> Seq<Seq<char>> {
    if state.started {
        state.args.push(state.current + backslashes(state.slashes))
    } else {
        state.args
    }
}

/// The state after `line` was read from `state` on.
pub open spec fn argv_read(state: ArgvState, line: Seq<char>) -> ArgvState
    decreases line.len(),
{
    if line.len() == 0 {
        state
    } else {
        argv_step(argv_read(state, line.drop_last()), line.last())
    }
}

/// How many characters of `s` stand before the first one that `ends` holds of.
pub open spec fn length_before(s: Seq<char>, ends: spec_fn(char) -> bool) -> nat
    decreases s.len(),
{
    if s.len() == 0 || ends(s[0]) {
        0
    } else {
        1 + length_before(s.skip(1), ends)
    }
}

/// The program's name at the start of `line`, and what follows it. The name
/// ends at the second quotation mark where the line starts with one, and else
/// at a blank. Backslashes mean nothing in it.
pub open spec fn program(line: Seq<char>) -> (Seq<char>, Seq<char>) {
    if line.len() > 0 && line[0] == '"' {
        let after = line.skip(1);
        let n = length_before(after, |c: char| c == '"');
        (
            after.take(n as int),
            if n < after.len() {
                after.skip(n as int + 1)
            } else {
                Seq::empty()
            },
        )
    } else {
        let n = length_before(line, |c: char| c == ' ' || c == '\t');
        (line.take(n as int), line.skip(n as int))
    }
}

/// The arguments that a program launched with `line`, which is not empty, gets,
/// as CommandLineToArgvW reads them: the first one is the program's name.
pub open spec fn argv(line: Seq<char>) -> Seq<Seq<char>> {
    seq![program(line).0] + argv_close(argv_read(argv_start(), program(line).1))
}

proof fn lemma_argv_read_concat(state: ArgvState, a: Seq<char>, b: Seq<char>)
    ensures
        argv_read(state, a + b) == argv_read(argv_read(state, a), b),
    decreases b.len(),
{
    if b.len() == 0 {
        assert(a + b =~= a);
    } else {
        assert((a + b).drop_last() =~= a + b.drop_last());
        lemma_argv_read_concat(state, a, b.drop_last());
    }
}

proof fn lemma_argv_read_one(state: ArgvState, c: char)
    ensures
        argv_read(state, seq![c]) == argv_step(state, c),
{
    assert(seq![c].drop_last() =~= Seq::<char>::empty());
    reveal_with_fuel(argv_read, 2);
}

proof fn lemma_argv_read_backslashes(state: ArgvState, n: nat)
    requires
        state.started,
        !state.closed,
    ensures
        argv_read(state, backslashes(n)) == (ArgvState { slashes: state.slashes + n, ..state }),
    decreases n,
{
    if n > 0 {
        let m = (n - 1) as nat;
        lemma_argv_read_backslashes(state, m);
        assert(backslashes(n).drop_last() =~= backslashes(m));
        assert(backslashes(n).last() == '\\');
    } else {
        assert(backslashes(n) =~= Seq::<char>::empty());
    }
}

proof fn lemma_trailing_backslashes(arg: Seq<char>)
    ensures
        trailing_backslashes(arg) <= arg.len(),
        arg =~= arg.take(arg.len() - trailing_backslashes(arg)) + backslashes(
            trailing_backslashes(arg),
        ),
    decreases arg.len(),
{
    if arg.len() > 0 && arg.last() == '\\' {
        let init = arg.drop_last();
        lemma_trailing_backslashes(init);
        let t = trailing_backslashes(init);
        assert(arg.take(arg.len() - (t + 1)) =~= init.take(init.len() - t));
        assert forall|i: int| 0 <= i < arg.len() implies arg[i] == (arg.take(
            arg.len() - (t + 1),
        ) + backslashes(t + 1))[i] by {
            if i < arg.len() - 1 {
                assert(arg[i] == init[i]);
                assert(init[i] == (init.take(init.len() - t) + backslashes(t))[i]);
            }
        }
    }
}

proof fn lemma_argv_read_escaped(state: ArgvState, arg: Seq<char>)
    requires
        state.started,
        state.quoted,
        !state.closed,
        state.slashes == 0,
        state.current.len() == 0,
    ensures
        argv_read(state, escaped(arg)) == (ArgvState {
            current: arg.take(arg.len() - trailing_backslashes(arg)),
            ..state
        }),
    decreases arg.len(),
{
    lemma_trailing_backslashes(arg);
    if arg.len() == 0 {
        assert(arg.take(0) =~= state.current);
    } else {
        let init = arg.drop_last();
        let pending = trailing_backslashes(init);
        let c = arg.last();
        lemma_argv_read_escaped(state, init);
        lemma_trailing_backslashes(init);
        let before = argv_read(state, escaped(init));
        if c == '\\' {
            assert(arg.take(arg.len() - (pending + 1)) =~= init.take(init.len() - pending));
        } else {
            let n: nat = if c == '"' {
                2 * pending + 1
            } else {
                pending
            };
            let head = escaped(init) + backslashes(n);
            lemma_argv_read_concat(state, head, seq![c]);
            lemma_argv_read_concat(state, escaped(init), backslashes(n));
            lemma_argv_read_backslashes(before, n);
            let middle = argv_read(before, backslashes(n));
            lemma_argv_read_one(middle, c);
            assert((2 * pending + 1) / 2 == pending as int);
            assert((2 * pending + 1) % 2 == 1);
            assert(arg =~= init.push(c));
            assert(arg.take(arg.len() as int) =~= arg);
            assert(argv_step(middle, c).current =~= arg);
        }
    }
}

proof fn lemma_argv_read_plain(state: ArgvState, arg: Seq<char>)
    requires
        !state.started,
        !state.quoted,
        !state.closed,
        state.slashes == 0,
        state.current.len() == 0,
        !needs_quotes(arg),
    ensures
        argv_read(state, arg) == (ArgvState {
            current: arg.take(arg.len() - trailing_backslashes(arg)),
            slashes: trailing_backslashes(arg),
            started: arg.len() > 0,
            ..state
        }),
    decreases arg.len(),
{
    lemma_trailing_backslashes(arg);
    if arg.len() == 0 {
        assert(arg.take(0) =~= state.current);
    } else {
        let init = arg.drop_last();
        let c = arg.last();
        assert(!needs_quotes(init)) by {
            if needs_quotes(init) {
                let i = choose|i: int|
                    0 <= i < init.len() && (text::is_space(#[trigger] init[i]) || init[i] == '"');
                assert(arg[i] == init[i]);
            }
        }
        assert(!text::is_space(arg[arg.len() - 1]) && arg[arg.len() - 1] != '"');
        lemma_argv_read_plain(state, init);
        lemma_trailing_backslashes(init);
        let before = argv_read(state, init);
        if c == '\\' {
            assert(arg.take(arg.len() - (trailing_backslashes(init) + 1)) =~= init.take(
                init.len() - trailing_backslashes(init),
            ));
        } else {
            assert(arg.take(arg.len() as int) =~= arg);
            assert(argv_step(before, c).current =~= arg);
        }
    }
}

/// The program reads one quoted argument back as it was.
proof fn lemma_argv_read_quoted(state: ArgvState, arg: Seq<char>)
    requires
        !state.started,
        !state.quoted,
        !state.closed,
        state.slashes == 0,
        state.current.len() == 0,
    ensures
        ({
            let after = argv_read(state, quoted(arg));
            &&& after.started
            &&& !after.quoted
            &&& after.args == state.args
            &&& after.current + backslashes(after.slashes) == arg
        }),
{
    if arg.len() == 0 {
        lemma_argv_read_concat(state, seq!['"'], seq!['"']);
        assert(seq!['"'] + seq!['"'] =~= seq!['"', '"']);
        lemma_argv_read_one(state, '"');
        let open = argv_step(state, '"');
        lemma_argv_read_one(open, '"');
        assert(argv_step(open, '"').current + backslashes(0) =~= arg);
    } else if !needs_quotes(arg) {
        lemma_argv_read_plain(state, arg);
        lemma_trailing_backslashes(arg);
    } else {
        let t = trailing_backslashes(arg);
        lemma_argv_read_one(state, '"');
        let open = argv_step(state, '"');
        assert(open.current =~= Seq::<char>::empty());
        lemma_argv_read_escaped(open, arg);
        let read = argv_read(open, escaped(arg));
        lemma_argv_read_backslashes(read, 2 * t);
        let last = argv_read(read, backslashes(2 * t));
        lemma_argv_read_one(last, '"');
        let head = seq!['"'] + escaped(arg);
        lemma_argv_read_concat(state, seq!['"'], escaped(arg));
        lemma_argv_read_concat(state, head, backslashes(2 * t));
        lemma_argv_read_concat(state, head + backslashes(2 * t), seq!['"']);
        lemma_trailing_backslashes(arg);
        assert((2 * t) / 2 == t as int);
        assert((2 * t) % 2 == 0);
        assert(argv_step(last, '"').current + backslashes(0) =~= arg);
    }
}

/// What the joined arguments add to the first one.
spec fn joined_after(args: Seq<Seq<char>>) -> Seq<char>
    decreases args.len(),
{
    if args.len() <= 1 {
        Seq::empty()
    } else {
        joined_after(args.drop_last()) + seq![' '] + quoted(args.last())
    }
}

proof fn lemma_joined_after(args: Seq<Seq<char>>)
    requires
        args.len() > 0,
    ensures
        joined(args) == quoted(args[0]) + joined_after(args),
        joined_after(args).len() > 0 ==> joined_after(args)[0] == ' ',
    decreases args.len(),
{
    if args.len() == 1 {
        assert(quoted(args[0]) + joined_after(args) =~= quoted(args[0]));
    } else {
        let init = args.drop_last();
        lemma_joined_after(init);
        assert(init[0] == args[0]);
        assert(joined(args) =~= quoted(args[0]) + joined_after(args));
        if joined_after(init).len() == 0 {
            assert(joined_after(args)[0] == ' ');
        } else {
            assert(joined_after(args)[0] == joined_after(init)[0]);
        }
    }
}

proof fn lemma_argv_read_joined_after(args: Seq<Seq<char>>)
    requires
        args.len() > 0,
    ensures
        argv_close(argv_read(argv_start(), joined_after(args))) == args.skip(1),
        !argv_read(argv_start(), joined_after(args)).quoted,
    decreases args.len(),
{
    if args.len() == 1 {
        assert(args.skip(1) =~= Seq::<Seq<char>>::empty());
    } else {
        let init = args.drop_last();
        let head = joined_after(init);
        lemma_argv_read_joined_after(init);
        let before = argv_read(argv_start(), head);
        lemma_argv_read_one(before, ' ');
        let gap = argv_step(before, ' ');
        assert(gap.args =~= init.skip(1));
        lemma_argv_read_quoted(gap, args.last());
        lemma_argv_read_concat(argv_start(), head, seq![' ']);
        lemma_argv_read_concat(argv_start(), head + seq![' '], quoted(args.last()));
        assert(args.skip(1) =~= init.skip(1).push(args.last()));
    }
}

proof fn lemma_length_before(a: Seq<char>, b: Seq<char>, ends: spec_fn(char) -> bool)
    requires
        forall|i: int| 0 <= i < a.len() ==> !ends(#[trigger] a[i]),
        b.len() > 0 ==> ends(b[0]),
    ensures
        length_before(a + b, ends) == a.len(),
    decreases a.len(),
{
    if a.len() == 0 {
        assert(a + b =~= b);
    } else {
        let rest = a.skip(1);
        assert((a + b)[0] == a[0]);
        assert((a + b).skip(1) =~= rest + b);
        assert forall|i: int| 0 <= i < rest.len() implies !ends(#[trigger] rest[i]) by {
            assert(rest[i] == a[i + 1]);
        }
        lemma_length_before(rest, b, ends);
    }
}

/// `arg` holds no quotation mark, and its quoted form has no backslash more
/// than it has itself.
pub open spec fn stands_as_it_is(arg: Seq<char>) -> bool {
    !arg.contains('"') && (needs_quotes(arg) ==> arg.last() != '\\')
}

proof fn lemma_escaped_unchanged(arg: Seq<char>)
    requires
        !arg.contains('"'),
    ensures
        escaped(arg) + backslashes(trailing_backslashes(arg)) == arg,
    decreases arg.len(),
{
    if arg.len() > 0 {
        let init = arg.drop_last();
        assert(!init.contains('"')) by {
            if init.contains('"') {
                let i = choose|i: int| 0 <= i < init.len() && init[i] == '"';
                assert(arg[i] == '"');
            }
        }
        lemma_escaped_unchanged(init);
        let c = arg.last();
        let n = trailing_backslashes(init);
        assert(arg[arg.len() - 1] == c);
        assert(arg =~= init.push(c));
        if c == '\\' {
            assert(backslashes(n + 1) =~= backslashes(n).push(c));
        }
        assert(escaped(arg) + backslashes(trailing_backslashes(arg)) =~= arg);
    } else {
        assert(escaped(arg) + backslashes(trailing_backslashes(arg)) =~= arg);
    }
}

proof fn lemma_quoted_unchanged(arg: Seq<char>)
    requires
        stands_as_it_is(arg),
    ensures
        quoted(arg) == if arg.len() == 0 || needs_quotes(arg) {
            seq!['"'] + arg + seq!['"']
        } else {
            arg
        },
{
    if arg.len() == 0 {
        assert(quoted(arg) =~= seq!['"'] + arg + seq!['"']);
    } else if needs_quotes(arg) {
        lemma_escaped_unchanged(arg);
        assert(trailing_backslashes(arg) == 0);
        assert(quoted(arg) =~= seq!['"'] + arg + seq!['"']);
    }
}

proof fn lemma_program_of_joined(arg: Seq<char>, rest: Seq<char>)
    requires
        stands_as_it_is(arg),
        rest.len() > 0 ==> rest[0] == ' ',
    ensures
        program(quoted(arg) + rest) == (arg, rest),
{
    lemma_quoted_unchanged(arg);
    let line = quoted(arg) + rest;
    if arg.len() == 0 || needs_quotes(arg) {
        let after = line.skip(1);
        let mark = |c: char| c == '"';
        assert(line[0] == '"');
        assert(after =~= arg + (seq!['"'] + rest));
        assert forall|i: int| 0 <= i < arg.len() implies !mark(#[trigger] arg[i]) by {
            assert(arg.contains(arg[i]));
        }
        lemma_length_before(arg, seq!['"'] + rest, mark);
        assert(after.take(arg.len() as int) =~= arg);
        assert(after.skip(arg.len() as int + 1) =~= rest);
    } else {
        let blank = |c: char| c == ' ' || c == '\t';
        assert(line[0] == arg[0]);
        assert(arg.contains(arg[0]));
        assert forall|i: int| 0 <= i < arg.len() implies !blank(#[trigger] arg[i]) by {
            assert(!text::is_space(arg[i]));
        }
        lemma_length_before(arg, rest, blank);
        assert(line.take(arg.len() as int) =~= arg);
        assert(line.skip(arg.len() as int) =~= rest);
    }
}

proof fn lemma_rest_of_joined(arg: Seq<char>, rest: Seq<char>)
    requires
        !arg.contains('"'),
        rest.len() > 0 ==> rest[0] == ' ',
    ensures
        program(quoted(arg) + rest).1 == rest,
{
    if stands_as_it_is(arg) {
        lemma_program_of_joined(arg, rest);
    } else {
        let slashes = backslashes(2 * trailing_backslashes(arg));
        let held = escaped(arg) + slashes;
        let line = quoted(arg) + rest;
        let after = line.skip(1);
        let mark = |c: char| c == '"';
        lemma_escaped_unchanged(arg);
        assert forall|i: int| 0 <= i < held.len() implies !mark(#[trigger] held[i]) by {
            if i < escaped(arg).len() {
                assert(held[i] == arg[i]);
                assert(arg.contains(arg[i]));
            } else {
                assert(held[i] == slashes[i - escaped(arg).len()]);
            }
        }
        assert(line[0] == '"');
        assert(after =~= held + (seq!['"'] + rest));
        lemma_length_before(held, seq!['"'] + rest, mark);
        assert(after.skip(held.len() as int + 1) =~= rest);
    }
}

/// A program launched with the joined command line gets the arguments after its
/// own name exactly as they were joined, whatever they hold, where the name holds
/// no quotation mark.
pub proof fn law_arguments_are_read_back(args: Seq<Seq<char>>)
    requires
        args.len() > 0,
        !args[0].contains('"'),
    ensures
        argv(joined(args)).skip(1) == args.skip(1),
{
    let line = joined(args);
    lemma_joined_after(args);
    lemma_rest_of_joined(args[0], joined_after(args));
    lemma_argv_read_joined_after(args);
    assert(argv(line).skip(1) =~= argv_close(argv_read(argv_start(), program(line).1)));
}

/// A program launched with the joined command line gets exactly the arguments
/// that were joined. The first one, its own name, must stand in the line as it
/// is: in a name no escape is known for a quotation mark, nor for a backslash
/// before the mark that closes it. The others may hold anything.
pub proof fn law_join_is_read_back(args: Seq<Seq<char>>)
    requires
        args.len() > 0,
        stands_as_it_is(args[0]),
    ensures
        argv(joined(args)) == args,
{
    lemma_joined_after(args);
    lemma_program_of_joined(args[0], joined_after(args));
    lemma_argv_read_joined_after(args);
    assert(seq![args[0]] + args.skip(1) =~= args);
}

proof fn lemma_split_word(state: SplitState, line: Seq<char>, arg: Seq<char>)
    requires
        state == split_state(line),
        forall|i: int| 0 <= i < arg.len() ==> #[trigger] arg[i] != '"' && (state.quoted
            || !text::is_space(arg[i])),
    ensures
        split_state(line + arg) == (SplitState { current: state.current + arg, ..state }),
    decreases arg.len(),
{
    if arg.len() == 0 {
        assert(line + arg =~= line);
        assert(state.current + arg =~= state.current);
    } else {
        let init = arg.drop_last();
        assert forall|i: int| 0 <= i < init.len() implies #[trigger] init[i] != '"' && (
        state.quoted || !text::is_space(init[i])) by {
            assert(init[i] == arg[i]);
        }
        lemma_split_word(state, line, init);
        assert((line + arg).drop_last() =~= line + init);
        assert((line + arg).last() == arg[arg.len() - 1]);
        assert((state.current + init).push(arg.last()) =~= state.current + arg);
    }
}

proof fn lemma_split_quoted(line: Seq<char>, arg: Seq<char>)
    requires
        !split_state(line).quoted,
        split_state(line).current.len() == 0,
        stands_as_it_is(arg),
    ensures
        split_state(line + quoted(arg)) == (SplitState { current: arg, ..split_state(line) }),
{
    lemma_quoted_unchanged(arg);
    let state = split_state(line);
    assert forall|i: int| 0 <= i < arg.len() implies #[trigger] arg[i] != '"' by {
        assert(arg.contains(arg[i]));
    }
    if arg.len() == 0 || needs_quotes(arg) {
        let open = line.push('"');
        assert(open.drop_last() =~= line);
        assert(split_state(open) == (SplitState { quoted: true, ..state }));
        lemma_split_word(split_state(open), open, arg);
        let whole = line + quoted(arg);
        assert(whole.drop_last() =~= open + arg);
        assert(whole.last() == '"');
        assert(split_state(whole).current =~= arg);
    } else {
        lemma_split_word(state, line, arg);
        assert(split_state(line + quoted(arg)).current =~= arg);
    }
}

proof fn lemma_split_joined(args: Seq<Seq<char>>)
    requires
        args.len() > 0,
        forall|i: int|
            0 <= i < args.len() ==> (#[trigger] args[i]).len() > 0 && stands_as_it_is(args[i]),
    ensures
        split_state(joined(args)) == (SplitState {
            args: args.drop_last(),
            current: args.last(),
            quoted: false,
        }),
    decreases args.len(),
{
    let last = args[args.len() - 1];
    if args.len() == 1 {
        let empty = Seq::<char>::empty();
        lemma_split_quoted(empty, last);
        assert(empty + quoted(last) =~= quoted(last));
        assert(args.drop_last() =~= Seq::<Seq<char>>::empty());
    } else {
        let init = args.drop_last();
        assert forall|i: int| 0 <= i < init.len() implies (#[trigger] init[i]).len() > 0
            && stands_as_it_is(init[i]) by {
            assert(init[i] == args[i]);
        }
        lemma_split_joined(init);
        assert(init.last() == init[init.len() - 1]);
        let gap = joined(init).push(' ');
        assert(gap.drop_last() =~= joined(init));
        assert(text::is_space(' '));
        assert(split_state(gap).args =~= init);
        lemma_split_quoted(gap, last);
        assert(gap + quoted(last) =~= joined(args));
    }
}

/// Splitting a joined command line gives the arguments back, where none is empty
/// and each stands in the line as it is: splitting knows no escapes.
pub proof fn law_splitting_undoes_joining(args: Seq<Seq<char>>)
    requires
        forall|i: int|
            0 <= i < args.len() ==> (#[trigger] args[i]).len() > 0 && stands_as_it_is(args[i]),
    ensures
        split_args(joined(args)) == args,
{
    if args.len() == 0 {
        assert(split_args(joined(args)) =~= args);
    } else {
        lemma_split_joined(args);
        assert(args[args.len() - 1].len() > 0);
        assert(args.drop_last().push(args.last()) =~= args);
    }
}

/// No argument of a split command line is empty or holds a quotation mark.
pub proof fn law_split_arguments_are_unquoted(line: Seq<char>, i: int)
    requires
        0 <= i < split_args(line).len(),
    ensures
        split_args(line)[i].len() > 0,
        !split_args(line)[i].contains('"'),
{
    lemma_split_unquoted(line);
}

proof fn lemma_split_unquoted(line: Seq<char>)
    ensures
        !split_state(line).current.contains('"'),
        forall|i: int|
            0 <= i < split_state(line).args.len() ==> (#[trigger] split_state(line).args[i]).len()
                > 0 && !split_state(line).args[i].contains('"'),
    decreases line.len(),
{
    if line.len() > 0 {
        let before = split_state(line.drop_last());
        lemma_split_unquoted(line.drop_last());
        let c = line.last();
        if c != '"' && (before.quoted || !text::is_space(c)) {
            let current = before.current.push(c);
            if current.contains('"') {
                let i = choose|i: int| 0 <= i < current.len() && current[i] == '"';
                assert(before.current.contains(before.current[i]));
            }
        }
    }
}

} // verus!
