//! Dispatch of one line of input: the registry of commands, the reading of a
//! line, and what each command asks the caller to do.

use vstd::prelude::*;
use crate::text::{
    chars_of, join, joined, leading_spaces, lemma_words_empty, opt_view, pad_right, padded,
    same_text, split_words, trim_bounds, views, words,
};

verus! {

/// The commands of the shell.
#[derive(Clone, Copy, Debug, PartialEq, Eq, Structural)]
pub enum Command {
    List,
    Cat,
    Cwd,
    Cd,
    Edit,
    Copy,
    Help,
    Exit,
}

impl Command {
    /// The name by which the command is called.
    pub open spec fn name(self) -> Seq<char> {
        match self {
            Command::List => "list"@,
            Command::Cat => "cat"@,
            Command::Cwd => "cwd"@,
            Command::Cd => "cd"@,
            Command::Edit => "edit"@,
            Command::Copy => "copy"@,
            Command::Help => "help"@,
            Command::Exit => "exit"@,
        }
    }

    /// What the command does, for the help text.
    pub open spec fn description(self) -> Seq<char> {
        match self {
            Command::List => "Aliases to remote 'ls'"@,
            Command::Cat => "Prints a remote file"@,
            Command::Cwd => "Prints remote working directory"@,
            Command::Cd => "Change directory"@,
            Command::Edit => "Edits a remote file or directory in a local editor"@,
            Command::Copy => "Copies a remote file or directory to this machine"@,
            Command::Help => "Lists the commands"@,
            Command::Exit => "Leaves the shell"@,
        }
    }
}

/// The registered commands, in the order in which help lists them.
pub open spec fn all_commands() -> Seq<Command> {
    seq![
        Command::List,
        Command::Cat,
        Command::Cwd,
        Command::Cd,
        Command::Edit,
        Command::Copy,
        Command::Help,
        Command::Exit,
    ]
}

/// The command that `name` calls, if it calls one.
pub open spec fn command_named(name: Seq<char>) -> Option<Command> {
    if name == Command::List.name() {
        Some(Command::List)
    } else if name == Command::Cat.name() {
        Some(Command::Cat)
    } else if name == Command::Cwd.name() {
        Some(Command::Cwd)
    } else if name == Command::Cd.name() {
        Some(Command::Cd)
    } else if name == Command::Edit.name() {
        Some(Command::Edit)
    } else if name == Command::Copy.name() {
        Some(Command::Copy)
    } else if name == Command::Help.name() {
        Some(Command::Help)
    } else if name == Command::Exit.name() {
        Some(Command::Exit)
    } else {
        None
    }
}

/// One entry of the registry.
#[derive(Debug, PartialEq, Eq)]
pub struct ReplCommand {
    pub name: String,
    pub description: String,
    pub command: Command,
}

/// What a line of input asks for.
#[derive(Debug, PartialEq, Eq)]
pub enum Dispatch {
    /// The line holds nothing but whitespace.
    Nothing,
    /// The line calls a registered command.
    Invoke { command: Command, args: Vec<String> },
    /// The line is to be run on the remote host as it stands.
    Raw { text: String },
    /// The first word names no command.
    Unknown { name: String },
}

pub enum DispatchView {
    Nothing,
    Invoke { command: Command, args: Seq<Seq<char>> },
    Raw { text: Seq<char> },
    Unknown { name: Seq<char> },
}

impl View for Dispatch {
    type V = DispatchView;

    open spec fn view(&self) -> DispatchView {
        match *self {
            Dispatch::Nothing => DispatchView::Nothing,
            Dispatch::Invoke { command, args } => DispatchView::Invoke {
                command,
                args: views(args@),
            },
            Dispatch::Raw { text } => DispatchView::Raw { text: text@ },
            Dispatch::Unknown { name } => DispatchView::Unknown { name: name@ },
        }
    }
}

/// The character that marks a line as raw passthrough.
pub open spec fn raw_prefix() -> char {
    '!'
}

/// What the line `line` asks for. A line whose first character, leading
/// whitespace apart, is the raw prefix hands on all that follows the prefix,
/// unchanged to the end of the line. Any other line is read as words: the
/// first names the command, the others are its arguments.
pub open spec fn dispatch_of(line: Seq<char>) -> DispatchView {
    let start = leading_spaces(line) as int;
    if start >= line.len() {
        DispatchView::Nothing
    } else if line[start] == raw_prefix() {
        DispatchView::Raw { text: line.skip(start + 1) }
    } else {
        let w = words(line);
        match command_named(w[0]) {
            Some(command) => DispatchView::Invoke { command, args: w.skip(1) },
            None => DispatchView::Unknown { name: w[0] },
        }
    }
}

/// What the caller is to do for one line of input.
#[derive(Debug, PartialEq, Eq)]
pub enum Step {
    /// Leave the loop.
    Quit,
    /// Do nothing and read on.
    Nothing,
    /// Show the help text.
    ShowHelp,
    /// Run `command` on the remote host, in the believed working directory,
    /// and show what it prints.
    Remote { command: String },
    /// Change the believed working directory towards `target`.
    ChangeDirectory { target: String },
    /// Edit the remote `path` locally; ask for it where it is missing.
    Edit { path: Option<String> },
    /// Copy the remote `source` to the local `destination`; ask for what is
    /// missing.
    Copy { source: Option<String>, destination: Option<String> },
    /// The command was called wrongly: show `message`.
    Usage { message: String },
    /// Nothing is registered under `name`: say so and read on.
    Unknown { name: String },
}

pub enum StepView {
    Quit,
    Nothing,
    ShowHelp,
    Remote { command: Seq<char> },
    ChangeDirectory { target: Seq<char> },
    Edit { path: Option<Seq<char>> },
    Copy { source: Option<Seq<char>>, destination: Option<Seq<char>> },
    Usage { message: Seq<char> },
    Unknown { name: Seq<char> },
}

impl View for Step {
    type V = StepView;

    open spec fn view(&self) -> StepView {
        match *self {
            Step::Quit => StepView::Quit,
            Step::Nothing => StepView::Nothing,
            Step::ShowHelp => StepView::ShowHelp,
            Step::Remote { command } => StepView::Remote { command: command@ },
            Step::ChangeDirectory { target } => StepView::ChangeDirectory { target: target@ },
            Step::Edit { path } => StepView::Edit { path: opt_view(path) },
            Step::Copy { source, destination } => StepView::Copy {
                source: opt_view(source),
                destination: opt_view(destination),
            },
            Step::Usage { message } => StepView::Usage { message: message@ },
            Step::Unknown { name } => StepView::Unknown { name: name@ },
        }
    }
}

/// The argument at position `i`, if there is one.
pub open spec fn arg_at(args: Seq<Seq<char>>, i: int) -> Option<Seq<char>> {
    if 0 <= i < args.len() {
        Some(args[i])
    } else {
        None
    }
}

/// What `command` asks the caller to do when called with `args`.
pub open spec fn step_of_command(command: Command, args: Seq<Seq<char>>) -> StepView {
    match command {
        Command::List => StepView::Remote { command: "ls "@ + joined(args, " "@) },
        Command::Cat => if args.len() == 0 {
            StepView::Usage { message: "usage: cat <file>"@ }
        } else {
            StepView::Remote { command: "cat "@ + joined(args, " "@) }
        },
        Command::Cwd => StepView::Remote { command: "pwd"@ },
        Command::Cd => StepView::ChangeDirectory {
            target: if args.len() == 0 {
                "~"@
            } else {
                args[0]
            },
        },
        Command::Edit => StepView::Edit { path: arg_at(args, 0) },
        Command::Copy => StepView::Copy { source: arg_at(args, 0), destination: arg_at(args, 1) },
        Command::Help => StepView::ShowHelp,
        Command::Exit => StepView::Quit,
    }
}

/// What the caller is to do for what a line asks.
pub open spec fn step_of_dispatch(d: DispatchView) -> StepView {
    match d {
        DispatchView::Nothing => StepView::Nothing,
        DispatchView::Invoke { command, args } => step_of_command(command, args),
        DispatchView::Raw { text } => StepView::Remote { command: text },
        DispatchView::Unknown { name } => StepView::Unknown { name },
    }
}

/// What the input layer handed over.
#[derive(Debug, PartialEq, Eq)]
pub enum ReplInput {
    /// A line was read.
    Line(String),
    /// The user interrupted the prompt.
    Interrupted,
    /// The input has ended.
    EndOfInput,
    /// Reading failed for another reason.
    Failed,
}

/// What the caller is to do for what the input layer handed over: the loop
/// ends on an interrupt, at the end of input and when reading fails, and a
/// line is dispatched.
pub open spec fn step_of_input(input: ReplInput) -> StepView {
    match input {
        ReplInput::Line(line) => step_of_dispatch(dispatch_of(line@)),
        _ => StepView::Quit,
    }
}

/// One line of the help text.
pub open spec fn help_line(name: Seq<char>, description: Seq<char>) -> Seq<char> {
    "  "@ + padded(name, 8) + ": "@ + description
}

/// The loop ends on `exit` and when the input layer has no line to give, and
/// on nothing else.
pub proof fn lemma_quit(input: ReplInput)
    ensures
        step_of_input(input) == StepView::Quit <==> match input {
            ReplInput::Line(line) => dispatch_of(line@) matches DispatchView::Invoke {
                command: Command::Exit,
                ..
            },
            _ => true,
        },
{
}

/// Every command is found under its own name, so no two share one.
pub proof fn lemma_command_named(c: Command)
    ensures
        command_named(c.name()) == Some(c),
{
    reveal_strlit("list");
    reveal_strlit("cat");
    reveal_strlit("cwd");
    reveal_strlit("cd");
    reveal_strlit("edit");
    reveal_strlit("copy");
    reveal_strlit("help");
    reveal_strlit("exit");
    assert("list"@.len() == 4 && "list"@[0] == 'l');
    assert("cat"@.len() == 3 && "cat"@[1] == 'a');
    assert("cwd"@.len() == 3 && "cwd"@[1] == 'w');
    assert("cd"@.len() == 2);
    assert("edit"@.len() == 4 && "edit"@[0] == 'e' && "edit"@[1] == 'd');
    assert("copy"@.len() == 4 && "copy"@[0] == 'c');
    assert("help"@.len() == 4 && "help"@[0] == 'h');
    assert("exit"@.len() == 4 && "exit"@[0] == 'e' && "exit"@[1] == 'x');
}

/// The command that `name` calls, if it calls one.
pub fn lookup(name: &str) -> (r: Option<Command>)
    ensures
        r == command_named(name@),
{
    if same_text(name, "list") {
        Some(Command::List)
    } else if same_text(name, "cat") {
        Some(Command::Cat)
    } else if same_text(name, "cwd") {
        Some(Command::Cwd)
    } else if same_text(name, "cd") {
        Some(Command::Cd)
    } else if same_text(name, "edit") {
        Some(Command::Edit)
    } else if same_text(name, "copy") {
        Some(Command::Copy)
    } else if same_text(name, "help") {
        Some(Command::Help)
    } else if same_text(name, "exit") {
        Some(Command::Exit)
    } else {
        None
    }
}

/// The registry entry of `command`.
pub fn entry_of(command: Command) -> (r: ReplCommand)
    ensures
        r.command == command,
        r.name@ == command.name(),
        r.description@ == command.description(),
{
    let (name, description) = match command {
        Command::List => ("list", "Aliases to remote 'ls'"),
        Command::Cat => ("cat", "Prints a remote file"),
        Command::Cwd => ("cwd", "Prints remote working directory"),
        Command::Cd => ("cd", "Change directory"),
        Command::Edit => ("edit", "Edits a remote file or directory in a local editor"),
        Command::Copy => ("copy", "Copies a remote file or directory to this machine"),
        Command::Help => ("help", "Lists the commands"),
        Command::Exit => ("exit", "Leaves the shell"),
    };
    ReplCommand { name: name.to_owned(), description: description.to_owned(), command }
}

/// The registry: one entry for each command, in the order of `all_commands`.
pub fn get_commands() -> (r: Vec<ReplCommand>)
    ensures
        r@.len() == all_commands().len(),
        forall|i: int|
            0 <= i < r@.len() ==> {
                &&& (#[trigger] r@[i]).command == all_commands()[i]
                &&& r@[i].name@ == all_commands()[i].name()
                &&& r@[i].description@ == all_commands()[i].description()
            },
{
    let mut out: Vec<ReplCommand> = Vec::new();
    out.push(entry_of(Command::List));
    out.push(entry_of(Command::Cat));
    out.push(entry_of(Command::Cwd));
    out.push(entry_of(Command::Cd));
    out.push(entry_of(Command::Edit));
    out.push(entry_of(Command::Copy));
    out.push(entry_of(Command::Help));
    out.push(entry_of(Command::Exit));
    out
}

/// The help text: a heading, then one line for each entry of `commands`.
pub fn help_lines(commands: &Vec<ReplCommand>) -> (r: Vec<String>)
    ensures
        r@.len() == commands@.len() + 1,
        r@[0]@ == "\n--- TRUMP Commands ---"@,
        forall|i: int|
            0 <= i < commands@.len() ==> (#[trigger] r@[i + 1])@ == help_line(
                commands@[i].name@,
                commands@[i].description@,
            ),
{
    let mut out: Vec<String> = Vec::new();
    out.push("\n--- TRUMP Commands ---".to_owned());
    let n = commands.len();
    let mut i: usize = 0;
    while i < n
        invariant
            i <= n,
            n == commands@.len(),
            out@.len() == i + 1,
            out@[0]@ == "\n--- TRUMP Commands ---"@,
            forall|k: int|
                0 <= k < i ==> (#[trigger] out@[k + 1])@ == help_line(
                    commands@[k].name@,
                    commands@[k].description@,
                ),
        decreases n - i,
    {
        let mut line = "  ".to_owned();
        let name = pad_right(commands[i].name.as_str(), 8);
        line.append(name.as_str());
        line.append(": ");
        line.append(commands[i].description.as_str());
        out.push(line);
        i += 1;
    }
    out
}

/// Reads one line of input.
pub fn parse_line(line: &str) -> (r: Dispatch)
    ensures
        r@ == dispatch_of(line@),
{
    let v = chars_of(line);
    let n = v.len();
    let (start, _) = trim_bounds(&v);
    if start >= n {
        return Dispatch::Nothing;
    }
    if v[start] == '!' {
        let rest = line.substring_char(start + 1, n).to_owned();
        assert(line@.subrange(start + 1, n as int) =~= line@.skip(start + 1));
        return Dispatch::Raw { text: rest };
    }
    let mut w = split_words(line);
    proof {
        lemma_words_empty(line@);
    }
    let ghost all = w@;
    let name = w.remove(0);
    assert(views(w@) =~= views(all).skip(1));
    match lookup(name.as_str()) {
        Some(command) => Dispatch::Invoke { command, args: w },
        None => Dispatch::Unknown { name },
    }
}

/// What `command` asks the caller to do when called with `args`.
pub fn plan(command: Command, args: &Vec<String>) -> (r: Step)
    ensures
        r@ == step_of_command(command, views(args@)),
{
    match command {
        Command::List => {
            let mut c = "ls ".to_owned();
            let rest = join(args, " ");
            c.append(rest.as_str());
            Step::Remote { command: c }
        },
        Command::Cat => {
            if args.len() == 0 {
                Step::Usage { message: "usage: cat <file>".to_owned() }
            } else {
                let mut c = "cat ".to_owned();
                let rest = join(args, " ");
                c.append(rest.as_str());
                Step::Remote { command: c }
            }
        },
        Command::Cwd => Step::Remote { command: "pwd".to_owned() },
        Command::Cd => {
            if args.len() == 0 {
                Step::ChangeDirectory { target: "~".to_owned() }
            } else {
                Step::ChangeDirectory { target: args[0].clone() }
            }
        },
        Command::Edit => Step::Edit { path: argument(args, 0) },
        Command::Copy => Step::Copy { source: argument(args, 0), destination: argument(args, 1) },
        Command::Help => Step::ShowHelp,
        Command::Exit => Step::Quit,
    }
}

/// The argument at position `i`, if there is one.
pub fn argument(args: &Vec<String>, i: usize) -> (r: Option<String>)
    ensures
        opt_view(r) == arg_at(views(args@), i as int),
{
    if i < args.len() {
        Some(args[i].clone())
    } else {
        None
    }
}

/// What the caller is to do for what a line asks.
pub fn step_for(dispatch: Dispatch) -> (r: Step)
    ensures
        r@ == step_of_dispatch(dispatch@),
{
    match dispatch {
        Dispatch::Nothing => Step::Nothing,
        Dispatch::Invoke { command, args } => plan(command, &args),
        Dispatch::Raw { text } => Step::Remote { command: text },
        Dispatch::Unknown { name } => Step::Unknown { name },
    }
}

/// One turn of the read-eval loop: what the caller is to do for what the
/// input layer handed over. The caller reads again after every step but
/// `Quit`, whether or not the step succeeded.
pub fn repl(input: ReplInput) -> (r: Step)
    ensures
        r@ == step_of_input(input),
{
    match input {
        ReplInput::Line(line) => step_for(parse_line(line.as_str())),
        ReplInput::Interrupted => Step::Quit,
        ReplInput::EndOfInput => Step::Quit,
        ReplInput::Failed => Step::Quit,
    }
}

} // verus!
