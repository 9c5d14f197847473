//! The closed set of builtin commands: their errors, the outside work a run
//! leaves to its caller, the registry that maps a name to a command, and one
//! step of the interpreter.
use vstd::prelude::*;
use crate::builtins::{
    cat_spec, cd_spec, echo_spec, ls_spec, man_spec, pwd_spec, todo_spec, touch_spec, Cat, Cd,
    Counter, Echo, Json, Ls, Man, Pwd, Timer, Todo, Touch,
};
use crate::nav::NavError;
use crate::path::AbsPath;
use crate::session::{lemma_blank_has_no_words, lemma_strip_is_suffix, preprocess_spec, strip_spaces, SessionView, CMD};
use crate::text::{is_space, text_is, views};

verus! {

/// A malformed invocation of a known command.
#[derive(Debug, Clone, Copy, PartialEq, Eq)]
pub enum ArgError {
    /// More arguments than the command takes.
    TooManyArguments,
    /// `touch` without a file name.
    MissingOperand,
    /// `touch` with a name that ends in `/`.
    DirectoryOperand,
    /// `man` on a command it has no page for (the second token).
    UnknownTopic,
    /// `todo add` without a task.
    NoTasks,
    /// `todo do` or `todo undo` without an id.
    NoTaskIds,
    /// A task id that is not an unsigned integer.
    InvalidTaskId,
    /// A `todo` subcommand that does not exist (the second token).
    UnknownTodoCommand,
}

/// Why a line could not be carried out.
#[derive(Debug, Clone, Copy, PartialEq, Eq)]
pub enum CommandError {
    /// The first token names no builtin command.
    UnknownCommand,
    Argument(ArgError),
    Navigation(NavError),
}

/// How printed text is coloured.
#[derive(Debug, Clone, Copy, PartialEq, Eq)]
pub enum Tone {
    Plain,
    Green,
    Cyan,
}

/// The interactive front-ends a command can open.
#[derive(Debug, Clone, Copy, PartialEq, Eq)]
pub enum Widget {
    Counter,
    Timer,
    Json,
}

/// An operation on the task list.
#[derive(Debug, Clone, PartialEq, Eq)]
pub enum TodoAction {
    /// Show every task.
    List,
    /// Add one task per name.
    Add(Vec<String>),
    /// Mark the tasks with these ids as done.
    Done(Vec<u64>),
    /// Mark the tasks with these ids as not done.
    Undone(Vec<u64>),
}

/// The outside work that a command leaves to its caller.
#[derive(Debug, Clone, PartialEq, Eq)]
pub enum Effect {
    /// Nothing is left to do.
    Done,
    /// Print this text as it is, in this colour.
    Print(String, Tone),
    /// Print the contents of each of these files, in order.
    Read(Vec<AbsPath>),
    /// List the entries of this directory.
    List(AbsPath),
    /// Look this candidate up and hand the finding to `CMD::change_dir`.
    Probe(AbsPath),
    /// Create the first path as a file if its parent, the second, exists.
    Create(AbsPath, AbsPath),
    /// Carry out this operation on the task list.
    Tasks(TodoAction),
    /// Run this interactive front-end.
    Launch(Widget),
}

/// A task-list operation, as mathematical values.
pub enum TodoView {
    List,
    Add(Seq<Seq<char>>),
    Done(Seq<u64>),
    Undone(Seq<u64>),
}

/// An effect, as mathematical values.
pub enum EffectView {
    Done,
    Print(Seq<char>, Tone),
    Read(Seq<Seq<Seq<char>>>),
    List(Seq<Seq<char>>),
    Probe(Seq<Seq<char>>),
    Create(Seq<Seq<char>>, Seq<Seq<char>>),
    Tasks(TodoView),
    Launch(Widget),
}

/// The views of a sequence of paths.
pub open spec fn path_views(v: Seq<AbsPath>) -> Seq<Seq<Seq<char>>> {
    v.map_values(|p: AbsPath| p@)
}

impl View for TodoAction {
    type V = TodoView;

    open spec fn view(&self) -> TodoView {
        match self {
            TodoAction::List => TodoView::List,
            TodoAction::Add(names) => TodoView::Add(views(names@)),
            TodoAction::Done(ids) => TodoView::Done(ids@),
            TodoAction::Undone(ids) => TodoView::Undone(ids@),
        }
    }
}

impl View for Effect {
    type V = EffectView;

    open spec fn view(&self) -> EffectView {
        match self {
            Effect::Done => EffectView::Done,
            Effect::Print(t, tone) => EffectView::Print(t@, *tone),
            Effect::Read(paths) => EffectView::Read(path_views(paths@)),
            Effect::List(p) => EffectView::List(p@),
            Effect::Probe(p) => EffectView::Probe(p@),
            Effect::Create(target, parent) => EffectView::Create(target@, parent@),
            Effect::Tasks(a) => EffectView::Tasks(a@),
            Effect::Launch(w) => EffectView::Launch(*w),
        }
    }
}

/// A command's result seen through the effect's view.
pub open spec fn effect_result(r: Result<Effect, CommandError>) -> Result<EffectView, CommandError> {
    match r {
        Ok(e) => Ok(e@),
        Err(x) => Err(x),
    }
}

/// A command that runs against the session it is handed.
pub trait Runnable {
    /// Carries out the command's decisions on `session` and returns the
    /// outside work that is left.
    fn run(&mut self, session: &mut CMD) -> Result<Effect, CommandError>;
}

/// One builtin command, ready to run.
#[derive(Debug, Clone, Copy, PartialEq, Eq)]
pub enum BinEnum {
    Cat(Cat),
    Cd(Cd),
    Echo(Echo),
    Ls(Ls),
    Man(Man),
    Pwd(Pwd),
    Touch(Touch),
    Todo(Todo),
    Counter(Counter),
    Timer(Timer),
    Json(Json),
}

/// The command registered under `name`, if any. Names match exactly.
pub open spec fn lookup(name: Seq<char>) -> Option<BinEnum> {
    if name == "echo"@ {
        Some(BinEnum::Echo(Echo {}))
    } else if name == "pwd"@ {
        Some(BinEnum::Pwd(Pwd {}))
    } else if name == "ls"@ {
        Some(BinEnum::Ls(Ls {}))
    } else if name == "cat"@ {
        Some(BinEnum::Cat(Cat {}))
    } else if name == "cd"@ {
        Some(BinEnum::Cd(Cd {}))
    } else if name == "man"@ {
        Some(BinEnum::Man(Man {}))
    } else if name == "touch"@ {
        Some(BinEnum::Touch(Touch {}))
    } else if name == "todo"@ {
        Some(BinEnum::Todo(Todo {}))
    } else if name == "counter"@ {
        Some(BinEnum::Counter(Counter {}))
    } else if name == "timer"@ {
        Some(BinEnum::Timer(Timer {}))
    } else if name == "json"@ {
        Some(BinEnum::Json(Json {}))
    } else {
        None
    }
}

/// What running `b` does to a session: the session after it, and the result.
/// Only `cd` moves the current directory; no command touches anything else.
pub open spec fn command_spec(b: BinEnum, s: SessionView) -> (SessionView, Result<EffectView, CommandError>) {
    match b {
        BinEnum::Cd(_) => (SessionView { cur: cd_spec(s).0, ..s }, cd_spec(s).1),
        BinEnum::Cat(_) => (s, cat_spec(s)),
        BinEnum::Echo(_) => (s, echo_spec(s)),
        BinEnum::Ls(_) => (s, ls_spec(s)),
        BinEnum::Man(_) => (s, man_spec(s)),
        BinEnum::Pwd(_) => (s, pwd_spec(s)),
        BinEnum::Touch(_) => (s, touch_spec(s)),
        BinEnum::Todo(_) => (s, todo_spec(s)),
        BinEnum::Counter(_) => (s, Ok(EffectView::Launch(Widget::Counter))),
        BinEnum::Timer(_) => (s, Ok(EffectView::Launch(Widget::Timer))),
        BinEnum::Json(_) => (s, Ok(EffectView::Launch(Widget::Json))),
    }
}

impl BinEnum {
    /// The command registered under `command`; `UnknownCommand` for any
    /// other name.
    pub fn create(command: &str) -> (r: Result<BinEnum, CommandError>)
        ensures
            match lookup(command@) {
                Some(b) => r == Ok::<BinEnum, CommandError>(b),
                None => r == Err::<BinEnum, CommandError>(CommandError::UnknownCommand),
            },
    {
        if text_is(command, "echo") {
            Ok(BinEnum::Echo(Echo::new()))
        } else if text_is(command, "pwd") {
            Ok(BinEnum::Pwd(Pwd::new()))
        } else if text_is(command, "ls") {
            Ok(BinEnum::Ls(Ls::new()))
        } else if text_is(command, "cat") {
            Ok(BinEnum::Cat(Cat::new()))
        } else if text_is(command, "cd") {
            Ok(BinEnum::Cd(Cd::new()))
        } else if text_is(command, "man") {
            Ok(BinEnum::Man(Man::new()))
        } else if text_is(command, "touch") {
            Ok(BinEnum::Touch(Touch::new()))
        } else if text_is(command, "todo") {
            Ok(BinEnum::Todo(Todo::new()))
        } else if text_is(command, "counter") {
            Ok(BinEnum::Counter(Counter::new()))
        } else if text_is(command, "timer") {
            Ok(BinEnum::Timer(Timer::new()))
        } else if text_is(command, "json") {
            Ok(BinEnum::Json(Json::new()))
        } else {
            Err(CommandError::UnknownCommand)
        }
    }
}

impl Runnable for BinEnum {
    fn run(&mut self, session: &mut CMD) -> (r: Result<Effect, CommandError>)
        ensures
            (final(session)@, effect_result(r)) == command_spec(*old(self), old(session)@),
    {
        match self {
            BinEnum::Cat(c) => c.run(session),
            BinEnum::Cd(c) => c.run(session),
            BinEnum::Echo(c) => c.run(session),
            BinEnum::Ls(c) => c.run(session),
            BinEnum::Man(c) => c.run(session),
            BinEnum::Pwd(c) => c.run(session),
            BinEnum::Touch(c) => c.run(session),
            BinEnum::Todo(c) => c.run(session),
            BinEnum::Counter(c) => c.run(session),
            BinEnum::Timer(c) => c.run(session),
            BinEnum::Json(c) => c.run(session),
        }
    }
}

/// What one interpreter step did with the current line.
#[derive(Debug, Clone, PartialEq, Eq)]
pub enum Outcome {
    /// The line held no token: nothing was dispatched.
    Idle,
    /// `exit` or `quit`: the caller ends the process with status 0.
    Exit,
    /// The command ran; this outside work is left.
    Ran(Effect),
    /// The line failed; the session is as the command left it.
    Failed(CommandError),
}

/// An outcome, as mathematical values.
pub enum OutcomeView {
    Idle,
    Exit,
    Ran(EffectView),
    Failed(CommandError),
}

impl View for Outcome {
    type V = OutcomeView;

    open spec fn view(&self) -> OutcomeView {
        match self {
            Outcome::Idle => OutcomeView::Idle,
            Outcome::Exit => OutcomeView::Exit,
            Outcome::Ran(e) => OutcomeView::Ran(e@),
            Outcome::Failed(x) => OutcomeView::Failed(*x),
        }
    }
}

/// Whether `name` ends the interpreter before any lookup.
pub open spec fn is_exit_word(name: Seq<char>) -> bool {
    name == "exit"@ || name == "quit"@
}

/// One step of the interpreter on the current line: nothing on an empty
/// line; `Exit` on `exit` or `quit`; `UnknownCommand` for a name outside the
/// registry; otherwise what the command does.
pub open spec fn step_spec(s: SessionView) -> (SessionView, OutcomeView) {
    if s.tokens.len() == 0 {
        (s, OutcomeView::Idle)
    } else if is_exit_word(s.tokens[0]) {
        (s, OutcomeView::Exit)
    } else {
        match lookup(s.tokens[0]) {
            None => (s, OutcomeView::Failed(CommandError::UnknownCommand)),
            Some(b) => (
                command_spec(b, s).0,
                match command_spec(b, s).1 {
                    Ok(e) => OutcomeView::Ran(e),
                    Err(x) => OutcomeView::Failed(x),
                },
            ),
        }
    }
}

impl CMD {
    /// Dispatches the current line: see `step_spec`.
    pub fn run_binary(&mut self) -> (r: Outcome)
        ensures
            (final(self)@, r@) == step_spec(old(self)@),
    {
        if self.empty() {
            return Outcome::Idle;
        }
        let exit = text_is(self.get_first_token(), "exit") || text_is(self.get_first_token(), "quit");
        if exit {
            return Outcome::Exit;
        }
        match BinEnum::create(self.get_first_token()) {
            Err(x) => Outcome::Failed(x),
            Ok(b) => {
                let mut bin = b;
                match bin.run(self) {
                    Ok(e) => Outcome::Ran(e),
                    Err(x) => Outcome::Failed(x),
                }
            },
        }
    }
}

/// A line of whitespace only leaves no token after preprocessing, and the
/// interpreter step on it dispatches nothing and changes nothing.
pub proof fn lemma_blank_line_is_idle(s: SessionView, line: Seq<char>)
    requires
        forall|i: int| 0 <= i < line.len() ==> is_space(#[trigger] line[i]),
    ensures
        preprocess_spec(s, line).tokens.len() == 0,
        step_spec(preprocess_spec(s, line)) == (preprocess_spec(s, line), OutcomeView::Idle),
{
    lemma_strip_is_suffix(line);
    let k = choose|k: int| 0 <= k <= line.len() && strip_spaces(line) == line.skip(k);
    let rest = strip_spaces(line);
    assert forall|i: int| 0 <= i < rest.len() implies is_space(#[trigger] rest[i]) by {
        assert(rest[i] == line[i + k]);
    }
    lemma_blank_has_no_words(rest);
}

/// A line whose command name is neither registered nor `exit`/`quit` fails
/// with `UnknownCommand` and leaves the session exactly as it was.
pub proof fn lemma_unknown_command_changes_nothing(s: SessionView)
    requires
        s.tokens.len() > 0,
        !is_exit_word(s.tokens[0]),
        lookup(s.tokens[0]) is None,
    ensures
        step_spec(s) == (s, OutcomeView::Failed(CommandError::UnknownCommand)),
{
}

} // verus!
