//! The builtin commands. Each decides what a line asks for and hands the
//! outside work (printing, reading files, looking paths up) to its caller.
use vstd::prelude::*;
use crate::command::{
    effect_result, path_views, ArgError, CommandError, Effect, EffectView, Runnable, TodoAction,
    TodoView, Tone, Widget,
};
use crate::nav::{is_plain_name, lemma_round_trip, resolve, resolve_spec, verdict, verdict_spec, Lookup, NavError};
use crate::number::{parse_decimal, parse_spec};
use crate::path::{display, join, parent, AbsPath};
use crate::session::{strip_leading_spaces, strip_spaces, SessionView, CMD};
use crate::text::{chars_of, lemma_views_push, string_of, suffix, text_is, views};

verus! {

/// The overview page of `man`.
pub const MAN_OVERVIEW: &'static str = "For more detailed manual for each command, type 'man <command name>'\n\necho: repeats input\ncat: concatenate files\nls: list directories\nfind: locate files or directories\ngrep: matches text in files\n\n";

/// The page of `man` for a documented command.
pub const MAN_DETAIL: &'static str = "for what\n";

/// What `todo` prints without a subcommand.
pub const TODO_USAGE: &'static str = "No command entered, see 'man todo' for more detailed information\n";

/// What `echo` prints: the line after its first four characters (the
/// command name), without the spaces that follow them.
pub open spec fn echo_text(chars: Seq<char>) -> Seq<char> {
    if chars.len() <= 4 {
        Seq::empty()
    } else {
        strip_spaces(chars.skip(4))
    }
}

/// `echo`: with at least one argument, prints the rest of the line in green.
pub open spec fn echo_spec(s: SessionView) -> Result<EffectView, CommandError> {
    if s.tokens.len() >= 2 {
        Ok(EffectView::Print(echo_text(s.chars), Tone::Green))
    } else {
        Ok(EffectView::Done)
    }
}

/// `pwd`: prints the current directory and a newline, in cyan.
pub open spec fn pwd_spec(s: SessionView) -> Result<EffectView, CommandError> {
    Ok(EffectView::Print(display(s.cur).push('\n'), Tone::Cyan))
}

/// `cat`: reads each argument, taken relative to the current directory.
pub open spec fn cat_spec(s: SessionView) -> Result<EffectView, CommandError> {
    if s.tokens.len() <= 1 {
        Ok(EffectView::Read(Seq::empty()))
    } else {
        Ok(EffectView::Read(Seq::new((s.tokens.len() - 1) as nat, |i: int| join(s.cur, s.tokens[i + 1]))))
    }
}

/// `ls`: lists the current directory, or the one argument taken relative to
/// it; more than one argument is refused.
pub open spec fn ls_spec(s: SessionView) -> Result<EffectView, CommandError> {
    if s.tokens.len() > 2 {
        Err(CommandError::Argument(ArgError::TooManyArguments))
    } else if s.tokens.len() == 2 {
        Ok(EffectView::List(join(s.cur, s.tokens[1])))
    } else {
        Ok(EffectView::List(s.cur))
    }
}

/// The commands that `man` has a page for.
pub open spec fn documented(name: Seq<char>) -> bool {
    name == "echo"@ || name == "pwd"@ || name == "cd"@ || name == "ls"@ || name == "find"@ || name
        == "grep"@ || name == "cat"@ || name == "exit"@ || name == "quit"@ || name == "man"@
}

/// `man`: the overview without argument, a command's page with one.
pub open spec fn man_spec(s: SessionView) -> Result<EffectView, CommandError> {
    if s.tokens.len() <= 1 {
        Ok(EffectView::Print(MAN_OVERVIEW@, Tone::Plain))
    } else if s.tokens.len() == 2 {
        if documented(s.tokens[1]) {
            Ok(EffectView::Print(MAN_DETAIL@, Tone::Plain))
        } else {
            Err(CommandError::Argument(ArgError::UnknownTopic))
        }
    } else {
        Err(CommandError::Argument(ArgError::TooManyArguments))
    }
}

/// `touch`: creates the file its first argument names, taken relative to the
/// current directory. `.` and `..` do nothing; a name ending in `/` is
/// refused; so is a target without a parent.
pub open spec fn touch_spec(s: SessionView) -> Result<EffectView, CommandError> {
    if s.tokens.len() <= 1 {
        Err(CommandError::Argument(ArgError::MissingOperand))
    } else {
        let d = s.tokens[1];
        if d.len() > 0 && d.last() == '/' {
            Err(CommandError::Argument(ArgError::DirectoryOperand))
        } else if d == seq!['.'] || d == seq!['.', '.'] {
            Ok(EffectView::Done)
        } else {
            match parent(join(s.cur, d)) {
                Some(p) => Ok(EffectView::Create(join(s.cur, d), p)),
                None => Err(CommandError::Navigation(NavError::NoParent)),
            }
        }
    }
}

/// The ids that the texts `ts` write, when each is an unsigned integer.
pub open spec fn parse_ids(ts: Seq<Seq<char>>) -> Option<Seq<u64>>
    decreases ts.len(),
{
    if ts.len() == 0 {
        Some(Seq::empty())
    } else {
        match (parse_ids(ts.drop_last()), parse_spec(ts.last(), u64::MAX as nat)) {
            (Some(ids), Some(v)) => Some(ids.push(v as u64)),
            _ => None,
        }
    }
}

/// `todo`: `add`/`insert` names, `get`/`list`, `do`/`undo` ids.
pub open spec fn todo_spec(s: SessionView) -> Result<EffectView, CommandError> {
    let t = s.tokens;
    if t.len() <= 1 {
        Ok(EffectView::Print(TODO_USAGE@, Tone::Plain))
    } else if t[1] == "add"@ || t[1] == "insert"@ {
        if t.len() == 2 {
            Err(CommandError::Argument(ArgError::NoTasks))
        } else {
            Ok(EffectView::Tasks(TodoView::Add(t.skip(2))))
        }
    } else if t[1] == "get"@ || t[1] == "list"@ {
        Ok(EffectView::Tasks(TodoView::List))
    } else if t[1] == "do"@ || t[1] == "undo"@ {
        if t.len() == 2 {
            Err(CommandError::Argument(ArgError::NoTaskIds))
        } else {
            match parse_ids(t.skip(2)) {
                None => Err(CommandError::Argument(ArgError::InvalidTaskId)),
                Some(ids) => Ok(
                    EffectView::Tasks(
                        if t[1] == "do"@ {
                            TodoView::Done(ids)
                        } else {
                            TodoView::Undone(ids)
                        },
                    ),
                ),
            }
        }
    } else {
        Err(CommandError::Argument(ArgError::UnknownTodoCommand))
    }
}

/// Whether a destination moves the session without a lookup.
pub open spec fn is_dot_or_dot_dot(d: Seq<char>) -> bool {
    d == seq!['.'] || d == seq!['.', '.']
}

/// `cd`: the current directory afterwards, and the result. Without argument
/// nothing happens; with two or more it is refused. `.` and `..` move at
/// once; any other destination is resolved and left to be looked up.
pub open spec fn cd_spec(s: SessionView) -> (Seq<Seq<char>>, Result<EffectView, CommandError>) {
    if s.tokens.len() > 2 {
        (s.cur, Err(CommandError::Argument(ArgError::TooManyArguments)))
    } else if s.tokens.len() == 2 {
        match resolve_spec(s.cur, s.tokens[1]) {
            Err(e) => (s.cur, Err(CommandError::Navigation(e))),
            Ok(c) => if is_dot_or_dot_dot(s.tokens[1]) {
                (c, Ok(EffectView::Done))
            } else {
                (s.cur, Ok(EffectView::Probe(c)))
            },
        }
    } else {
        (s.cur, Ok(EffectView::Done))
    }
}

/// A prefix of the texts that fails to parse makes the whole fail.
proof fn lemma_parse_ids_prefix(ts: Seq<Seq<char>>, k: int)
    requires
        0 <= k <= ts.len(),
        parse_ids(ts.take(k)) is None,
    ensures
        parse_ids(ts) is None,
    decreases ts.len() - k,
{
    if k < ts.len() {
        assert(ts.take(k + 1).drop_last() =~= ts.take(k));
        lemma_parse_ids_prefix(ts, k + 1);
    } else {
        assert(ts.take(k) =~= ts);
    }
}

/// Prints the file contents of its arguments.
#[derive(Debug, Clone, Copy, PartialEq, Eq)]
pub struct Cat {}

/// Changes the current directory.
#[derive(Debug, Clone, Copy, PartialEq, Eq)]
pub struct Cd {}

/// Prints the rest of the line.
#[derive(Debug, Clone, Copy, PartialEq, Eq)]
pub struct Echo {}

/// Lists a directory.
#[derive(Debug, Clone, Copy, PartialEq, Eq)]
pub struct Ls {}

/// Shows the manual.
#[derive(Debug, Clone, Copy, PartialEq, Eq)]
pub struct Man {}

/// Prints the current directory.
#[derive(Debug, Clone, Copy, PartialEq, Eq)]
pub struct Pwd {}

/// Creates an empty file.
#[derive(Debug, Clone, Copy, PartialEq, Eq)]
pub struct Touch {}

/// Works on the task list.
#[derive(Debug, Clone, Copy, PartialEq, Eq)]
pub struct Todo {}

/// Opens the counter front-end.
#[derive(Debug, Clone, Copy, PartialEq, Eq)]
pub struct Counter {}

/// Opens the timer front-end.
#[derive(Debug, Clone, Copy, PartialEq, Eq)]
pub struct Timer {}

/// Opens the key/value editor front-end.
#[derive(Debug, Clone, Copy, PartialEq, Eq)]
pub struct Json {}

impl Cat {
    pub fn new() -> Cat {
        Cat {}
    }
}

impl Cd {
    pub fn new() -> Cd {
        Cd {}
    }
}

impl Echo {
    pub fn new() -> Echo {
        Echo {}
    }
}

impl Ls {
    pub fn new() -> Ls {
        Ls {}
    }
}

impl Man {
    pub fn new() -> Man {
        Man {}
    }
}

impl Pwd {
    pub fn new() -> Pwd {
        Pwd {}
    }
}

impl Touch {
    pub fn new() -> Touch {
        Touch {}
    }
}

impl Todo {
    pub fn new() -> Todo {
        Todo {}
    }
}

impl Counter {
    pub fn new() -> Counter {
        Counter {}
    }
}

impl Timer {
    pub fn new() -> Timer {
        Timer {}
    }
}

impl Json {
    pub fn new() -> Json {
        Json {}
    }
}

impl Runnable for Cat {
    fn run(&mut self, session: &mut CMD) -> (r: Result<Effect, CommandError>)
        ensures
            final(session)@ == old(session)@,
            effect_result(r) == cat_spec(old(session)@),
    {
        let n = session.get_tokens_length();
        let ghost s = session@;
        let mut paths: Vec<AbsPath> = Vec::new();
        let mut i: usize = 1;
        while i < n
            invariant
                session@ == s,
                n == s.tokens.len(),
                1 <= i,
                n >= 1 ==> i <= n,
                n >= 1 ==> path_views(paths@) == Seq::new((i - 1) as nat, |k: int| join(s.cur, s.tokens[k + 1])),
                n < 1 ==> paths@.len() == 0,
            decreases n - i,
        {
            let p = session.get_current_dir_path().join(session.get_token(i));
            let ghost before = paths@;
            paths.push(p);
            assert(path_views(paths@) =~= path_views(before).push(p@));
            assert(Seq::new(i as nat, |k: int| join(s.cur, s.tokens[k + 1])) =~= Seq::new(
                (i - 1) as nat,
                |k: int| join(s.cur, s.tokens[k + 1]),
            ).push(join(s.cur, s.tokens[i as int])));
            i = i + 1;
        }
        assert(n <= 1 ==> path_views(paths@) =~= Seq::empty());
        Ok(Effect::Read(paths))
    }
}

impl Runnable for Cd {
    fn run(&mut self, session: &mut CMD) -> (r: Result<Effect, CommandError>)
        ensures
            final(session)@ == (SessionView { cur: cd_spec(old(session)@).0, ..old(session)@ }),
            effect_result(r) == cd_spec(old(session)@).1,
    {
        let n = session.get_tokens_length();
        if n > 2 {
            return Err(CommandError::Argument(ArgError::TooManyArguments));
        }
        if n < 2 {
            return Ok(Effect::Done);
        }
        let dest = session.get_token(1);
        let direct = text_is(dest, ".") || text_is(dest, "..");
        proof {
            reveal_strlit(".");
            reveal_strlit("..");
            assert(".."@ =~= seq!['.', '.']);
            assert("."@ =~= seq!['.']);
        }
        match resolve(session.get_current_dir_path(), dest) {
            Err(e) => Err(CommandError::Navigation(e)),
            Ok(c) => {
                if direct {
                    session.set_current_dir_path(c);
                    Ok(Effect::Done)
                } else {
                    Ok(Effect::Probe(c))
                }
            },
        }
    }
}

impl CMD {
    /// Finishes a change of directory once `candidate` has been looked up:
    /// the session moves there when it is a directory, and stays otherwise.
    pub fn change_dir(&mut self, candidate: AbsPath, found: Lookup) -> (r: Result<(), NavError>)
        ensures
            match verdict_spec(candidate@, found) {
                Ok(p) => r is Ok && final(self)@ == (SessionView { cur: p, ..old(self)@ }),
                Err(e) => r == Err::<(), NavError>(e) && final(self)@ == old(self)@,
            },
    {
        match verdict(candidate, found) {
            Ok(p) => {
                self.set_current_dir_path(p);
                Ok(())
            },
            Err(e) => Err(e),
        }
    }
}

impl Runnable for Echo {
    fn run(&mut self, session: &mut CMD) -> (r: Result<Effect, CommandError>)
        ensures
            final(session)@ == old(session)@,
            effect_result(r) == echo_spec(old(session)@),
    {
        if session.get_tokens_length() < 2 {
            return Ok(Effect::Done);
        }
        let chars = session.get_chars();
        if chars.len() <= 4 {
            let empty: Vec<char> = Vec::new();
            return Ok(Effect::Print(string_of(empty.as_slice()), Tone::Green));
        }
        let rest = suffix(chars.as_slice(), 4);
        let text = strip_leading_spaces(rest.as_slice());
        Ok(Effect::Print(string_of(text.as_slice()), Tone::Green))
    }
}

impl Runnable for Ls {
    fn run(&mut self, session: &mut CMD) -> (r: Result<Effect, CommandError>)
        ensures
            final(session)@ == old(session)@,
            effect_result(r) == ls_spec(old(session)@),
    {
        let n = session.get_tokens_length();
        if n > 2 {
            Err(CommandError::Argument(ArgError::TooManyArguments))
        } else if n == 2 {
            Ok(Effect::List(session.get_current_dir_path().join(session.get_token(1))))
        } else {
            Ok(Effect::List(session.get_current_dir_path().duplicate()))
        }
    }
}

/// Whether `man` has a page for `name`.
fn is_documented(name: &str) -> (r: bool)
    ensures
        r == documented(name@),
{
    text_is(name, "echo") || text_is(name, "pwd") || text_is(name, "cd") || text_is(name, "ls")
        || text_is(name, "find") || text_is(name, "grep") || text_is(name, "cat") || text_is(
        name,
        "exit",
    ) || text_is(name, "quit") || text_is(name, "man")
}

impl Runnable for Man {
    fn run(&mut self, session: &mut CMD) -> (r: Result<Effect, CommandError>)
        ensures
            final(session)@ == old(session)@,
            effect_result(r) == man_spec(old(session)@),
    {
        let n = session.get_tokens_length();
        if n <= 1 {
            Ok(Effect::Print(String::from_str(MAN_OVERVIEW), Tone::Plain))
        } else if n == 2 {
            if is_documented(session.get_token(1)) {
                Ok(Effect::Print(String::from_str(MAN_DETAIL), Tone::Plain))
            } else {
                Err(CommandError::Argument(ArgError::UnknownTopic))
            }
        } else {
            Err(CommandError::Argument(ArgError::TooManyArguments))
        }
    }
}

impl Runnable for Pwd {
    fn run(&mut self, session: &mut CMD) -> (r: Result<Effect, CommandError>)
        ensures
            final(session)@ == old(session)@,
            effect_result(r) == pwd_spec(old(session)@),
    {
        let shown = session.get_current_dir_path().to_string();
        let mut cs = chars_of(shown.as_str());
        cs.push('\n');
        Ok(Effect::Print(string_of(cs.as_slice()), Tone::Cyan))
    }
}

impl Runnable for Touch {
    fn run(&mut self, session: &mut CMD) -> (r: Result<Effect, CommandError>)
        ensures
            final(session)@ == old(session)@,
            effect_result(r) == touch_spec(old(session)@),
    {
        if session.get_tokens_length() <= 1 {
            return Err(CommandError::Argument(ArgError::MissingOperand));
        }
        let name = session.get_token(1);
        let cs = chars_of(name);
        if cs.len() > 0 && cs[cs.len() - 1] == '/' {
            return Err(CommandError::Argument(ArgError::DirectoryOperand));
        }
        proof {
            reveal_strlit(".");
            reveal_strlit("..");
            assert(".."@ =~= seq!['.', '.']);
            assert("."@ =~= seq!['.']);
        }
        if text_is(name, ".") || text_is(name, "..") {
            return Ok(Effect::Done);
        }
        let target = session.get_current_dir_path().join(name);
        match target.parent() {
            Some(p) => Ok(Effect::Create(target, p)),
            None => Err(CommandError::Navigation(NavError::NoParent)),
        }
    }
}

/// Reads the task ids among `session`'s tokens from index 2 on.
fn read_ids(session: &CMD) -> (r: Option<Vec<u64>>)
    requires
        session@.tokens.len() >= 2,
    ensures
        match parse_ids(session@.tokens.skip(2)) {
            Some(ids) => r matches Some(v) && v@ == ids,
            None => r is None,
        },
{
    let n = session.get_tokens_length();
    let ghost t = session@.tokens;
    let mut ids: Vec<u64> = Vec::new();
    let mut i: usize = 2;
    while i < n
        invariant
            n == t.len(),
            t == session@.tokens,
            2 <= i <= n,
            parse_ids(t.subrange(2, i as int)) == Some(ids@),
        decreases n - i,
    {
        let cs = chars_of(session.get_token(i));
        let v = parse_decimal(cs.as_slice(), u64::MAX);
        assert(t.subrange(2, i + 1).drop_last() =~= t.subrange(2, i as int));
        assert(t.subrange(2, i + 1).last() == t[i as int]);
        match v {
            None => {
                assert(t.skip(2).take(i + 1 - 2) =~= t.subrange(2, i + 1));
                proof {
                    lemma_parse_ids_prefix(t.skip(2), i + 1 - 2);
                }
                return None;
            },
            Some(x) => {
                ids.push(x);
            },
        }
        i = i + 1;
    }
    assert(t.subrange(2, n as int) =~= t.skip(2));
    Some(ids)
}

impl Runnable for Todo {
    fn run(&mut self, session: &mut CMD) -> (r: Result<Effect, CommandError>)
        ensures
            final(session)@ == old(session)@,
            effect_result(r) == todo_spec(old(session)@),
    {
        let n = session.get_tokens_length();
        if n <= 1 {
            return Ok(Effect::Print(String::from_str(TODO_USAGE), Tone::Plain));
        }
        let sub = session.get_token(1);
        if text_is(sub, "add") || text_is(sub, "insert") {
            if n == 2 {
                return Err(CommandError::Argument(ArgError::NoTasks));
            }
            let ghost t = session@.tokens;
            let mut names: Vec<String> = Vec::new();
            let mut i: usize = 2;
            while i < n
                invariant
                    n == t.len(),
                    t == session@.tokens,
                    2 <= i <= n,
                    views(names@) == t.subrange(2, i as int),
                decreases n - i,
            {
                let name = String::from_str(session.get_token(i));
                proof {
                    lemma_views_push(names@, name);
                }
                names.push(name);
                assert(t.subrange(2, i + 1) =~= t.subrange(2, i as int).push(t[i as int]));
                i = i + 1;
            }
            assert(t.subrange(2, n as int) =~= t.skip(2));
            return Ok(Effect::Tasks(TodoAction::Add(names)));
        }
        if text_is(sub, "get") || text_is(sub, "list") {
            return Ok(Effect::Tasks(TodoAction::List));
        }
        let done = text_is(sub, "do");
        if done || text_is(sub, "undo") {
            if n == 2 {
                return Err(CommandError::Argument(ArgError::NoTaskIds));
            }
            return match read_ids(session) {
                None => Err(CommandError::Argument(ArgError::InvalidTaskId)),
                Some(ids) => if done {
                    Ok(Effect::Tasks(TodoAction::Done(ids)))
                } else {
                    Ok(Effect::Tasks(TodoAction::Undone(ids)))
                },
            };
        }
        Err(CommandError::Argument(ArgError::UnknownTodoCommand))
    }
}

impl Runnable for Counter {
    fn run(&mut self, session: &mut CMD) -> (r: Result<Effect, CommandError>)
        ensures
            final(session)@ == old(session)@,
            effect_result(r) == Ok::<EffectView, CommandError>(EffectView::Launch(Widget::Counter)),
    {
        Ok(Effect::Launch(Widget::Counter))
    }
}

impl Runnable for Timer {
    fn run(&mut self, session: &mut CMD) -> (r: Result<Effect, CommandError>)
        ensures
            final(session)@ == old(session)@,
            effect_result(r) == Ok::<EffectView, CommandError>(EffectView::Launch(Widget::Timer)),
    {
        Ok(Effect::Launch(Widget::Timer))
    }
}

impl Runnable for Json {
    fn run(&mut self, session: &mut CMD) -> (r: Result<Effect, CommandError>)
        ensures
            final(session)@ == old(session)@,
            effect_result(r) == Ok::<EffectView, CommandError>(EffectView::Launch(Widget::Json)),
    {
        Ok(Effect::Launch(Widget::Json))
    }
}

/// `cd name` into a subdirectory that the lookup finds, followed by `cd ..`,
/// brings the session back to the directory it started from.
pub proof fn lemma_cd_round_trip(s: SessionView, name: Seq<char>, back: SessionView)
    requires
        s.tokens.len() == 2,
        s.tokens[1] == name,
        is_plain_name(name),
        back.tokens.len() == 2,
        back.tokens[1] == seq!['.', '.'],
        back.cur == s.cur.push(name),
    ensures
        cd_spec(s) == (s.cur, Ok::<EffectView, CommandError>(EffectView::Probe(s.cur.push(name)))),
        verdict_spec(s.cur.push(name), Lookup::Directory) == Ok::<Seq<Seq<char>>, NavError>(
            s.cur.push(name),
        ),
        cd_spec(back) == (s.cur, Ok::<EffectView, CommandError>(EffectView::Done)),
{
    lemma_round_trip(s.cur, name);
}

} // verus!
