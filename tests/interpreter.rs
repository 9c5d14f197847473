use cli_shell::builtins::{MAN_DETAIL, MAN_OVERVIEW, TODO_USAGE};
use cli_shell::command::{ArgError, BinEnum, CommandError, Effect, Outcome, TodoAction, Tone, Widget};
use cli_shell::nav::{resolve, verdict, Lookup, NavError};
use cli_shell::number::parse_decimal;
use cli_shell::path::AbsPath;
use cli_shell::prompt::header_segments;
use cli_shell::session::CMD;
use cli_shell::text::split_words;

fn path(s: &str) -> AbsPath {
    AbsPath::parse(s).unwrap()
}

fn session_at(cur: &str, line: &str) -> CMD {
    let mut cmd = CMD::new(path(cur));
    cmd.preprocess(line);
    cmd
}

fn tokens(cmd: &CMD) -> Vec<String> {
    (0..cmd.get_tokens_length()).map(|i| cmd.get_token(i).to_string()).collect()
}

#[test]
fn blank_line_has_no_tokens_and_dispatches_nothing() {
    let mut cmd = session_at("/home/u", "   \t  \n");
    assert!(cmd.empty());
    assert_eq!(cmd.get_tokens_length(), 0);
    assert_eq!(cmd.run_binary(), Outcome::Idle);
    assert_eq!(cmd.get_current_dir_path().to_string(), "/home/u");
}

#[test]
fn preprocess_strips_leading_spaces_and_splits_on_whitespace() {
    let cmd = session_at("/", "   echo  a\tb \n");
    assert_eq!(cmd.get_raw_command(), "echo  a\tb \n");
    assert_eq!(tokens(&cmd), vec!["echo", "a", "b"]);
    assert_eq!(cmd.get_first_token(), "echo");
    let chars: String = cmd.get_chars().iter().collect();
    assert_eq!(chars, "echo  a\tb \n");
}

#[test]
fn split_words_collapses_runs_of_whitespace() {
    let cs: Vec<char> = "\u{3000}x  yz\n\n w".chars().collect();
    assert_eq!(split_words(&cs), vec!["x", "yz", "w"]);
}

#[test]
fn dot_leaves_the_directory_unchanged() {
    assert_eq!(resolve(&path("/home/u"), "."), Ok(path("/home/u")));
    assert_eq!(resolve(&AbsPath::root(), "."), Ok(AbsPath::root()));
}

#[test]
fn dot_dot_fails_only_at_the_root() {
    assert_eq!(resolve(&AbsPath::root(), ".."), Err(NavError::NoParent));
    assert_eq!(resolve(&path("/home/u"), ".."), Ok(path("/home")));
    assert_eq!(resolve(&path("/home"), ".."), Ok(AbsPath::root()));
}

#[test]
fn plain_destination_is_joined_to_current_directory() {
    let cur = path("/home/u");
    assert_eq!(resolve(&cur, "proj/src"), Ok(cur.join("proj/src")));
    assert_eq!(resolve(&cur, "proj/src").unwrap().to_string(), "/home/u/proj/src");
    assert_eq!(resolve(&cur, ".hidden").unwrap().to_string(), "/home/u/.hidden");
}

#[test]
fn prefixed_destinations_follow_their_rules() {
    let cur = path("/home/u");
    assert_eq!(resolve(&cur, "/etc//x/").unwrap().to_string(), "/etc/x");
    assert_eq!(resolve(&cur, "./proj").unwrap().to_string(), "/home/u/proj");
    assert_eq!(resolve(&cur, "../v").unwrap().to_string(), "/home/v");
    assert_eq!(resolve(&AbsPath::root(), "../v"), Err(NavError::NoParent));
    assert_eq!(resolve(&cur, ".//tmp").unwrap().to_string(), "/tmp");
}

#[test]
fn subdirectory_then_parent_comes_back() {
    let cur = path("/home/u");
    let down = resolve(&cur, "proj").unwrap();
    assert_eq!(down.to_string(), "/home/u/proj");
    assert_eq!(resolve(&down, ".."), Ok(cur));
}

#[test]
fn unknown_command_changes_nothing() {
    let mut cmd = session_at("/home/u", "frobnicate x");
    let before = tokens(&cmd);
    assert_eq!(cmd.run_binary(), Outcome::Failed(CommandError::UnknownCommand));
    assert_eq!(cmd.get_current_dir_path().to_string(), "/home/u");
    assert_eq!(tokens(&cmd), before);
    assert_eq!(BinEnum::create("Echo"), Err(CommandError::UnknownCommand));
    assert_eq!(BinEnum::create("ech"), Err(CommandError::UnknownCommand));
}

#[test]
fn cd_into_existing_directory_moves() {
    let mut cmd = session_at("/home/u", "cd ./proj");
    let target = match cmd.run_binary() {
        Outcome::Ran(Effect::Probe(p)) => p,
        other => panic!("unexpected {:?}", other),
    };
    assert_eq!(target.to_string(), "/home/u/proj");
    assert_eq!(cmd.change_dir(target, Lookup::Directory), Ok(()));
    assert_eq!(cmd.get_current_dir_path().to_string(), "/home/u/proj");
}

#[test]
fn cd_into_missing_path_reports_not_found() {
    let mut cmd = session_at("/home/u", "cd ./missing");
    let target = match cmd.run_binary() {
        Outcome::Ran(Effect::Probe(p)) => p,
        other => panic!("unexpected {:?}", other),
    };
    assert_eq!(cmd.change_dir(target, Lookup::Missing), Err(NavError::NotFound));
    assert_eq!(cmd.get_current_dir_path().to_string(), "/home/u");
}

#[test]
fn cd_onto_a_file_is_refused() {
    let mut cmd = session_at("/home/u", "cd notes.txt");
    let target = match cmd.run_binary() {
        Outcome::Ran(Effect::Probe(p)) => p,
        other => panic!("unexpected {:?}", other),
    };
    assert_eq!(cmd.change_dir(target.clone(), Lookup::File), Err(NavError::NotADirectory));
    assert_eq!(cmd.change_dir(target, Lookup::Other), Err(NavError::NotADirectory));
    assert_eq!(cmd.get_current_dir_path().to_string(), "/home/u");
    assert_eq!(verdict(path("/a"), Lookup::Directory), Ok(path("/a")));
}

#[test]
fn cd_with_two_arguments_is_refused() {
    let mut cmd = session_at("/home/u", "cd a b");
    assert_eq!(
        cmd.run_binary(),
        Outcome::Failed(CommandError::Argument(ArgError::TooManyArguments))
    );
    assert_eq!(cmd.get_current_dir_path().to_string(), "/home/u");
}

#[test]
fn cd_dot_dot_and_bare_cd() {
    let mut cmd = session_at("/home/u", "cd ..");
    assert_eq!(cmd.run_binary(), Outcome::Ran(Effect::Done));
    assert_eq!(cmd.get_current_dir_path().to_string(), "/home");
    cmd.preprocess("cd");
    assert_eq!(cmd.run_binary(), Outcome::Ran(Effect::Done));
    assert_eq!(cmd.get_current_dir_path().to_string(), "/home");
    let mut top = session_at("/", "cd ..");
    assert_eq!(top.run_binary(), Outcome::Failed(CommandError::Navigation(NavError::NoParent)));
}

#[test]
fn exit_and_quit_end_the_loop() {
    assert_eq!(session_at("/", "exit").run_binary(), Outcome::Exit);
    assert_eq!(session_at("/", "  quit now").run_binary(), Outcome::Exit);
}

#[test]
fn echo_prints_the_rest_of_the_line() {
    let mut cmd = session_at("/", "echo   hello  world\n");
    assert_eq!(
        cmd.run_binary(),
        Outcome::Ran(Effect::Print("hello  world\n".to_string(), Tone::Green))
    );
    assert_eq!(session_at("/", "echo").run_binary(), Outcome::Ran(Effect::Done));
}

#[test]
fn pwd_prints_the_current_directory() {
    assert_eq!(
        session_at("/home/u", "pwd").run_binary(),
        Outcome::Ran(Effect::Print("/home/u\n".to_string(), Tone::Cyan))
    );
    assert_eq!(
        session_at("/", "pwd").run_binary(),
        Outcome::Ran(Effect::Print("/\n".to_string(), Tone::Cyan))
    );
}

#[test]
fn cat_reads_each_argument_in_order() {
    assert_eq!(
        session_at("/d", "cat a /b/c").run_binary(),
        Outcome::Ran(Effect::Read(vec![path("/d/a"), path("/b/c")]))
    );
    assert_eq!(session_at("/d", "cat").run_binary(), Outcome::Ran(Effect::Read(vec![])));
}

#[test]
fn ls_lists_one_directory() {
    assert_eq!(session_at("/d", "ls").run_binary(), Outcome::Ran(Effect::List(path("/d"))));
    assert_eq!(session_at("/d", "ls x").run_binary(), Outcome::Ran(Effect::List(path("/d/x"))));
    assert_eq!(
        session_at("/d", "ls x y").run_binary(),
        Outcome::Failed(CommandError::Argument(ArgError::TooManyArguments))
    );
}

#[test]
fn man_pages() {
    assert_eq!(
        session_at("/", "man").run_binary(),
        Outcome::Ran(Effect::Print(MAN_OVERVIEW.to_string(), Tone::Plain))
    );
    assert_eq!(
        session_at("/", "man grep").run_binary(),
        Outcome::Ran(Effect::Print(MAN_DETAIL.to_string(), Tone::Plain))
    );
    assert_eq!(
        session_at("/", "man todo").run_binary(),
        Outcome::Failed(CommandError::Argument(ArgError::UnknownTopic))
    );
    assert_eq!(
        session_at("/", "man a b").run_binary(),
        Outcome::Failed(CommandError::Argument(ArgError::TooManyArguments))
    );
}

#[test]
fn touch_targets_and_refusals() {
    assert_eq!(
        session_at("/d", "touch f.txt").run_binary(),
        Outcome::Ran(Effect::Create(path("/d/f.txt"), path("/d")))
    );
    assert_eq!(
        session_at("/d", "touch /x/y").run_binary(),
        Outcome::Ran(Effect::Create(path("/x/y"), path("/x")))
    );
    assert_eq!(
        session_at("/d", "touch").run_binary(),
        Outcome::Failed(CommandError::Argument(ArgError::MissingOperand))
    );
    assert_eq!(
        session_at("/d", "touch dir/").run_binary(),
        Outcome::Failed(CommandError::Argument(ArgError::DirectoryOperand))
    );
    assert_eq!(session_at("/d", "touch ..").run_binary(), Outcome::Ran(Effect::Done));
    assert_eq!(
        session_at("/d", "touch /.").run_binary(),
        Outcome::Failed(CommandError::Navigation(NavError::NoParent))
    );
}

#[test]
fn todo_subcommands() {
    assert_eq!(
        session_at("/", "todo").run_binary(),
        Outcome::Ran(Effect::Print(TODO_USAGE.to_string(), Tone::Plain))
    );
    assert_eq!(
        session_at("/", "todo add milk eggs").run_binary(),
        Outcome::Ran(Effect::Tasks(TodoAction::Add(vec!["milk".to_string(), "eggs".to_string()])))
    );
    assert_eq!(
        session_at("/", "todo insert").run_binary(),
        Outcome::Failed(CommandError::Argument(ArgError::NoTasks))
    );
    assert_eq!(session_at("/", "todo list").run_binary(), Outcome::Ran(Effect::Tasks(TodoAction::List)));
    assert_eq!(
        session_at("/", "todo do 3 +4").run_binary(),
        Outcome::Ran(Effect::Tasks(TodoAction::Done(vec![3, 4])))
    );
    assert_eq!(
        session_at("/", "todo undo 18446744073709551615").run_binary(),
        Outcome::Ran(Effect::Tasks(TodoAction::Undone(vec![u64::MAX])))
    );
    assert_eq!(
        session_at("/", "todo do").run_binary(),
        Outcome::Failed(CommandError::Argument(ArgError::NoTaskIds))
    );
    assert_eq!(
        session_at("/", "todo do 1 x").run_binary(),
        Outcome::Failed(CommandError::Argument(ArgError::InvalidTaskId))
    );
    assert_eq!(
        session_at("/", "todo remove 1").run_binary(),
        Outcome::Failed(CommandError::Argument(ArgError::UnknownTodoCommand))
    );
}

#[test]
fn front_ends_are_launched() {
    assert_eq!(session_at("/", "counter").run_binary(), Outcome::Ran(Effect::Launch(Widget::Counter)));
    assert_eq!(session_at("/", "timer").run_binary(), Outcome::Ran(Effect::Launch(Widget::Timer)));
    assert_eq!(session_at("/", "json").run_binary(), Outcome::Ran(Effect::Launch(Widget::Json)));
}

#[test]
fn decimal_numbers() {
    let cs = |s: &str| s.chars().collect::<Vec<char>>();
    assert_eq!(parse_decimal(&cs("0"), u64::MAX), Some(0));
    assert_eq!(parse_decimal(&cs("+42"), u64::MAX), Some(42));
    assert_eq!(parse_decimal(&cs("18446744073709551615"), u64::MAX), Some(u64::MAX));
    assert_eq!(parse_decimal(&cs("18446744073709551616"), u64::MAX), None);
    assert_eq!(parse_decimal(&cs("4294967296"), u32::MAX as u64), None);
    assert_eq!(parse_decimal(&cs(""), u64::MAX), None);
    assert_eq!(parse_decimal(&cs("+"), u64::MAX), None);
    assert_eq!(parse_decimal(&cs("-1"), u64::MAX), None);
    assert_eq!(parse_decimal(&cs("1 2"), u64::MAX), None);
}

#[test]
fn paths_parse_and_display() {
    assert_eq!(AbsPath::parse("relative"), None);
    assert_eq!(AbsPath::parse("/a/./b//c/").unwrap().to_string(), "/a/b/c");
    assert_eq!(AbsPath::parse("/").unwrap(), AbsPath::root());
    assert!(AbsPath::root().is_root());
    assert_eq!(path("/a/b").parent(), Some(path("/a")));
    assert_eq!(AbsPath::root().parent(), None);
    assert_eq!(path("/a").join("/z").to_string(), "/z");
}

#[test]
fn prompt_segments() {
    let (time, place) = header_segments("2024-01-02 03:04:05", &path("/home/u"));
    assert_eq!(time, " 2024-01-02 03:04:05 ");
    assert_eq!(place, " /home/u$ ");
    let (time, place) = session_at("/", "x").header();
    assert!(time.starts_with(' ') && time.ends_with(' ') && time.len() >= 2);
    assert_eq!(place, " /$ ");
}
