use ash::command::{lookup_command, help_lines, Command};
use ash::datetime::{date_command, date_line, LocalTime};
use ash::error::{diagnostic_lines, ShellError};
use ash::grep::grep_matches;
use ash::handlers::{
    cat_check, cat_entry_check, cd_target, cp_args, echo_line, grep_args, ls_row, ls_target,
    mkdir_check, mv_args, require_exists, rm_action, rm_plan, touch_check, RmAction,
};
use ash::history::History;
use ash::repl::{loop_step, prompt_line, ReadOutcome, StepDecision};
use ash::text::{contains_str, dec_u64, str_eq};
use ash::tokenize::{parse_input, tokenize};
use ash::usage::get_command_usage;

fn strings(parts: &[&str]) -> Vec<String> {
    parts.iter().map(|s| s.to_string()).collect()
}

#[test]
fn tokenizer_splits_on_whitespace() {
    let (command, args) = parse_input("ls -l /tmp");
    assert_eq!(command, "ls");
    assert_eq!(args, strings(&["-l", "/tmp"]));
}

#[test]
fn tokenizer_ignores_extra_whitespace() {
    let (command, args) = parse_input("  grep\tfoo   file.txt \n");
    assert_eq!(command, "grep");
    assert_eq!(args, strings(&["foo", "file.txt"]));
}

#[test]
fn tokenizer_empty_line_yields_empty_command() {
    let (command, args) = parse_input("");
    assert_eq!(command, "");
    assert!(args.is_empty());
    let (command, args) = parse_input("   \t  ");
    assert_eq!(command, "");
    assert!(args.is_empty());
}

#[test]
fn tokenize_keeps_order() {
    assert_eq!(tokenize("a b  c"), strings(&["a", "b", "c"]));
    assert_eq!(tokenize(""), strings(&[]));
}

#[test]
fn echo_joins_with_single_spaces() {
    assert_eq!(echo_line(&strings(&["a", "b", "c"])), "a b c");
    assert_eq!(echo_line(&strings(&[])), "");
    assert_eq!(echo_line(&strings(&["one"])), "one");
}

#[test]
fn usage_table_is_keyed_by_command() {
    assert_eq!(get_command_usage("cd"), "cd [directory]");
    assert_eq!(get_command_usage("rm"), "rm <file> [-r for directories]");
    assert_eq!(get_command_usage("grep"), "grep <pattern> <file>");
    assert_eq!(get_command_usage("echo"), "");
    assert_eq!(get_command_usage("nonsense"), "");
}

#[test]
fn lookup_finds_every_command() {
    assert_eq!(lookup_command("exit").unwrap(), Some(Command::Exit));
    assert_eq!(lookup_command("cd").unwrap(), Some(Command::Cd));
    assert_eq!(lookup_command("help").unwrap(), Some(Command::Help));
    assert_eq!(lookup_command("ls").unwrap(), Some(Command::Ls));
    assert_eq!(lookup_command("cat").unwrap(), Some(Command::Cat));
    assert_eq!(lookup_command("mkdir").unwrap(), Some(Command::Mkdir));
    assert_eq!(lookup_command("touch").unwrap(), Some(Command::Touch));
    assert_eq!(lookup_command("rm").unwrap(), Some(Command::Rm));
    assert_eq!(lookup_command("cp").unwrap(), Some(Command::Cp));
    assert_eq!(lookup_command("mv").unwrap(), Some(Command::Mv));
    assert_eq!(lookup_command("grep").unwrap(), Some(Command::Grep));
    assert_eq!(lookup_command("pwd").unwrap(), Some(Command::Pwd));
    assert_eq!(lookup_command("echo").unwrap(), Some(Command::Echo));
    assert_eq!(lookup_command("date").unwrap(), Some(Command::Date));
    assert_eq!(lookup_command("history").unwrap(), Some(Command::History));
    assert_eq!(lookup_command("").unwrap(), None);
}

#[test]
fn unknown_command_is_reported_not_fatal() {
    let err = lookup_command("foobar").unwrap_err();
    match err {
        ShellError::CommandNotFound(name) => assert_eq!(name, "foobar"),
        _ => panic!("expected CommandNotFound"),
    }
    let lines = diagnostic_lines(&ShellError::CommandNotFound("foobar".to_string()), "foobar");
    assert_eq!(lines, strings(&["Command not found: foobar"]));
    // The loop decision for such a line is to run it, never to terminate.
    match loop_step(ReadOutcome::Line("foobar".to_string())) {
        StepDecision::Run { line, command, args } => {
            assert_eq!(line, "foobar");
            assert_eq!(command, "foobar");
            assert!(args.is_empty());
        }
        _ => panic!("expected Run"),
    }
}

#[test]
fn loop_skips_empty_lines_and_stops_only_at_end() {
    assert!(matches!(loop_step(ReadOutcome::Line(String::new())), StepDecision::Skip));
    match loop_step(ReadOutcome::Interrupted) {
        StepDecision::Notice { line, terminate } => {
            assert_eq!(line, "^C");
            assert!(!terminate);
        }
        _ => panic!("expected Notice"),
    }
    match loop_step(ReadOutcome::EndOfInput) {
        StepDecision::Notice { line, terminate } => {
            assert_eq!(line, "exit");
            assert!(terminate);
        }
        _ => panic!("expected Notice"),
    }
    match loop_step(ReadOutcome::Failed("broken pipe".to_string())) {
        StepDecision::Notice { line, terminate } => {
            assert_eq!(line, "Readline error: broken pipe");
            assert!(terminate);
        }
        _ => panic!("expected Notice"),
    }
}

#[test]
fn whitespace_only_line_is_recorded_but_dispatches_nothing() {
    match loop_step(ReadOutcome::Line("   ".to_string())) {
        StepDecision::Run { line, command, args } => {
            assert_eq!(line, "   ");
            assert_eq!(command, "");
            assert!(args.is_empty());
        }
        _ => panic!("expected Run"),
    }
}

#[test]
fn diagnostics_per_error_kind() {
    let lines = diagnostic_lines(&ShellError::FileNotFound("x".to_string()), "cd");
    assert_eq!(lines, strings(&["File not found: x", "Check the path and try again"]));

    let lines = diagnostic_lines(&ShellError::IsDirectory("d".to_string()), "cat");
    assert_eq!(lines, strings(&["Is a directory: d", "Did you mean to use a file instead?"]));

    let lines = diagnostic_lines(
        &ShellError::MissingArguments("source and destination".to_string()),
        "cp",
    );
    assert_eq!(
        lines,
        strings(&[
            "Missing required argument: source and destination",
            "Usage: cp <source> <destination>",
        ])
    );

    let lines = diagnostic_lines(
        &ShellError::InvalidArgument("Home directory not found".to_string()),
        "cd",
    );
    assert_eq!(
        lines,
        strings(&["Invalid argument: Home directory not found", "Usage: cd [directory]"])
    );

    let lines = diagnostic_lines(
        &ShellError::Io { message: "denied".to_string(), permission_denied: true },
        "rm",
    );
    assert_eq!(
        lines,
        strings(&["Error in rm: denied", "Try running with elevated privileges"])
    );

    let lines = diagnostic_lines(
        &ShellError::Io { message: "oops".to_string(), permission_denied: false },
        "ls",
    );
    assert_eq!(lines, strings(&["Error in ls: oops"]));
}

#[test]
fn rm_flag_is_never_a_target() {
    let plan = rm_plan(&strings(&["-r", "d"])).unwrap();
    assert_eq!(plan.targets, strings(&["d"]));
    assert!(plan.recursive);

    let plan = rm_plan(&strings(&["a", "-r", "b"])).unwrap();
    assert_eq!(plan.targets, strings(&["a", "b"]));
    assert!(plan.recursive);

    let plan = rm_plan(&strings(&["d"])).unwrap();
    assert_eq!(plan.targets, strings(&["d"]));
    assert!(!plan.recursive);
}

#[test]
fn rm_without_targets_is_missing_arguments() {
    match rm_plan(&strings(&[])) {
        Err(ShellError::MissingArguments(m)) => assert_eq!(m, "file or directory"),
        _ => panic!("expected MissingArguments"),
    }
    match rm_plan(&strings(&["-r"])) {
        Err(ShellError::MissingArguments(m)) => assert_eq!(m, "file or directory"),
        _ => panic!("expected MissingArguments"),
    }
}

#[test]
fn rm_picks_the_deletion_call() {
    assert_eq!(rm_action(false, false), RmAction::RemoveFile);
    assert_eq!(rm_action(false, true), RmAction::RemoveFile);
    assert_eq!(rm_action(true, false), RmAction::RemoveDir);
    assert_eq!(rm_action(true, true), RmAction::RemoveDirAll);
}

#[test]
fn cat_refuses_directories_before_reading() {
    match cat_check(&strings(&[])) {
        Err(ShellError::MissingArguments(m)) => assert_eq!(m, "file"),
        _ => panic!("expected MissingArguments"),
    }
    assert!(cat_check(&strings(&["f"])).is_ok());
    match cat_entry_check(&"d".to_string(), true) {
        Err(ShellError::IsDirectory(p)) => assert_eq!(p, "d"),
        _ => panic!("expected IsDirectory"),
    }
    assert!(cat_entry_check(&"f".to_string(), false).is_ok());
}

#[test]
fn mkdir_and_touch_require_names() {
    match mkdir_check(&strings(&[])) {
        Err(ShellError::MissingArguments(m)) => assert_eq!(m, "directory name"),
        _ => panic!("expected MissingArguments"),
    }
    assert!(mkdir_check(&strings(&["d"])).is_ok());
    match touch_check(&strings(&[])) {
        Err(ShellError::MissingArguments(m)) => assert_eq!(m, "file name"),
        _ => panic!("expected MissingArguments"),
    }
    assert!(touch_check(&strings(&["f"])).is_ok());
}

#[test]
fn copy_with_missing_source_fails_before_any_write() {
    // Fewer than two arguments never reaches the filesystem.
    match cp_args(&strings(&["only"])) {
        Err(ShellError::MissingArguments(m)) => assert_eq!(m, "source and destination"),
        _ => panic!("expected MissingArguments"),
    }
    // With both named, a missing source is FileNotFound and no copy action
    // is produced, so the destination stays untouched.
    let (src, dst) = cp_args(&strings(&["src", "dst"])).unwrap();
    assert_eq!((src.as_str(), dst.as_str()), ("src", "dst"));
    match require_exists(&"src".to_string(), false) {
        Err(ShellError::FileNotFound(p)) => assert_eq!(p, "src"),
        _ => panic!("expected FileNotFound"),
    }
    assert!(require_exists(&"src".to_string(), true).is_ok());
}

#[test]
fn cd_resolves_home_and_rejects_missing_paths() {
    let target = cd_target(&strings(&[]), &Some("/home/user".to_string())).unwrap();
    assert_eq!(target, "/home/user");
    let target = cd_target(&strings(&["/tmp"]), &Some("/home/user".to_string())).unwrap();
    assert_eq!(target, "/tmp");
    match cd_target(&strings(&[]), &None) {
        Err(ShellError::InvalidArgument(m)) => assert_eq!(m, "Home directory not found"),
        _ => panic!("expected InvalidArgument"),
    }
    // A target that does not exist is FileNotFound; the caller then leaves
    // the working directory as it was.
    match require_exists(&"nonexistent".to_string(), false) {
        Err(ShellError::FileNotFound(p)) => assert_eq!(p, "nonexistent"),
        _ => panic!("expected FileNotFound"),
    }
}

#[test]
fn grep_prints_matching_lines_with_numbers() {
    let lines = strings(&["foo bar", "baz", "foobar"]);
    let out = grep_matches("file.txt", &lines, "foo");
    assert_eq!(out, strings(&["file.txt:1: foo bar", "file.txt:3: foobar"]));
}

#[test]
fn grep_is_case_sensitive_and_literal() {
    let lines = strings(&["Foo", "a.c", "abc"]);
    assert!(grep_matches("f", &lines, "foo").is_empty());
    // The dot is a literal character, not a wildcard.
    assert_eq!(grep_matches("f", &lines, "a.c"), strings(&["f:2: a.c"]));
}

#[test]
fn substring_search_is_literal() {
    assert!(contains_str("foobar", "oob"));
    assert!(contains_str("anything", ""));
    assert!(!contains_str("foo", "Foo"));
    assert!(!contains_str("fo", "foo"));
    assert!(str_eq("abc", "abc"));
    assert!(!str_eq("abc", "abd"));
}

#[test]
fn history_renders_one_indexed() {
    let mut h = History::new();
    assert_eq!(h.render(), strings(&["No command history available"]));
    h.push("ls".to_string());
    h.push("pwd".to_string());
    assert_eq!(h.render(), strings(&["1: ls", "2: pwd"]));
    assert_eq!(h.len(), 2);
}

#[test]
fn history_from_earlier_run_precedes_new_entries() {
    // Run one enters two lines; run two loads them and enters one more.
    let mut first_run = History::new();
    first_run.push("mkdir d".to_string());
    first_run.push("cd d".to_string());
    let persisted = first_run.entries.clone();

    let mut second_run = History::from_entries(persisted);
    second_run.push("pwd".to_string());
    assert_eq!(second_run.render(), strings(&["1: mkdir d", "2: cd d", "3: pwd"]));
}

#[test]
fn decimal_rendering() {
    assert_eq!(dec_u64(0), "0");
    assert_eq!(dec_u64(7), "7");
    assert_eq!(dec_u64(1234), "1234");
    assert_eq!(dec_u64(1000), "1000");
}

#[test]
fn date_is_rendered_zero_padded() {
    let t = LocalTime { year: 2024, month: 3, day: 7, hour: 9, minute: 5, second: 30 };
    assert_eq!(date_line(&t), "2024-03-07 09:05:30");
    let t = LocalTime { year: 33, month: 12, day: 31, hour: 23, minute: 59, second: 59 };
    assert_eq!(date_line(&t), "0033-12-31 23:59:59");
}

#[test]
fn date_command_has_the_documented_shape() {
    let s = date_command();
    let b: Vec<char> = s.chars().collect();
    let n = b.len();
    assert!(n >= 19);
    assert_eq!(b[n - 3], ':');
    assert_eq!(b[n - 6], ':');
    assert_eq!(b[n - 9], ' ');
    assert_eq!(b[n - 12], '-');
    assert_eq!(b[n - 15], '-');
    for &i in &[1usize, 2, 4, 5, 7, 8, 10, 11, 13, 14] {
        assert!(b[n - i].is_ascii_digit());
    }
}

#[test]
fn ls_defaults_to_current_directory() {
    assert_eq!(ls_target(&strings(&[])), ".");
    assert_eq!(ls_target(&strings(&["/etc"])), "/etc");
    assert_eq!(ls_row(&strings(&["a", "b"])), "a  b  ");
    assert_eq!(ls_row(&strings(&[])), "");
}

#[test]
fn help_lists_every_command() {
    let lines = help_lines();
    assert_eq!(lines.len(), 16);
    assert_eq!(lines[0], "Implemented commands:");
    assert_eq!(lines[1], "  exit          - Exit the shell");
    assert_eq!(lines[15], "  history       - Show command history");
}

#[test]
fn prompt_shows_the_working_directory() {
    assert_eq!(prompt_line("/tmp"), "ASH$ /tmp > ");
}
