use rustpython::import::CompileError;
use rustpython::shell::{LineAction, Shell, ShellAction};

#[test]
fn single_line_runs_at_once() {
    let mut sh: Shell<i64> = Shell::new(Vec::new());
    let ps1 = "> ".to_string();
    let ps2 = ". ".to_string();
    assert_eq!(sh.feed_line("1 + 1"), LineAction::Compile);
    assert_eq!(sh.input, "1 + 1\n");
    assert_eq!(sh.compiled(Ok::<&str, CompileError>("unit")), ShellAction::Execute("unit"));
    assert_eq!(sh.executed::<()>(Ok(Some(2))), None);
    assert_eq!(sh.underscore, Some(2));
    assert_eq!(sh.input, "");
    assert_eq!(sh.get_prompt(&ps1, &ps2), "> ");
}

#[test]
fn multi_line_block() {
    let mut sh: Shell<i64> = Shell::new(Vec::new());
    let ps1 = "> ".to_string();
    let ps2 = ". ".to_string();
    sh.underscore = Some(7);
    assert_eq!(sh.feed_line("if True:"), LineAction::Compile);
    assert_eq!(sh.compiled::<u8>(Err(CompileError::Incomplete)), ShellAction::More);
    assert!(sh.continuing);
    assert_eq!(sh.get_prompt(&ps1, &ps2), ". ");
    assert_eq!(sh.feed_line("    x = 1"), LineAction::Wait);
    assert!(sh.continuing);
    assert_eq!(sh.feed_line(""), LineAction::Compile);
    assert!(!sh.continuing);
    assert_eq!(sh.input, "if True:\n    x = 1\n\n");
    assert_eq!(sh.compiled(Ok::<u8, CompileError>(1)), ShellAction::Execute(1));
    assert_eq!(sh.executed::<()>(Ok(None)), None);
    assert_eq!(sh.underscore, Some(7));
    assert_eq!(sh.get_prompt(&ps1, &ps2), "> ");
}

#[test]
fn syntax_error_drops_buffer() {
    let mut sh: Shell<i64> = Shell::new(Vec::new());
    sh.feed_line("1 +* 2");
    let e = CompileError::Parse("invalid syntax".to_string());
    assert_eq!(sh.compiled::<u8>(Err(CompileError::Parse("invalid syntax".to_string()))), ShellAction::ReportSyntaxError(e));
    assert_eq!(sh.input, "");
    assert!(!sh.continuing);
}

#[test]
fn exception_is_reported_and_session_goes_on() {
    let mut sh: Shell<i64> = Shell::new(Vec::new());
    sh.underscore = Some(1);
    sh.feed_line("1 / 0");
    sh.compiled(Ok::<u8, CompileError>(0));
    assert_eq!(sh.executed(Err("ZeroDivisionError")), Some("ZeroDivisionError"));
    assert_eq!(sh.underscore, Some(1));
    assert_eq!(sh.feed_line("3"), LineAction::Compile);
}

#[test]
fn interrupt_resets() {
    let mut sh: Shell<i64> = Shell::new(Vec::new());
    sh.feed_line("def f():");
    sh.compiled::<u8>(Err(CompileError::Incomplete));
    assert!(sh.continuing);
    sh.interrupt();
    assert!(!sh.continuing);
    assert_eq!(sh.input, "");
    assert_eq!(sh.history, vec!["def f():".to_string()]);
}

#[test]
fn history_is_trimmed() {
    let mut sh: Shell<i64> = Shell::new(vec!["old".to_string()]);
    sh.feed_line("x = 1   \t");
    assert_eq!(sh.history, vec!["old".to_string(), "x = 1".to_string()]);
    assert_eq!(sh.input, "x = 1   \t\n");
}

#[test]
fn history_trims_unicode_white_space_only() {
    let mut sh: Shell<i64> = Shell::new(Vec::new());
    sh.feed_line("y\u{3000}\u{2009} ");
    sh.feed_line("z\u{200b}");
    assert_eq!(sh.history, vec!["y".to_string(), "z\u{200b}".to_string()]);
}
