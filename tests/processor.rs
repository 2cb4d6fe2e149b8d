use nu_cli_reed::outcome::LineResult;
use nu_cli_reed::buffer::process_buffer;
use nu_cli_reed::processor::{Action, Event, InputSource, Phase};
use nu_cli_reed::shortcut::{Argument, Command, ParsedPipeline};

fn single(command: Command) -> ParsedPipeline {
    ParsedPipeline { blocks: vec![vec![vec![command]]] }
}

fn bare_word(word: &str) -> ParsedPipeline {
    single(Command::Internal {
        name: "run_external".to_string(),
        positional: Some(vec![Argument::Text(word.to_string())]),
        named: 0,
    })
}

fn echo_hi() -> ParsedPipeline {
    single(Command::Internal {
        name: "echo".to_string(),
        positional: Some(vec![Argument::Text("hi".to_string())]),
        named: 0,
    })
}

fn parse_request(line: &str) -> Action<String> {
    Action::Parse { line: line.to_string(), offset: 0 }
}

#[test]
fn two_spaces_finish_at_once() {
    let (mut p, a) = process_buffer::<String>("  ", false, 0, true);
    assert_eq!(a, Action::Finish(LineResult::Success("  ".to_string())));
    assert_eq!(p.phase(), Phase::Done);
    assert_eq!(p.step(Event::<String>::Parsed(echo_hi())), Action::Await);
    assert_eq!(p.step(Event::<String>::Executed), Action::Await);
}

#[test]
fn empty_and_unicode_blank_lines_finish_at_once() {
    let (_, a) = process_buffer::<String>("", false, 0, true);
    assert_eq!(a, Action::Finish(LineResult::Success("".to_string())));
    let (_, a) = process_buffer::<String>("\t\u{3000}\n", false, 0, true);
    assert_eq!(a, Action::Finish(LineResult::Success("\t\u{3000}\n".to_string())));
}

#[test]
fn bare_directory_changes_into_it() {
    let (mut p, a) = process_buffer::<String>("/tmp", false, 0, true);
    assert_eq!(a, parse_request("/tmp"));
    assert_eq!(p.step(Event::<String>::Parsed(bare_word("/tmp"))), Action::Resolve { name: "/tmp".to_string() });
    assert_eq!(
        p.step(Event::<String>::Resolved { is_dir: true }),
        Action::CheckExternal { name: "/tmp".to_string() }
    );
    assert_eq!(
        p.step(Event::<String>::ExternalChecked { registered: false }),
        Action::ChangeDirectory { name: "/tmp".to_string() }
    );
    assert_eq!(
        p.step(Event::<String>::DirectoryChanged),
        Action::Finish(LineResult::Success("/tmp".to_string()))
    );
    assert_eq!(p.phase(), Phase::Done);
}

#[test]
fn shadowed_directory_is_executed() {
    let (mut p, _) = process_buffer::<String>("mydir\n", false, 0, true);
    assert_eq!(p.line(), "mydir");
    p.step(Event::<String>::Parsed(bare_word("mydir")));
    p.step(Event::<String>::Resolved { is_dir: true });
    assert_eq!(
        p.step(Event::<String>::ExternalChecked { registered: true }),
        Action::Execute { input: InputSource::Empty }
    );
    assert_eq!(p.phase(), Phase::Executing);
}

#[test]
fn shortcut_is_off_outside_cli_mode() {
    let (mut p, _) = process_buffer::<String>("/tmp", false, 0, false);
    assert_eq!(p.step(Event::<String>::Parsed(bare_word("/tmp"))), Action::Execute { input: InputSource::Empty });
}

#[test]
fn name_that_is_no_directory_is_executed() {
    let (mut p, _) = process_buffer::<String>("notes.txt", true, 0, true);
    p.step(Event::<String>::Parsed(bare_word("notes.txt")));
    assert_eq!(
        p.step(Event::<String>::Resolved { is_dir: false }),
        Action::Execute { input: InputSource::Stdin }
    );
    let (mut q, _) = process_buffer::<String>("nowhere", false, 0, true);
    q.step(Event::<String>::Parsed(bare_word("nowhere")));
    assert_eq!(q.step(Event::<String>::ResolveFailed), Action::Execute { input: InputSource::Empty });
}

#[test]
fn failed_directory_change_is_an_error() {
    let (mut p, _) = process_buffer::<String>("/root", false, 0, true);
    p.step(Event::<String>::Parsed(bare_word("/root")));
    p.step(Event::<String>::Resolved { is_dir: true });
    p.step(Event::<String>::ExternalChecked { registered: false });
    assert_eq!(
        p.step(Event::<String>::ChangeFailed("permission denied".to_string())),
        Action::Finish(LineResult::Error("/root".to_string(), "permission denied".to_string()))
    );
}

#[test]
fn echo_hi_runs_and_renders() {
    let (mut p, a) = process_buffer::<String>("echo hi", false, 0, true);
    assert_eq!(a, parse_request("echo hi"));
    assert_eq!(p.step(Event::<String>::Parsed(echo_hi())), Action::Execute { input: InputSource::Empty });
    assert_eq!(p.step(Event::<String>::Executed), Action::Render);
    assert_eq!(p.step(Event::<String>::Shown { interrupted: false }), Action::Render);
    assert_eq!(
        p.step(Event::<String>::OutputEnded),
        Action::Finish(LineResult::Success("echo hi".to_string()))
    );
}

#[test]
fn bad_syntax_is_reported_without_execution() {
    let (mut p, a) = process_buffer::<String>("bad syntax ((", false, 0, true);
    assert_eq!(a, parse_request("bad syntax (("));
    assert_eq!(
        p.step(Event::<String>::ParseFailed("unclosed (".to_string())),
        Action::Finish(LineResult::Error("bad syntax ((".to_string(), "unclosed (".to_string()))
    );
    assert_eq!(p.step(Event::<String>::Executed), Action::Await);
}

#[test]
fn execution_failure_is_an_error() {
    let (mut p, _) = process_buffer::<String>("nosuchcmd", false, 7, true);
    p.step(Event::<String>::Parsed(single(Command::Other)));
    assert_eq!(
        p.step(Event::<String>::ExecuteFailed("command not found".to_string())),
        Action::Finish(LineResult::Error("nosuchcmd".to_string(), "command not found".to_string()))
    );
}

#[test]
fn offset_reaches_the_parser() {
    let (_, a) = process_buffer::<String>("ls\n", false, 42, true);
    assert_eq!(a, Action::Parse { line: "ls".to_string(), offset: 42 });
}

#[test]
fn interrupt_stops_rendering_with_success() {
    let (mut p, _) = process_buffer::<String>("seq 1 5", false, 0, true);
    p.step(Event::<String>::Parsed(single(Command::Other)));
    assert_eq!(p.step(Event::<String>::Executed), Action::Render);
    assert_eq!(p.step(Event::<String>::Shown { interrupted: false }), Action::Render);
    assert_eq!(p.step(Event::<String>::Shown { interrupted: false }), Action::Render);
    assert_eq!(
        p.step(Event::<String>::Shown { interrupted: true }),
        Action::Finish(LineResult::Success("seq 1 5".to_string()))
    );
    assert_eq!(p.step(Event::<String>::Shown { interrupted: false }), Action::Await);
}

#[test]
fn error_value_stops_rendering() {
    let (mut p, _) = process_buffer::<String>("open x", false, 0, true);
    p.step(Event::<String>::Parsed(single(Command::Other)));
    p.step(Event::<String>::Executed);
    p.step(Event::<String>::Shown { interrupted: false });
    assert_eq!(
        p.step(Event::<String>::ShownError("bad value".to_string())),
        Action::Finish(LineResult::Error("open x".to_string(), "bad value".to_string()))
    );
}

#[test]
fn unexpected_event_changes_nothing() {
    let (mut p, _) = process_buffer::<String>("ls", false, 0, true);
    assert_eq!(p.step(Event::<String>::OutputEnded), Action::Await);
    assert_eq!(p.phase(), Phase::Parsing);
    assert_eq!(p.step(Event::<String>::Parsed(single(Command::Other))), Action::Execute { input: InputSource::Empty });
}

#[test]
fn directory_change_and_execution_exclude_each_other() {
    let (mut p, _) = process_buffer::<String>("/tmp", false, 0, true);
    p.step(Event::<String>::Parsed(bare_word("/tmp")));
    p.step(Event::<String>::Resolved { is_dir: true });
    p.step(Event::<String>::ExternalChecked { registered: false });
    p.step(Event::<String>::DirectoryChanged);
    assert_eq!(p.step(Event::<String>::Executed), Action::Await);
    assert_eq!(p.step(Event::<String>::Parsed(echo_hi())), Action::Await);
}
