use nu_cli_reed::buffer::process_buffer;
use nu_cli_reed::outcome::LineResult;
use nu_cli_reed::processor::Action;
use nu_cli_reed::shortcut::{shortcut_candidate, Argument, Command, ParsedPipeline};
use nu_cli_reed::text::{chomp_newline, is_blank, is_space_char, same_text, trim};

#[test]
fn chomp_takes_one_terminator() {
    assert_eq!(chomp_newline("ls\n"), "ls");
    assert_eq!(chomp_newline("ls"), "ls");
    assert_eq!(chomp_newline("ls\n\n"), "ls\n");
    assert_eq!(chomp_newline(""), "");
    assert_eq!(chomp_newline("\n"), "");
}

#[test]
fn chomp_twice_is_chomp_once_on_a_single_line() {
    let once = chomp_newline("echo hi\n");
    assert_eq!(chomp_newline(once), once);
}

#[test]
fn blank_lines() {
    assert!(is_blank(""));
    assert!(is_blank("  \t\r\n"));
    assert!(is_blank("\u{a0}\u{2003}\u{3000}"));
    assert!(!is_blank(" x "));
    assert!(!is_blank("\u{200b}"));
    assert!(is_space_char('\u{85}'));
    assert!(!is_space_char('a'));
}

#[test]
fn same_text_compares_characters() {
    assert!(same_text("run_external", "run_external"));
    assert!(!same_text("run_external", "run_externa"));
    assert!(!same_text("ab", "ba"));
}

#[test]
fn process_buffer_normalises() {
    let (_, blank) = process_buffer::<String>("  ", false, 0, true);
    assert_eq!(blank, Action::Finish(LineResult::Success("  ".to_string())));
    let (p, first) = process_buffer::<String>("ls -a\n", false, 0, true);
    assert_eq!(first, Action::Parse { line: "ls -a".to_string(), offset: 0 });
    assert_eq!(p.line(), "ls -a");
}

fn stage(name: &str, positional: Option<Vec<Argument>>, named: usize) -> Command {
    Command::Internal { name: name.to_string(), positional, named }
}

#[test]
fn shortcut_candidate_needs_the_exact_shape() {
    let text = |s: &str| Argument::Text(s.to_string());
    let one = ParsedPipeline { blocks: vec![vec![vec![stage("run_external", Some(vec![text("src")]), 0)]]] };
    assert_eq!(shortcut_candidate(&one), Some("src".to_string()));
    let two_args = ParsedPipeline {
        blocks: vec![vec![vec![stage("run_external", Some(vec![text("src"), text("x")]), 0)]]],
    };
    assert_eq!(shortcut_candidate(&two_args), None);
    let named = ParsedPipeline { blocks: vec![vec![vec![stage("run_external", Some(vec![text("src")]), 1)]]] };
    assert_eq!(shortcut_candidate(&named), None);
    let other = ParsedPipeline {
        blocks: vec![vec![vec![stage("run_external", Some(vec![Argument::Other]), 0)]]],
    };
    assert_eq!(shortcut_candidate(&other), None);
    let none = ParsedPipeline { blocks: vec![vec![vec![stage("run_external", None, 0)]]] };
    assert_eq!(shortcut_candidate(&none), None);
    let wrong_name = ParsedPipeline { blocks: vec![vec![vec![stage("cd", Some(vec![text("src")]), 0)]]] };
    assert_eq!(shortcut_candidate(&wrong_name), None);
    let two_stages = ParsedPipeline {
        blocks: vec![vec![vec![stage("run_external", Some(vec![text("src")]), 0), Command::Other]]],
    };
    assert_eq!(shortcut_candidate(&two_stages), None);
    let external = ParsedPipeline { blocks: vec![vec![vec![Command::Other]]] };
    assert_eq!(shortcut_candidate(&external), None);
    let empty = ParsedPipeline { blocks: vec![] };
    assert_eq!(shortcut_candidate(&empty), None);
}

#[test]
fn trim_takes_white_space_from_both_ends() {
    assert_eq!(trim("  rlh \n"), "rlh");
    assert_eq!(trim("a b"), "a b");
    assert_eq!(trim(" \t "), "");
    assert_eq!(trim(""), "");
    assert_eq!(trim("\u{3000}x\u{a0}"), "x");
}
