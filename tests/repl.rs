use nu_cli_reed::repl::{next_step, EditorSignal, LoopStep};

#[test]
fn interrupt_and_end_leave_the_loop() {
    assert_eq!(next_step(EditorSignal::CtrlC), LoopStep::Quit);
    assert_eq!(next_step(EditorSignal::CtrlD), LoopStep::Quit);
}

#[test]
fn ctrl_l_clears_the_screen() {
    assert_eq!(next_step(EditorSignal::CtrlL), LoopStep::ClearScreen);
}

#[test]
fn history_word_prints_history() {
    assert_eq!(next_step(EditorSignal::Success(" rlh ".to_string())), LoopStep::ShowHistory);
    assert_eq!(next_step(EditorSignal::Success("rlh".to_string())), LoopStep::ShowHistory);
}

#[test]
fn other_lines_are_evaluated_as_typed() {
    assert_eq!(
        next_step(EditorSignal::Success(" ls \n".to_string())),
        LoopStep::Evaluate(" ls \n".to_string())
    );
    assert_eq!(
        next_step(EditorSignal::Success("rlh x".to_string())),
        LoopStep::Evaluate("rlh x".to_string())
    );
}
