//! The decisions of the interactive loop on what the line editor hands back.
use vstd::prelude::*;
use crate::text::{same_text, trim, trimmed};

verus! {

/// What the line editor hands back.
#[derive(Debug, PartialEq, Eq)]
pub enum EditorSignal {
    /// A submitted line.
    Success(String),
    /// Ctrl-C while editing.
    CtrlC,
    /// Ctrl-D while editing.
    CtrlD,
    /// Ctrl-L: a request to clear the screen.
    CtrlL,
}

/// What the loop does next.
#[derive(Debug, PartialEq, Eq)]
pub enum LoopStep {
    /// Leave the loop.
    Quit,
    /// Print the editor's history and read again.
    ShowHistory,
    /// Process this line.
    Evaluate(String),
    /// Clear the screen and read again.
    ClearScreen,
}

/// `LoopStep` with its text as a character sequence.
pub enum LoopStepView {
    Quit,
    ShowHistory,
    Evaluate(Seq<char>),
    ClearScreen,
}

impl View for LoopStep {
    type V = LoopStepView;

    open spec fn view(&self) -> LoopStepView {
        match self {
            LoopStep::Quit => LoopStepView::Quit,
            LoopStep::ShowHistory => LoopStepView::ShowHistory,
            LoopStep::Evaluate(s) => LoopStepView::Evaluate(s@),
            LoopStep::ClearScreen => LoopStepView::ClearScreen,
        }
    }
}

/// The word that, alone on a line, asks for the history to be printed.
pub open spec fn history_word() -> Seq<char> {
    "rlh"@
}

/// The step taken on signal `sig`.
pub open spec fn step_for(sig: EditorSignal) -> LoopStepView {
    match sig {
        EditorSignal::Success(line) => if trimmed(line@) == history_word() {
            LoopStepView::ShowHistory
        } else {
            LoopStepView::Evaluate(line@)
        },
        EditorSignal::CtrlC => LoopStepView::Quit,
        EditorSignal::CtrlD => LoopStepView::Quit,
        EditorSignal::CtrlL => LoopStepView::ClearScreen,
    }
}

/// Decides what the loop does with the editor's signal: an interrupt or the
/// end of input leaves it, Ctrl-L clears the screen, the history word prints
/// the history, and any other line is processed as it was typed.
pub fn next_step(sig: EditorSignal) -> (r: LoopStep)
    ensures
        r@ == step_for(sig),
{
    match sig {
        EditorSignal::Success(line) => {
            if same_text(trim(line.as_str()), "rlh") {
                LoopStep::ShowHistory
            } else {
                LoopStep::Evaluate(line)
            }
        },
        EditorSignal::CtrlC => LoopStep::Quit,
        EditorSignal::CtrlD => LoopStep::Quit,
        EditorSignal::CtrlL => LoopStep::ClearScreen,
    }
}

} // verus!
