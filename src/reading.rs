//! Turning what the line editor read into a line outcome.
use vstd::prelude::*;
use crate::outcome::{LineResult, LineResultView};
use crate::text::same_text;

verus! {

/// Why the line editor gave no line.
#[derive(Clone, Copy, Debug, PartialEq, Eq, Structural)]
pub enum ReadFailure {
    /// Reading was interrupted (Ctrl-C).
    Interrupted,
    /// The input ended (Ctrl-D).
    Eof,
    /// Any other failure of the editor.
    Other,
}

/// Whether a line asks for the history to be cleared.
pub open spec fn is_clear_history(s: Seq<char>) -> bool {
    s == "history -c"@ || s == "history --clear"@
}

/// The outcome of what the editor read.
pub open spec fn read_outcome<E>(input: Result<String, ReadFailure>) -> LineResultView<E> {
    match input {
        Ok(s) => if is_clear_history(s@) {
            LineResultView::ClearHistory
        } else {
            LineResultView::Success(s@)
        },
        Err(ReadFailure::Interrupted) => LineResultView::CtrlC,
        Err(ReadFailure::Eof) => LineResultView::CtrlD,
        Err(ReadFailure::Other) => LineResultView::Break,
    }
}

/// Maps a read to its outcome: the two spellings of clearing the history, a
/// line, an interrupt, the end of input, or a failure that stops the loop.
pub fn convert_rustyline_result_to_string<E>(input: Result<String, ReadFailure>) -> (r: LineResult<E>)
    ensures
        r@ == read_outcome::<E>(input),
{
    match input {
        Ok(s) => {
            if same_text(s.as_str(), "history -c") || same_text(s.as_str(), "history --clear") {
                LineResult::ClearHistory
            } else {
                LineResult::Success(s)
            }
        },
        Err(ReadFailure::Interrupted) => LineResult::CtrlC,
        Err(ReadFailure::Eof) => LineResult::CtrlD,
        Err(ReadFailure::Other) => LineResult::Break,
    }
}

} // verus!
