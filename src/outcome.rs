//! What processing one line comes to.
use vstd::prelude::*;

verus! {

/// The outcome of one line, as the read-eval loop consumes it.
#[derive(Debug, PartialEq, Eq)]
pub enum LineResult<E> {
    /// The line was handled; it is carried back as it was processed.
    Success(String),
    /// The line failed; the line and the failure are carried back.
    Error(String, E),
    /// The user asked for the history to be cleared.
    ClearHistory,
    /// Reading was interrupted by a signal.
    CtrlC,
    /// The input came to its end.
    CtrlD,
    /// The loop is to stop.
    Break,
}

/// `LineResult` with its texts as character sequences.
pub enum LineResultView<E> {
    Success(Seq<char>),
    Error(Seq<char>, E),
    ClearHistory,
    CtrlC,
    CtrlD,
    Break,
}

impl<E> View for LineResult<E> {
    type V = LineResultView<E>;

    open spec fn view(&self) -> LineResultView<E> {
        match self {
            LineResult::Success(s) => LineResultView::Success(s@),
            LineResult::Error(s, e) => LineResultView::Error(s@, *e),
            LineResult::ClearHistory => LineResultView::ClearHistory,
            LineResult::CtrlC => LineResultView::CtrlC,
            LineResult::CtrlD => LineResultView::CtrlD,
            LineResult::Break => LineResultView::Break,
        }
    }
}

} // verus!
