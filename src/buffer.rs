//! The entry point of line processing.
use vstd::prelude::*;
use crate::processor::{start, Action, LineProcessor};

verus! {

/// Starts processing a submitted line. A blank line is finished at once with
/// `Success` of the line as typed, and nothing is parsed. Any other line loses
/// one trailing line terminator and is sent to the parser, with spans counted
/// from `span_offset`; the returned processor then takes each collaborator's
/// answer in turn (`LineProcessor::step`) until it finishes. `redirect_stdin`
/// feeds standard input to the executed block, and `cli_mode` enables the
/// bare-directory shortcut. The laws of `crate::runs` are stated of the run
/// that starts here (`session`).
pub fn process_buffer<E>(
    script_text: &str,
    redirect_stdin: bool,
    span_offset: usize,
    cli_mode: bool,
) -> (r: (LineProcessor, Action<E>))
    ensures
        (r.0@, r.1@) == start::<E>(script_text@, redirect_stdin, span_offset, cli_mode),
{
    LineProcessor::begin(script_text, redirect_stdin, span_offset, cli_mode)
}

} // verus!
