//! Recognising a bare directory name typed on its own as a request to change
//! into that directory.
use vstd::prelude::*;
use crate::text::same_text;

verus! {

/// A positional argument of a parsed command, as far as the shortcut reads it.
#[derive(Debug, PartialEq, Eq)]
pub enum Argument {
    /// A literal string.
    Text(String),
    /// Any other expression.
    Other,
}

/// One stage of a parsed pipeline.
#[derive(Debug, PartialEq, Eq)]
pub enum Command {
    /// A command dispatched inside the shell: its name, its positional
    /// arguments (absent when the parser gave none) and the number of named
    /// arguments.
    Internal { name: String, positional: Option<Vec<Argument>>, named: usize },
    /// Any other stage: an expression or a dynamic call.
    Other,
}

/// The shape of what the parser made of a line: blocks, each a list of
/// pipelines, each a list of stages.
#[derive(Debug, PartialEq, Eq)]
pub struct ParsedPipeline {
    pub blocks: Vec<Vec<Vec<Command>>>,
}

/// The internal command the parser uses to dispatch a word it does not know.
pub open spec fn run_external_name() -> Seq<char> {
    "run_external"@
}

/// The sole stage of a pipeline made of one block holding one pipeline of
/// one stage.
pub open spec fn sole_stage(p: ParsedPipeline) -> Option<Command> {
    if p.blocks@.len() == 1 && p.blocks@[0]@.len() == 1 && p.blocks@[0]@[0]@.len() == 1 {
        Some(p.blocks@[0]@[0]@[0])
    } else {
        None
    }
}

/// The name that a pipeline would change into, when its sole stage is the
/// dispatch of an unknown word with exactly one literal positional argument
/// and no named argument.
pub open spec fn shortcut_name(p: ParsedPipeline) -> Option<Seq<char>> {
    match sole_stage(p) {
        Some(Command::Internal { name, positional: Some(args), named }) => {
            if name@ == run_external_name() && named == 0 && args@.len() == 1 {
                match args@[0] {
                    Argument::Text(s) => Some(s@),
                    Argument::Other => None,
                }
            } else {
                None
            }
        },
        _ => None,
    }
}

/// An optional text as an optional character sequence.
pub open spec fn text_view(o: Option<String>) -> Option<Seq<char>> {
    match o {
        Some(s) => Some(s@),
        None => None,
    }
}

/// The candidate directory name of a parsed line, if its shape allows one.
pub fn shortcut_candidate(p: &ParsedPipeline) -> (r: Option<String>)
    ensures
        text_view(r) == shortcut_name(*p),
{
    if p.blocks.len() != 1 || p.blocks[0].len() != 1 || p.blocks[0][0].len() != 1 {
        return None;
    }
    match &p.blocks[0][0][0] {
        Command::Internal { name, positional: Some(args), named } => {
            if *named == 0 && args.len() == 1 && same_text(name.as_str(), "run_external") {
                match &args[0] {
                    Argument::Text(s) => Some(s.clone()),
                    Argument::Other => None,
                }
            } else {
                None
            }
        },
        _ => None,
    }
}

} // verus!
