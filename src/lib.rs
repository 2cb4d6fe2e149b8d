//! The line-processing core of a shell's read-eval loop: normalising a
//! submitted line, recognising a bare directory name as a change of
//! directory, and sequencing parsing, execution and rendering, with the
//! laws that hold of every run.
pub mod buffer;
pub mod candidate;
pub mod drive;
pub mod outcome;
pub mod processor;
pub mod reading;
pub mod repl;
pub mod runs;
pub mod shortcut;
pub mod text;
