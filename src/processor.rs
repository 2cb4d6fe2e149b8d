//! The line processor: a state machine that decides, for one submitted line,
//! what its collaborators (parser, directory resolver, shell manager, block
//! executor, renderer) are asked to do next, and what the line comes to.
//!
//! The caller performs each requested action and hands the answer back as an
//! event. An event that does not answer the pending request changes nothing.
use vstd::prelude::*;
use crate::outcome::{LineResult, LineResultView};
use crate::shortcut::{shortcut_candidate, shortcut_name, ParsedPipeline};
use crate::text::{chomp, chomp_newline, is_blank, is_blank_text};

verus! {

/// Where the executed block reads its input from.
#[derive(Clone, Copy, Debug, PartialEq, Eq, Structural)]
pub enum InputSource {
    /// No input at all.
    Empty,
    /// The process's standard input, read lazily line by line.
    Stdin,
}

/// Where a line stands in its processing.
#[derive(Clone, Copy, Debug, PartialEq, Eq, Structural)]
pub enum Phase {
    /// Waiting for the parser.
    Parsing,
    /// Waiting to learn whether the candidate name resolves to a directory.
    Resolving,
    /// Waiting to learn whether an external command has the candidate name.
    CheckingExternal,
    /// Waiting for the shell manager to change directory.
    ChangingDirectory,
    /// Waiting for the block executor.
    Executing,
    /// Draining the rendered output, one value at a time.
    Rendering,
    /// The outcome has been given.
    Done,
}

/// What the processor asks of its caller.
#[derive(Debug, PartialEq, Eq)]
pub enum Action<E> {
    /// Parse `line`, with spans counted from `offset`.
    Parse { line: String, offset: usize },
    /// Resolve `name` against the current directory and tell whether it is one.
    Resolve { name: String },
    /// Tell whether an external command is registered under `name`.
    CheckExternal { name: String },
    /// Change into `name` and drain whatever the change produces.
    ChangeDirectory { name: String },
    /// Run the parsed block on `input`, without forced redirection, and pass
    /// its output to the presentation command.
    Execute { input: InputSource },
    /// Pull the next rendered value and read the interrupt flag after it.
    Render,
    /// Nothing new: the pending request still stands.
    Await,
    /// The line is finished with this outcome.
    Finish(LineResult<E>),
}

/// `Action` with its texts as character sequences.
pub enum ActionView<E> {
    Parse { line: Seq<char>, offset: usize },
    Resolve { name: Seq<char> },
    CheckExternal { name: Seq<char> },
    ChangeDirectory { name: Seq<char> },
    Execute { input: InputSource },
    Render,
    Await,
    Finish(LineResultView<E>),
}

impl<E> View for Action<E> {
    type V = ActionView<E>;

    open spec fn view(&self) -> ActionView<E> {
        match self {
            Action::Parse { line, offset } => ActionView::Parse { line: line@, offset: *offset },
            Action::Resolve { name } => ActionView::Resolve { name: name@ },
            Action::CheckExternal { name } => ActionView::CheckExternal { name: name@ },
            Action::ChangeDirectory { name } => ActionView::ChangeDirectory { name: name@ },
            Action::Execute { input } => ActionView::Execute { input: *input },
            Action::Render => ActionView::Render,
            Action::Await => ActionView::Await,
            Action::Finish(r) => ActionView::Finish(r@),
        }
    }
}

/// An answer from a collaborator.
pub enum Event<E> {
    /// The parser accepted the line.
    Parsed(ParsedPipeline),
    /// The parser rejected the line.
    ParseFailed(E),
    /// The name resolved; `is_dir` tells whether it names a directory.
    Resolved { is_dir: bool },
    /// The name could not be resolved.
    ResolveFailed,
    /// Whether an external command is registered under the name.
    ExternalChecked { registered: bool },
    /// The directory was changed and its output drained.
    DirectoryChanged,
    /// The directory change was refused.
    ChangeFailed(E),
    /// The block ran and its output goes to the presentation command.
    Executed,
    /// The block failed to run.
    ExecuteFailed(E),
    /// A value was rendered; `interrupted` is the interrupt flag read after it.
    Shown { interrupted: bool },
    /// The rendered stream yielded an error value.
    ShownError(E),
    /// The rendered stream is exhausted.
    OutputEnded,
}

/// The processing of one line.
pub struct LineProcessor {
    line: String,
    name: String,
    phase: Phase,
    redirect_stdin: bool,
    offset: usize,
    cli_mode: bool,
}

/// The state of a `LineProcessor`, with its texts as character sequences.
pub struct ProcessorView {
    pub line: Seq<char>,
    pub name: Seq<char>,
    pub phase: Phase,
    pub redirect_stdin: bool,
    pub offset: usize,
    pub cli_mode: bool,
}

impl View for LineProcessor {
    type V = ProcessorView;

    closed spec fn view(&self) -> ProcessorView {
        ProcessorView {
            line: self.line@,
            name: self.name@,
            phase: self.phase,
            redirect_stdin: self.redirect_stdin,
            offset: self.offset,
            cli_mode: self.cli_mode,
        }
    }
}

/// The input that the executor is given.
pub open spec fn input_for(redirect_stdin: bool) -> InputSource {
    if redirect_stdin {
        InputSource::Stdin
    } else {
        InputSource::Empty
    }
}

/// The state and the first request for a freshly submitted line. A blank line
/// is finished at once and kept as it was typed; any other loses one trailing
/// line terminator and goes to the parser.
pub open spec fn start<E>(text: Seq<char>, redirect_stdin: bool, offset: usize, cli_mode: bool) -> (
    ProcessorView,
    ActionView<E>,
) {
    if is_blank_text(text) {
        (
            ProcessorView {
                line: text,
                name: Seq::empty(),
                phase: Phase::Done,
                redirect_stdin,
                offset,
                cli_mode,
            },
            ActionView::Finish(LineResultView::Success(text)),
        )
    } else {
        (
            ProcessorView {
                line: chomp(text),
                name: Seq::empty(),
                phase: Phase::Parsing,
                redirect_stdin,
                offset,
                cli_mode,
            },
            ActionView::Parse { line: chomp(text), offset },
        )
    }
}

/// `p` moved to phase `ph`.
pub open spec fn moved(p: ProcessorView, ph: Phase) -> ProcessorView {
    ProcessorView { phase: ph, ..p }
}

/// `p` finished with outcome `r`.
pub open spec fn finished<E>(p: ProcessorView, r: LineResultView<E>) -> (ProcessorView, ActionView<E>) {
    (moved(p, Phase::Done), ActionView::Finish(r))
}

/// `p` handing its parsed block to the executor.
pub open spec fn to_execute<E>(p: ProcessorView) -> (ProcessorView, ActionView<E>) {
    (moved(p, Phase::Executing), ActionView::Execute { input: input_for(p.redirect_stdin) })
}

/// One step: the next state and request, given the answer `e` in state `p`.
pub open spec fn transition<E>(p: ProcessorView, e: Event<E>) -> (ProcessorView, ActionView<E>) {
    let waiting = (p, ActionView::Await);
    match p.phase {
        Phase::Parsing => match e {
            Event::ParseFailed(f) => finished(p, LineResultView::Error(p.line, f)),
            Event::Parsed(pl) => match shortcut_name(pl) {
                Some(n) => if p.cli_mode {
                    (
                        ProcessorView { phase: Phase::Resolving, name: n, ..p },
                        ActionView::Resolve { name: n },
                    )
                } else {
                    to_execute(p)
                },
                None => to_execute(p),
            },
            _ => waiting,
        },
        Phase::Resolving => match e {
            Event::Resolved { is_dir } => if is_dir {
                (moved(p, Phase::CheckingExternal), ActionView::CheckExternal { name: p.name })
            } else {
                to_execute(p)
            },
            Event::ResolveFailed => to_execute(p),
            _ => waiting,
        },
        Phase::CheckingExternal => match e {
            Event::ExternalChecked { registered } => if registered {
                to_execute(p)
            } else {
                (moved(p, Phase::ChangingDirectory), ActionView::ChangeDirectory { name: p.name })
            },
            _ => waiting,
        },
        Phase::ChangingDirectory => match e {
            Event::DirectoryChanged => finished(p, LineResultView::Success(p.line)),
            Event::ChangeFailed(f) => finished(p, LineResultView::Error(p.line, f)),
            _ => waiting,
        },
        Phase::Executing => match e {
            Event::Executed => (moved(p, Phase::Rendering), ActionView::Render),
            Event::ExecuteFailed(f) => finished(p, LineResultView::Error(p.line, f)),
            _ => waiting,
        },
        Phase::Rendering => match e {
            Event::Shown { interrupted } => if interrupted {
                finished(p, LineResultView::Success(p.line))
            } else {
                (p, ActionView::Render)
            },
            Event::ShownError(f) => finished(p, LineResultView::Error(p.line, f)),
            Event::OutputEnded => finished(p, LineResultView::Success(p.line)),
            _ => waiting,
        },
        Phase::Done => waiting,
    }
}

impl LineProcessor {
    /// Takes a submitted line: a blank one is finished at once, any other is
    /// sent to the parser. `cli_mode` enables the bare-directory shortcut.
    pub(crate) fn begin<E>(text: &str, redirect_stdin: bool, offset: usize, cli_mode: bool) -> (r: (
        LineProcessor,
        Action<E>,
    ))
        ensures
            (r.0@, r.1@) == start::<E>(text@, redirect_stdin, offset, cli_mode),
    {
        if is_blank(text) {
            let p = LineProcessor {
                line: text.to_owned(),
                name: String::new(),
                phase: Phase::Done,
                redirect_stdin,
                offset,
                cli_mode,
            };
            (p, Action::Finish(LineResult::Success(text.to_owned())))
        } else {
            let line = chomp_newline(text);
            let p = LineProcessor {
                line: line.to_owned(),
                name: String::new(),
                phase: Phase::Parsing,
                redirect_stdin,
                offset,
                cli_mode,
            };
            (p, Action::Parse { line: line.to_owned(), offset })
        }
    }

    fn finish<E>(&mut self, r: LineResult<E>) -> (a: Action<E>)
        ensures
            (final(self)@, a@) == finished(old(self)@, r@),
    {
        self.phase = Phase::Done;
        Action::Finish(r)
    }

    fn execute<E>(&mut self) -> (a: Action<E>)
        ensures
            (final(self)@, a@) == to_execute::<E>(old(self)@),
    {
        self.phase = Phase::Executing;
        let input = if self.redirect_stdin {
            InputSource::Stdin
        } else {
            InputSource::Empty
        };
        Action::Execute { input }
    }

    /// Takes a collaborator's answer and returns the next request.
    pub fn step<E>(&mut self, event: Event<E>) -> (r: Action<E>)
        ensures
            (final(self)@, r@) == transition(old(self)@, event),
    {
        match self.phase {
            Phase::Parsing => match event {
                Event::ParseFailed(f) => {
                    let line = self.line.clone();
                    self.finish(LineResult::Error(line, f))
                },
                Event::Parsed(pl) => match shortcut_candidate(&pl) {
                    Some(n) => if self.cli_mode {
                        self.name = n.clone();
                        self.phase = Phase::Resolving;
                        Action::Resolve { name: n }
                    } else {
                        self.execute()
                    },
                    None => self.execute(),
                },
                _ => Action::Await,
            },
            Phase::Resolving => match event {
                Event::Resolved { is_dir } => if is_dir {
                    self.phase = Phase::CheckingExternal;
                    Action::CheckExternal { name: self.name.clone() }
                } else {
                    self.execute()
                },
                Event::ResolveFailed => self.execute(),
                _ => Action::Await,
            },
            Phase::CheckingExternal => match event {
                Event::ExternalChecked { registered } => if registered {
                    self.execute()
                } else {
                    self.phase = Phase::ChangingDirectory;
                    Action::ChangeDirectory { name: self.name.clone() }
                },
                _ => Action::Await,
            },
            Phase::ChangingDirectory => match event {
                Event::DirectoryChanged => {
                    let line = self.line.clone();
                    self.finish(LineResult::Success(line))
                },
                Event::ChangeFailed(f) => {
                    let line = self.line.clone();
                    self.finish(LineResult::Error(line, f))
                },
                _ => Action::Await,
            },
            Phase::Executing => match event {
                Event::Executed => {
                    self.phase = Phase::Rendering;
                    Action::Render
                },
                Event::ExecuteFailed(f) => {
                    let line = self.line.clone();
                    self.finish(LineResult::Error(line, f))
                },
                _ => Action::Await,
            },
            Phase::Rendering => match event {
                Event::Shown { interrupted } => if interrupted {
                    let line = self.line.clone();
                    self.finish(LineResult::Success(line))
                } else {
                    Action::Render
                },
                Event::ShownError(f) => {
                    let line = self.line.clone();
                    self.finish(LineResult::Error(line, f))
                },
                Event::OutputEnded => {
                    let line = self.line.clone();
                    self.finish(LineResult::Success(line))
                },
                _ => Action::Await,
            },
            Phase::Done => Action::Await,
        }
    }

    /// Where the line stands.
    pub fn phase(&self) -> (r: Phase)
        ensures
            r == self@.phase,
    {
        self.phase
    }

    /// The line being processed.
    pub fn line(&self) -> (r: &str)
        ensures
            r@ == self@.line,
    {
        self.line.as_str()
    }
}

} // verus!
