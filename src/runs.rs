//! Whole runs of the line processor against a sequence of collaborator
//! answers, and what holds of them.
use vstd::prelude::*;
use crate::outcome::LineResultView;
use crate::processor::{
    input_for, start, transition, ActionView, Event, Phase, ProcessorView,
};
use crate::shortcut::{shortcut_name, ParsedPipeline};
use crate::text::{chomp, is_blank_text};

verus! {

/// The kinds of work the processor asks of its collaborators.
pub enum Request {
    Parse,
    Resolve,
    CheckExternal,
    ChangeDirectory,
    Execute,
    Render,
}

/// Whether action `a` is a request of kind `k`.
pub open spec fn asks<E>(a: ActionView<E>, k: Request) -> bool {
    match k {
        Request::Parse => a is Parse,
        Request::Resolve => a is Resolve,
        Request::CheckExternal => a is CheckExternal,
        Request::ChangeDirectory => a is ChangeDirectory,
        Request::Execute => a is Execute,
        Request::Render => a is Render,
    }
}

/// How many of `acts` are requests of kind `k`.
pub open spec fn count_requests<E>(acts: Seq<ActionView<E>>, k: Request) -> nat
    decreases acts.len(),
{
    if acts.len() == 0 {
        0
    } else {
        (if asks(acts[0], k) { 1nat } else { 0nat }) + count_requests(acts.drop_first(), k)
    }
}

/// The state reached from `p` on `events`, and the request made on each.
pub open spec fn run<E>(p: ProcessorView, events: Seq<Event<E>>) -> (ProcessorView, Seq<ActionView<E>>)
    decreases events.len(),
{
    if events.len() == 0 {
        (p, Seq::empty())
    } else {
        let (q, a) = transition(p, events[0]);
        let (r, rest) = run(q, events.drop_first());
        (r, seq![a] + rest)
    }
}

/// Every request made while processing `text` from `process_buffer` on, the
/// first one included, when the collaborators answer with `events` in turn.
pub open spec fn session<E>(
    text: Seq<char>,
    redirect_stdin: bool,
    offset: usize,
    cli_mode: bool,
    events: Seq<Event<E>>,
) -> Seq<ActionView<E>> {
    let (p, a) = start::<E>(text, redirect_stdin, offset, cli_mode);
    seq![a] + run(p, events).1
}

proof fn lemma_count_cons<E>(a: ActionView<E>, acts: Seq<ActionView<E>>, k: Request)
    ensures
        count_requests(seq![a] + acts, k) == (if asks(a, k) { 1nat } else { 0nat })
            + count_requests(acts, k),
{
    let s = seq![a] + acts;
    assert(s[0] == a);
    assert(s.drop_first() =~= acts);
}

proof fn lemma_count_positive<E>(acts: Seq<ActionView<E>>, i: int, k: Request)
    requires
        0 <= i < acts.len(),
        asks(acts[i], k),
    ensures
        count_requests(acts, k) >= 1,
    decreases acts.len(),
{
    if i > 0 {
        lemma_count_positive(acts.drop_first(), i - 1, k);
    }
}

proof fn lemma_run_cons<E>(p: ProcessorView, e: Event<E>, events: Seq<Event<E>>)
    ensures
        run(p, seq![e] + events) == ({
            let (q, a) = transition(p, e);
            (run(q, events).0, seq![a] + run(q, events).1)
        }),
{
    let s = seq![e] + events;
    assert(s[0] == e);
    assert(s.drop_first() =~= events);
}

/// Once done, a processor stays done and asks for nothing more.
proof fn lemma_done_is_quiet<E>(p: ProcessorView, events: Seq<Event<E>>)
    requires
        p.phase == Phase::Done,
    ensures
        run(p, events).1.len() == events.len(),
        forall|i: int| 0 <= i < events.len() ==> run(p, events).1[i] == ActionView::<E>::Await,
    decreases events.len(),
{
    if events.len() > 0 {
        lemma_done_is_quiet(p, events.drop_first());
    }
}

proof fn lemma_awaits_count_nothing<E>(acts: Seq<ActionView<E>>, k: Request)
    requires
        forall|i: int| 0 <= i < acts.len() ==> acts[i] == ActionView::<E>::Await,
    ensures
        count_requests(acts, k) == 0,
    decreases acts.len(),
{
    if acts.len() > 0 {
        lemma_awaits_count_nothing(acts.drop_first(), k);
    }
}

/// From a finished processor, no request of any kind follows.
proof fn lemma_done_requests_nothing<E>(p: ProcessorView, events: Seq<Event<E>>, k: Request)
    requires
        p.phase == Phase::Done,
    ensures
        count_requests(run(p, events).1, k) == 0,
{
    lemma_done_is_quiet(p, events);
    lemma_awaits_count_nothing(run(p, events).1, k);
}

/// Whether, in phase `ph`, the processor has yet to choose between changing
/// directory and executing.
pub open spec fn undecided(ph: Phase) -> bool {
    ph == Phase::Parsing || ph == Phase::Resolving || ph == Phase::CheckingExternal
}

proof fn lemma_at_most_one_way<E>(p: ProcessorView, events: Seq<Event<E>>)
    ensures
        count_requests(run(p, events).1, Request::Parse) == 0,
        count_requests(run(p, events).1, Request::ChangeDirectory) + count_requests(
            run(p, events).1,
            Request::Execute,
        ) <= if undecided(p.phase) { 1nat } else { 0nat },
    decreases events.len(),
{
    if events.len() > 0 {
        let (q, a) = transition(p, events[0]);
        let tail = run(q, events.drop_first()).1;
        lemma_at_most_one_way(q, events.drop_first());
        lemma_count_cons(a, tail, Request::Parse);
        lemma_count_cons(a, tail, Request::ChangeDirectory);
        lemma_count_cons(a, tail, Request::Execute);
    }
}

/// Each line is parsed at most once, and it either changes directory or
/// executes a pipeline, never both, and either at most once.
pub proof fn one_evaluation_per_line<E>(
    text: Seq<char>,
    redirect_stdin: bool,
    offset: usize,
    cli_mode: bool,
    events: Seq<Event<E>>,
)
    ensures
        count_requests(session(text, redirect_stdin, offset, cli_mode, events), Request::Parse)
            <= 1,
        count_requests(
            session(text, redirect_stdin, offset, cli_mode, events),
            Request::ChangeDirectory,
        ) + count_requests(
            session(text, redirect_stdin, offset, cli_mode, events),
            Request::Execute,
        ) <= 1,
{
    let (p, a) = start::<E>(text, redirect_stdin, offset, cli_mode);
    lemma_at_most_one_way(p, events);
    lemma_count_cons(a, run(p, events).1, Request::Parse);
    lemma_count_cons(a, run(p, events).1, Request::ChangeDirectory);
    lemma_count_cons(a, run(p, events).1, Request::Execute);
}

proof fn lemma_no_shortcut<E>(p: ProcessorView, events: Seq<Event<E>>)
    requires
        !p.cli_mode,
        p.phase != Phase::Resolving,
        p.phase != Phase::CheckingExternal,
        p.phase != Phase::ChangingDirectory,
    ensures
        count_requests(run(p, events).1, Request::ChangeDirectory) == 0,
    decreases events.len(),
{
    if events.len() > 0 {
        let (q, a) = transition(p, events[0]);
        lemma_no_shortcut(q, events.drop_first());
        lemma_count_cons(a, run(q, events.drop_first()).1, Request::ChangeDirectory);
    }
}

/// Outside interactive mode a bare directory name is never taken as a change
/// of directory: whatever the collaborators answer, no change is requested,
/// and a line that is not blank is handed to the parser.
pub proof fn no_shortcut_outside_cli_mode<E>(
    text: Seq<char>,
    redirect_stdin: bool,
    offset: usize,
    events: Seq<Event<E>>,
)
    ensures
        count_requests(session(text, redirect_stdin, offset, false, events), Request::ChangeDirectory)
            == 0,
        !is_blank_text(text) ==> session(text, redirect_stdin, offset, false, events)[0]
            == (ActionView::<E>::Parse { line: chomp(text), offset }),
{
    let (p, a) = start::<E>(text, redirect_stdin, offset, false);
    lemma_no_shortcut(p, events);
    lemma_count_cons(a, run(p, events).1, Request::ChangeDirectory);
}

/// A line of white space alone is finished at once, as it was typed, and
/// the parser is never asked for, whatever the collaborators would answer.
pub proof fn blank_line_is_never_parsed<E>(
    text: Seq<char>,
    redirect_stdin: bool,
    offset: usize,
    cli_mode: bool,
    events: Seq<Event<E>>,
)
    requires
        is_blank_text(text),
    ensures
        session(text, redirect_stdin, offset, cli_mode, events)[0] == ActionView::<E>::Finish(
            LineResultView::Success(text),
        ),
        count_requests(session(text, redirect_stdin, offset, cli_mode, events), Request::Parse)
            == 0,
        count_requests(session(text, redirect_stdin, offset, cli_mode, events), Request::Execute)
            == 0,
{
    let (p, a) = start::<E>(text, redirect_stdin, offset, cli_mode);
    lemma_done_requests_nothing(p, events, Request::Parse);
    lemma_done_requests_nothing(p, events, Request::Execute);
    lemma_count_cons(a, run(p, events).1, Request::Parse);
    lemma_count_cons(a, run(p, events).1, Request::Execute);
}

/// In interactive mode, a line that parses to a bare name which resolves to
/// a directory and is not the name of an external command changes into that
/// directory exactly once, runs no pipeline, and succeeds.
pub proof fn bare_directory_changes_directory<E>(
    text: Seq<char>,
    redirect_stdin: bool,
    offset: usize,
    pipeline: ParsedPipeline,
    rest: Seq<Event<E>>,
)
    requires
        !is_blank_text(text),
        shortcut_name(pipeline) is Some,
    ensures
        ({
            let acts = session(
                text,
                redirect_stdin,
                offset,
                true,
                seq![
                    Event::Parsed(pipeline),
                    Event::Resolved { is_dir: true },
                    Event::ExternalChecked { registered: false },
                    Event::DirectoryChanged,
                ] + rest,
            );
            &&& count_requests(acts, Request::ChangeDirectory) == 1
            &&& count_requests(acts, Request::Execute) == 0
            &&& acts[3] == ActionView::<E>::ChangeDirectory { name: shortcut_name(pipeline)->0 }
            &&& acts[4] == ActionView::<E>::Finish(LineResultView::Success(chomp(text)))
        }),
{
    let e0 = Event::<E>::Parsed(pipeline);
    let e1 = Event::<E>::Resolved { is_dir: true };
    let e2 = Event::<E>::ExternalChecked { registered: false };
    let e3 = Event::<E>::DirectoryChanged;
    let events = seq![e0, e1, e2, e3] + rest;
    let (st0, a0) = start::<E>(text, redirect_stdin, offset, true);
    let (st1, a1) = transition(st0, e0);
    let (st2, a2) = transition(st1, e1);
    let (st3, a3) = transition(st2, e2);
    let (st4, a4) = transition(st3, e3);
    let tail = run(st4, rest).1;
    assert(events =~= seq![e0] + (seq![e1] + (seq![e2] + (seq![e3] + rest))));
    lemma_run_cons(st3, e3, rest);
    lemma_run_cons(st2, e2, seq![e3] + rest);
    lemma_run_cons(st1, e1, seq![e2] + (seq![e3] + rest));
    lemma_run_cons(st0, e0, seq![e1] + (seq![e2] + (seq![e3] + rest)));
    let acts = seq![a0] + (seq![a1] + (seq![a2] + (seq![a3] + (seq![a4] + tail))));
    assert(session(text, redirect_stdin, offset, true, events) == acts);
    assert(acts[3] == a3);
    assert(acts[4] == a4);
    one_evaluation_per_line(text, redirect_stdin, offset, true, events);
    lemma_count_positive(acts, 3, Request::ChangeDirectory);
}

/// In the same setting, but with an external command registered under the
/// name, the directory is never changed: the parsed block is executed.
pub proof fn shadowed_directory_runs_pipeline<E>(
    text: Seq<char>,
    redirect_stdin: bool,
    offset: usize,
    pipeline: ParsedPipeline,
    rest: Seq<Event<E>>,
)
    requires
        !is_blank_text(text),
        shortcut_name(pipeline) is Some,
    ensures
        ({
            let acts = session(
                text,
                redirect_stdin,
                offset,
                true,
                seq![
                    Event::Parsed(pipeline),
                    Event::Resolved { is_dir: true },
                    Event::ExternalChecked { registered: true },
                ] + rest,
            );
            &&& count_requests(acts, Request::ChangeDirectory) == 0
            &&& acts[3] == ActionView::<E>::Execute { input: input_for(redirect_stdin) }
        }),
{
    let e0 = Event::<E>::Parsed(pipeline);
    let e1 = Event::<E>::Resolved { is_dir: true };
    let e2 = Event::<E>::ExternalChecked { registered: true };
    let events = seq![e0, e1, e2] + rest;
    let (st0, a0) = start::<E>(text, redirect_stdin, offset, true);
    let (st1, a1) = transition(st0, e0);
    let (st2, a2) = transition(st1, e1);
    let (st3, a3) = transition(st2, e2);
    let tail = run(st3, rest).1;
    assert(events =~= seq![e0] + (seq![e1] + (seq![e2] + rest)));
    lemma_run_cons(st2, e2, rest);
    lemma_run_cons(st1, e1, seq![e2] + rest);
    lemma_run_cons(st0, e0, seq![e1] + (seq![e2] + rest));
    let acts = seq![a0] + (seq![a1] + (seq![a2] + (seq![a3] + tail)));
    assert(session(text, redirect_stdin, offset, true, events) == acts);
    assert(acts[3] == a3);
    one_evaluation_per_line(text, redirect_stdin, offset, true, events);
    lemma_count_positive(acts, 3, Request::Execute);
}

/// When the parser rejects a line that is not blank, the line is finished
/// with that failure and the executor is never asked for.
pub proof fn parse_failure_is_reported<E>(
    text: Seq<char>,
    redirect_stdin: bool,
    offset: usize,
    cli_mode: bool,
    failure: E,
    rest: Seq<Event<E>>,
)
    requires
        !is_blank_text(text),
    ensures
        ({
            let acts = session(
                text,
                redirect_stdin,
                offset,
                cli_mode,
                seq![Event::ParseFailed(failure)] + rest,
            );
            &&& count_requests(acts, Request::Execute) == 0
            &&& acts[1] == ActionView::Finish(LineResultView::Error(chomp(text), failure))
        }),
{
    let e0 = Event::<E>::ParseFailed(failure);
    let (st0, a0) = start::<E>(text, redirect_stdin, offset, cli_mode);
    let (st1, a1) = transition(st0, e0);
    let tail = run(st1, rest).1;
    lemma_done_requests_nothing(st1, rest, Request::Execute);
    lemma_run_cons(st0, e0, rest);
    let acts = seq![a0] + (seq![a1] + tail);
    assert(session(text, redirect_stdin, offset, cli_mode, seq![e0] + rest) == acts);
    lemma_count_cons(a1, tail, Request::Execute);
    lemma_count_cons(a0, seq![a1] + tail, Request::Execute);
}

/// While rendering, values keep being pulled as long as the interrupt flag
/// reads clear; at the first value after which it reads set, rendering stops
/// and the line succeeds, and nothing more is pulled.
pub proof fn interrupt_stops_rendering<E>(p: ProcessorView, events: Seq<Event<E>>, k: nat)
    requires
        p.phase == Phase::Rendering,
        k < events.len(),
        forall|i: int| 0 <= i < k ==> events[i] == (Event::<E>::Shown { interrupted: false }),
        events[k as int] == (Event::<E>::Shown { interrupted: true }),
    ensures
        run(p, events).1.len() == events.len(),
        forall|i: int| 0 <= i < k ==> run(p, events).1[i] == ActionView::<E>::Render,
        run(p, events).1[k as int] == ActionView::<E>::Finish(LineResultView::Success(p.line)),
        forall|i: int| k < i < events.len() ==> run(p, events).1[i] == ActionView::<E>::Await,
    decreases k,
{
    let (q, a) = transition(p, events[0]);
    lemma_run_cons(p, events[0], events.drop_first());
    assert(events =~= seq![events[0]] + events.drop_first());
    if k == 0 {
        assert(q.phase == Phase::Done);
        lemma_done_is_quiet(q, events.drop_first());
    } else {
        assert(q == p);
        let rest = events.drop_first();
        assert forall|i: int| 0 <= i < k - 1 implies rest[i] == Event::<E>::Shown {
            interrupted: false,
        } by {
            assert(rest[i] == events[i + 1]);
        }
        interrupt_stops_rendering(p, rest, (k - 1) as nat);
    }
}

} // verus!
