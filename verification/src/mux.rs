//! Stream multiplexer: the decision core of an execution session.
//!
//! A running child process offers four independent asynchronous event
//! sources: the HTTP request body (fed into the child's stdin), the
//! child's stdout and stderr pipes, and the reaper that reports the exit
//! status.  The surrounding runtime awaits whichever source is ready and
//! hands the outcome to [`MuxState::step`], which decides what to do:
//! write to or drop the child's stdin, forward a chunk to the response
//! stream, surface an error, or end the session.  All decisions live
//! here, fully verified; the runtime only performs the I/O it is told to.

use vstd::prelude::*;

verus! {

/// One readiness outcome of the four event sources.
///
/// Payloads arrive as plain values: chunk bytes, or the textual form of
/// an exit status or of an I/O error.  An empty `BodyRead` chunk means
/// the request body reached end of input; an empty `StdoutRead` or
/// `StderrRead` chunk means that pipe reached end of input (the session
/// still runs until the reaper reports).
pub enum MuxEvent {
    /// The reaper finished: the child exited with the given textual
    /// status, or waiting itself failed.
    ChildWait(Result<String, String>),
    /// The next chunk of the request body, or a read failure.
    BodyRead(Result<Vec<u8>, String>),
    /// The next chunk of the child's standard output, or a read failure.
    StdoutRead(Result<Vec<u8>, String>),
    /// The next chunk of the child's standard error, or a read failure.
    StderrRead(Result<Vec<u8>, String>),
    /// The stdin write requested by the previous step failed.
    StdinWriteFailed,
}

/// What the session hands to the response stream.
pub enum MuxOutput {
    /// A chunk of bytes forwarded to the client.
    Chunk(Vec<u8>),
    /// The textual form of an I/O failure; the stream ends after it.
    Fail(String),
}

/// What the caller must do to the child's stdin after a step.
pub enum StdinAction {
    /// Leave the stdin pipe as it is.
    Keep,
    /// Write these bytes to the stdin pipe.
    Write(Vec<u8>),
    /// Drop the stdin pipe, so the child observes end of input.
    Close,
}

/// Mathematical form of [`MuxEvent`].
pub enum EventV {
    /// Reaper outcome, as text.
    ChildWait(Result<Seq<char>, Seq<char>>),
    /// Request-body chunk or failure.
    BodyRead(Result<Seq<u8>, Seq<char>>),
    /// Stdout chunk or failure.
    StdoutRead(Result<Seq<u8>, Seq<char>>),
    /// Stderr chunk or failure.
    StderrRead(Result<Seq<u8>, Seq<char>>),
    /// A requested stdin write failed.
    StdinWriteFailed,
}

/// Mathematical form of [`MuxOutput`].
pub enum OutputV {
    /// Forwarded bytes.
    Chunk(Seq<u8>),
    /// Surfaced failure text.
    Fail(Seq<char>),
}

/// Mathematical form of [`StdinAction`].
pub enum ActionV {
    /// Leave stdin as it is.
    Keep,
    /// Write these bytes.
    Write(Seq<u8>),
    /// Drop the pipe.
    Close,
}

impl View for MuxEvent {
    type V = EventV;

    open spec fn view(&self) -> EventV {
        match self {
            MuxEvent::ChildWait(r) => EventV::ChildWait(
                match r {
                    Ok(s) => Ok(s@),
                    Err(e) => Err(e@),
                },
            ),
            MuxEvent::BodyRead(r) => EventV::BodyRead(
                match r {
                    Ok(b) => Ok(b@),
                    Err(e) => Err(e@),
                },
            ),
            MuxEvent::StdoutRead(r) => EventV::StdoutRead(
                match r {
                    Ok(b) => Ok(b@),
                    Err(e) => Err(e@),
                },
            ),
            MuxEvent::StderrRead(r) => EventV::StderrRead(
                match r {
                    Ok(b) => Ok(b@),
                    Err(e) => Err(e@),
                },
            ),
            MuxEvent::StdinWriteFailed => EventV::StdinWriteFailed,
        }
    }
}

impl View for MuxOutput {
    type V = OutputV;

    open spec fn view(&self) -> OutputV {
        match self {
            MuxOutput::Chunk(b) => OutputV::Chunk(b@),
            MuxOutput::Fail(e) => OutputV::Fail(e@),
        }
    }
}

impl View for StdinAction {
    type V = ActionV;

    open spec fn view(&self) -> ActionV {
        match self {
            StdinAction::Keep => ActionV::Keep,
            StdinAction::Write(b) => ActionV::Write(b@),
            StdinAction::Close => ActionV::Close,
        }
    }
}

/// The session state of one execution: whether the child's stdin pipe is
/// still held, whether a final status chunk is owed, and whether the
/// session has ended.
pub struct MuxState {
    /// The child's stdin pipe is still held by the session.
    pub stdin_open: bool,
    /// A final "Exit status" chunk is owed when the child exits cleanly.
    pub print_status: bool,
    /// The session has ended: the child was reaped or a failure was
    /// surfaced.  No further events are processed.
    pub terminated: bool,
}

/// The bytes of the final status chunk: the literal prefix followed by
/// the textual exit status.
pub open spec fn status_bytes(status: Seq<char>) -> Seq<u8> {
    vstd::utf8::encode_utf8("Exit status "@ + status)
}

/// The session state after processing one event.
pub open spec fn next_state(s: MuxState, e: EventV) -> MuxState {
    match e {
        EventV::ChildWait(_) => MuxState { terminated: true, ..s },
        EventV::BodyRead(r) => match r {
            Ok(b) => if b.len() == 0 {
                MuxState { stdin_open: false, ..s }
            } else {
                s
            },
            Err(_) => MuxState { terminated: true, ..s },
        },
        EventV::StdoutRead(r) => match r {
            Ok(_) => s,
            Err(_) => MuxState { terminated: true, ..s },
        },
        EventV::StderrRead(r) => match r {
            Ok(_) => s,
            Err(_) => MuxState { terminated: true, ..s },
        },
        EventV::StdinWriteFailed => MuxState { stdin_open: false, ..s },
    }
}

/// What one event asks the caller to do with the child's stdin.
///
/// Body bytes are written only while the pipe is held; end of input on
/// the body, or a failed write, drops the pipe, and a write failure is
/// not surfaced to the client.
pub open spec fn next_action(s: MuxState, e: EventV) -> ActionV {
    match e {
        EventV::BodyRead(r) => match r {
            Ok(b) => if !s.stdin_open {
                ActionV::Keep
            } else if b.len() == 0 {
                ActionV::Close
            } else {
                ActionV::Write(b)
            },
            Err(_) => ActionV::Keep,
        },
        EventV::StdinWriteFailed => if s.stdin_open {
            ActionV::Close
        } else {
            ActionV::Keep
        },
        _ => ActionV::Keep,
    }
}

/// What one event emits to the response stream.
///
/// Every stdout or stderr chunk is forwarded as it is; a read or wait
/// failure is surfaced once; a clean exit emits the status chunk when
/// one is owed.
pub open spec fn next_output(s: MuxState, e: EventV) -> Option<OutputV> {
    match e {
        EventV::ChildWait(r) => match r {
            Ok(status) => if s.print_status {
                Some(OutputV::Chunk(status_bytes(status)))
            } else {
                None
            },
            Err(msg) => Some(OutputV::Fail(msg)),
        },
        EventV::BodyRead(r) => match r {
            Ok(_) => None,
            Err(msg) => Some(OutputV::Fail(msg)),
        },
        EventV::StdoutRead(r) => match r {
            Ok(b) => Some(OutputV::Chunk(b)),
            Err(msg) => Some(OutputV::Fail(msg)),
        },
        EventV::StderrRead(r) => match r {
            Ok(b) => Some(OutputV::Chunk(b)),
            Err(msg) => Some(OutputV::Fail(msg)),
        },
        EventV::StdinWriteFailed => None,
    }
}

/// The session state after a whole sequence of events, processed while
/// the session still runs.
pub open spec fn run_state(s: MuxState, evs: Seq<EventV>) -> MuxState
    decreases evs.len(),
{
    if evs.len() == 0 || s.terminated {
        s
    } else {
        run_state(next_state(s, evs[0]), evs.drop_first())
    }
}

/// An optional output as a sequence of zero or one chunks.
pub open spec fn out_seq(o: Option<OutputV>) -> Seq<OutputV> {
    match o {
        Some(x) => seq![x],
        None => seq![],
    }
}

/// Everything a session emits to the response stream over a sequence of
/// events, in order, stopping once the session has terminated.
pub open spec fn run_outputs(s: MuxState, evs: Seq<EventV>) -> Seq<OutputV>
    decreases evs.len(),
{
    if evs.len() == 0 || s.terminated {
        seq![]
    } else {
        out_seq(next_output(s, evs[0])) + run_outputs(next_state(s, evs[0]), evs.drop_first())
    }
}

/// The bytes an action writes to the child's stdin.
pub open spec fn action_bytes(a: ActionV) -> Seq<u8> {
    match a {
        ActionV::Write(b) => b,
        _ => seq![],
    }
}

/// Everything a session writes to the child's stdin over a sequence of
/// events, concatenated in order.
pub open spec fn run_writes(s: MuxState, evs: Seq<EventV>) -> Seq<u8>
    decreases evs.len(),
{
    if evs.len() == 0 || s.terminated {
        seq![]
    } else {
        action_bytes(next_action(s, evs[0])) + run_writes(next_state(s, evs[0]), evs.drop_first())
    }
}

/// An event that neither ends the session nor is the reaper: a
/// successful read of the body or of one of the output pipes, or a
/// failed stdin write (which is swallowed).
pub open spec fn benign_event(e: EventV) -> bool {
    match e {
        EventV::ChildWait(_) => false,
        EventV::BodyRead(r) => r is Ok,
        EventV::StdoutRead(r) => r is Ok,
        EventV::StderrRead(r) => r is Ok,
        EventV::StdinWriteFailed => true,
    }
}

/// An execution in which nothing fails: every event before the last is
/// a successful read, and the last is the reaper with a clean wait.
pub open spec fn clean_run(evs: Seq<EventV>) -> bool {
    &&& evs.len() >= 1
    &&& (forall|i: int| 0 <= i < evs.len() - 1 ==> benign_event(#[trigger] evs[i]))
    &&& evs.last() matches EventV::ChildWait(r) && r is Ok
}

/// The chunks carried by the stdout and stderr events of a sequence, in
/// event order.
pub open spec fn read_chunks(evs: Seq<EventV>) -> Seq<OutputV>
    decreases evs.len(),
{
    if evs.len() == 0 {
        seq![]
    } else {
        (match evs[0] {
            EventV::StdoutRead(r) => match r {
                Ok(b) => seq![OutputV::Chunk(b)],
                Err(_) => seq![],
            },
            EventV::StderrRead(r) => match r {
                Ok(b) => seq![OutputV::Chunk(b)],
                Err(_) => seq![],
            },
            _ => seq![],
        }) + read_chunks(evs.drop_first())
    }
}

/// Total bytes carried by the chunks of an output sequence.
pub open spec fn out_bytes(outs: Seq<OutputV>) -> nat
    decreases outs.len(),
{
    if outs.len() == 0 {
        0
    } else {
        (match outs[0] {
            OutputV::Chunk(b) => b.len(),
            OutputV::Fail(_) => 0,
        }) + out_bytes(outs.drop_first())
    }
}

/// Total bytes carried by the stdout events of a sequence.
pub open spec fn stdout_bytes(evs: Seq<EventV>) -> nat
    decreases evs.len(),
{
    if evs.len() == 0 {
        0
    } else {
        (match evs[0] {
            EventV::StdoutRead(r) => match r {
                Ok(b) => b.len(),
                Err(_) => 0,
            },
            _ => 0,
        }) + stdout_bytes(evs.drop_first())
    }
}

/// Total bytes carried by the stderr events of a sequence.
pub open spec fn stderr_bytes(evs: Seq<EventV>) -> nat
    decreases evs.len(),
{
    if evs.len() == 0 {
        0
    } else {
        (match evs[0] {
            EventV::StderrRead(r) => match r {
                Ok(b) => b.len(),
                Err(_) => 0,
            },
            _ => 0,
        }) + stderr_bytes(evs.drop_first())
    }
}

/// The bytes carried by the body events of a sequence, concatenated in
/// order.
pub open spec fn body_bytes(evs: Seq<EventV>) -> Seq<u8>
    decreases evs.len(),
{
    if evs.len() == 0 {
        seq![]
    } else {
        (match evs[0] {
            EventV::BodyRead(r) => match r {
                Ok(b) => b,
                Err(_) => seq![],
            },
            _ => seq![],
        }) + body_bytes(evs.drop_first())
    }
}

/// In an execution in which nothing fails, what the client receives is
/// exactly the stdout and stderr chunks, in event order, followed by
/// the status chunk when one is owed.  In particular the relative order
/// of the stdout chunks is preserved, and the status chunk, if any, is
/// last.
pub proof fn lemma_outputs_are_the_reads(s: MuxState, evs: Seq<EventV>)
    requires
        !s.terminated,
        clean_run(evs),
    ensures
        run_outputs(s, evs) =~= read_chunks(evs.take(evs.len() - 1)) + (if s.print_status {
            seq![OutputV::Chunk(status_bytes(evs.last()->ChildWait_0->Ok_0))]
        } else {
            Seq::<OutputV>::empty()
        }),
    decreases evs.len(),
{
    let e = evs[0];
    let s1 = next_state(s, e);
    let rest = evs.drop_first();
    assert(run_outputs(s, evs) == out_seq(next_output(s, e)) + run_outputs(s1, rest));
    if evs.len() == 1 {
        assert(e == evs.last());
        assert(rest.len() == 0);
        assert(run_outputs(s1, rest) == Seq::<OutputV>::empty());
        assert(evs.take(0) =~= Seq::<EventV>::empty());
        assert(read_chunks(evs.take(0)) == Seq::<OutputV>::empty());
    } else {
        assert(benign_event(e));
        assert(!s1.terminated && s1.print_status == s.print_status);
        assert(clean_run(rest)) by {
            assert(forall|i: int|
                0 <= i < rest.len() - 1 ==> rest[i] == evs[i + 1] && benign_event(
                    #[trigger] evs[i + 1],
                ));
            assert(rest.last() == evs.last());
        }
        lemma_outputs_are_the_reads(s1, rest);
        let front = evs.take(evs.len() - 1);
        assert(rest.take(rest.len() - 1) =~= front.drop_first());
        assert(front[0] == e);
        assert(read_chunks(front) == (match front[0] {
            EventV::StdoutRead(r) => match r {
                Ok(b) => seq![OutputV::Chunk(b)],
                Err(_) => seq![],
            },
            EventV::StderrRead(r) => match r {
                Ok(b) => seq![OutputV::Chunk(b)],
                Err(_) => seq![],
            },
            _ => seq![],
        }) + read_chunks(front.drop_first()));
        assert(rest.last() == evs.last());
    }
}

/// Byte conservation over an execution in which nothing fails: the
/// total bytes the client receives equal the total bytes the child
/// wrote to stdout plus those it wrote to stderr, plus the status chunk
/// when one is owed.
pub proof fn lemma_byte_conservation(s: MuxState, evs: Seq<EventV>)
    requires
        !s.terminated,
        clean_run(evs),
    ensures
        out_bytes(run_outputs(s, evs)) == stdout_bytes(evs) + stderr_bytes(evs) + (if s.print_status {
            status_bytes(evs.last()->ChildWait_0->Ok_0).len()
        } else {
            0
        }),
    decreases evs.len(),
{
    let e = evs[0];
    let s1 = next_state(s, e);
    let rest = evs.drop_first();
    assert(run_outputs(s, evs) == out_seq(next_output(s, e)) + run_outputs(s1, rest));
    assert(stdout_bytes(evs) == (match e {
        EventV::StdoutRead(r) => match r {
            Ok(b) => b.len(),
            Err(_) => 0,
        },
        _ => 0,
    }) + stdout_bytes(rest));
    assert(stderr_bytes(evs) == (match e {
        EventV::StderrRead(r) => match r {
            Ok(b) => b.len(),
            Err(_) => 0,
        },
        _ => 0,
    }) + stderr_bytes(rest));
    let head = out_seq(next_output(s, e));
    let tail = run_outputs(s1, rest);
    lemma_out_bytes_add(head, tail);
    if head.len() == 1 {
        assert(out_bytes(head) == (match head[0] {
            OutputV::Chunk(b) => b.len(),
            OutputV::Fail(_) => 0,
        }) + out_bytes(head.drop_first()));
        assert(head.drop_first() =~= Seq::<OutputV>::empty());
        assert(out_bytes(Seq::<OutputV>::empty()) == 0);
    }
    if evs.len() == 1 {
        assert(e == evs.last());
        assert(rest.len() == 0);
        assert(run_outputs(s1, rest) == Seq::<OutputV>::empty());
        assert(out_bytes(Seq::<OutputV>::empty()) == 0);
        assert(stdout_bytes(rest) == 0 && stderr_bytes(rest) == 0);
    } else {
        assert(benign_event(e));
        assert(clean_run(rest)) by {
            assert(forall|i: int|
                0 <= i < rest.len() - 1 ==> rest[i] == evs[i + 1] && benign_event(
                    #[trigger] evs[i + 1],
                ));
            assert(rest.last() == evs.last());
        }
        lemma_byte_conservation(s1, rest);
        assert(rest.last() == evs.last());
    }
}

/// Total chunk bytes split over a concatenation of output sequences.
pub proof fn lemma_out_bytes_add(a: Seq<OutputV>, b: Seq<OutputV>)
    ensures
        out_bytes(a + b) == out_bytes(a) + out_bytes(b),
    decreases a.len(),
{
    if a.len() == 0 {
        assert(a + b =~= b);
    } else {
        lemma_out_bytes_add(a.drop_first(), b);
        assert((a + b).drop_first() =~= a.drop_first() + b);
        assert((a + b)[0] == a[0]);
    }
}

/// While the session runs with its stdin pipe held, every body chunk is
/// written to the child's stdin, and nothing else is: over a run in
/// which nothing fails, no write fails, and the body never reaches end
/// of input, the child receives the exact concatenation of the body
/// chunks.
pub proof fn lemma_stdin_receives_body(s: MuxState, evs: Seq<EventV>)
    requires
        !s.terminated,
        s.stdin_open,
        clean_run(evs),
        forall|i: int|
            0 <= i < evs.len() - 1 ==> !(#[trigger] evs[i] is StdinWriteFailed) && (evs[i] matches
            EventV::BodyRead(r) ==> r matches Ok(b) && b.len() > 0),
    ensures
        run_writes(s, evs) =~= body_bytes(evs),
    decreases evs.len(),
{
    let e = evs[0];
    let s1 = next_state(s, e);
    let rest = evs.drop_first();
    assert(run_writes(s, evs) == action_bytes(next_action(s, e)) + run_writes(s1, rest));
    assert(body_bytes(evs) == (match e {
        EventV::BodyRead(r) => match r {
            Ok(b) => b,
            Err(_) => seq![],
        },
        _ => seq![],
    }) + body_bytes(rest));
    if evs.len() == 1 {
        assert(e == evs.last());
        assert(rest.len() == 0);
        assert(run_writes(s1, rest) == Seq::<u8>::empty());
        assert(body_bytes(rest) == Seq::<u8>::empty());
    } else {
        assert(benign_event(e));
        assert(s1.stdin_open && !s1.terminated);
        assert(clean_run(rest)) by {
            assert(forall|i: int|
                0 <= i < rest.len() - 1 ==> rest[i] == evs[i + 1] && benign_event(
                    #[trigger] evs[i + 1],
                ));
            assert(rest.last() == evs.last());
        }
        assert(forall|i: int|
            0 <= i < rest.len() - 1 ==> rest[i] == evs[i + 1] && !(#[trigger] rest[i] is StdinWriteFailed)
                && (rest[i] matches EventV::BodyRead(r) ==> r matches Ok(b) && b.len() > 0));
        lemma_stdin_receives_body(s1, rest);
    }
}

/// The failure text an event carries, if it is a failed read or a
/// failed wait.
pub open spec fn event_failure(e: EventV) -> Option<Seq<char>> {
    match e {
        EventV::ChildWait(r) => match r {
            Ok(_) => None,
            Err(m) => Some(m),
        },
        EventV::BodyRead(r) => match r {
            Ok(_) => None,
            Err(m) => Some(m),
        },
        EventV::StdoutRead(r) => match r {
            Ok(_) => None,
            Err(m) => Some(m),
        },
        EventV::StderrRead(r) => match r {
            Ok(_) => None,
            Err(m) => Some(m),
        },
        EventV::StdinWriteFailed => None,
    }
}

/// A failed read or wait ends the stream: its text is surfaced once,
/// and nothing follows it, whatever events come after.
pub proof fn lemma_failure_ends_stream(s: MuxState, e: EventV, rest: Seq<EventV>)
    requires
        !s.terminated,
        event_failure(e) is Some,
    ensures
        run_outputs(s, seq![e] + rest) =~= seq![OutputV::Fail(event_failure(e)->Some_0)],
{
    let evs = seq![e] + rest;
    assert(evs[0] == e);
    assert(evs.drop_first() =~= rest);
    assert(next_state(s, e).terminated);
    assert(run_outputs(next_state(s, e), rest) == Seq::<OutputV>::empty());
    assert(run_outputs(s, evs) == out_seq(next_output(s, e)) + run_outputs(next_state(s, e), rest));
}

/// Once the stdin pipe has been dropped it is never taken up again: no
/// sequence of events reopens it.
pub proof fn lemma_stdin_never_reopens(s: MuxState, evs: Seq<EventV>)
    requires
        !s.stdin_open,
    ensures
        !run_state(s, evs).stdin_open,
    decreases evs.len(),
{
    if evs.len() == 0 || s.terminated {
    } else {
        lemma_stdin_never_reopens(next_state(s, evs[0]), evs.drop_first());
    }
}

/// What the client receives does not depend on whether the stdin pipe
/// is still held: a child that never reads its stdin still has all its
/// output forwarded after the body is closed.
pub proof fn lemma_outputs_ignore_stdin(s1: MuxState, s2: MuxState, evs: Seq<EventV>)
    requires
        s1.print_status == s2.print_status,
        s1.terminated == s2.terminated,
    ensures
        run_outputs(s1, evs) =~= run_outputs(s2, evs),
    decreases evs.len(),
{
    if evs.len() == 0 || s1.terminated {
    } else {
        let e = evs[0];
        assert(next_output(s1, e) == next_output(s2, e));
        lemma_outputs_ignore_stdin(next_state(s1, e), next_state(s2, e), evs.drop_first());
    }
}

impl MuxState {
    /// A fresh session: stdin held, not yet terminated.
    pub fn new(print_status: bool) -> (s: Self)
        ensures
            s == (MuxState { stdin_open: true, print_status, terminated: false }),
    {
        MuxState { stdin_open: true, print_status, terminated: false }
    }

    /// Process one event: update the session state and return the stdin
    /// action the caller must perform and the output chunk (if any) it
    /// must send, in that order.
    pub fn step(&mut self, event: MuxEvent) -> (r: (StdinAction, Option<MuxOutput>))
        requires
            !old(self).terminated,
        ensures
            *final(self) == next_state(*old(self), event@),
            r.0@ == next_action(*old(self), event@),
            (match r.1 {
                Some(o) => next_output(*old(self), event@) == Some(o@),
                None => next_output(*old(self), event@) is None,
            }),
    {
        match event {
            MuxEvent::ChildWait(res) => {
                self.terminated = true;
                match res {
                    Ok(status) => {
                        if self.print_status {
                            let text = String::from_str("Exit status ").concat(status.as_str());
                            let bytes = text.as_str().as_bytes_vec();
                            (StdinAction::Keep, Some(MuxOutput::Chunk(bytes)))
                        } else {
                            (StdinAction::Keep, None)
                        }
                    },
                    Err(msg) => (StdinAction::Keep, Some(MuxOutput::Fail(msg))),
                }
            },
            MuxEvent::BodyRead(res) => {
                match res {
                    Ok(bytes) => {
                        if !self.stdin_open {
                            (StdinAction::Keep, None)
                        } else if bytes.len() == 0 {
                            self.stdin_open = false;
                            (StdinAction::Close, None)
                        } else {
                            (StdinAction::Write(bytes), None)
                        }
                    },
                    Err(msg) => {
                        self.terminated = true;
                        (StdinAction::Keep, Some(MuxOutput::Fail(msg)))
                    },
                }
            },
            MuxEvent::StdoutRead(res) => {
                match res {
                    Ok(bytes) => (StdinAction::Keep, Some(MuxOutput::Chunk(bytes))),
                    Err(msg) => {
                        self.terminated = true;
                        (StdinAction::Keep, Some(MuxOutput::Fail(msg)))
                    },
                }
            },
            MuxEvent::StderrRead(res) => {
                match res {
                    Ok(bytes) => (StdinAction::Keep, Some(MuxOutput::Chunk(bytes))),
                    Err(msg) => {
                        self.terminated = true;
                        (StdinAction::Keep, Some(MuxOutput::Fail(msg)))
                    },
                }
            },
            MuxEvent::StdinWriteFailed => {
                if self.stdin_open {
                    self.stdin_open = false;
                    (StdinAction::Close, None)
                } else {
                    (StdinAction::Keep, None)
                }
            },
        }
    }
}

} // verus!
