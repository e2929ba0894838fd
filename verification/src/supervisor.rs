//! The supervisor's delivery point: two concurrent readers, one per child
//! output stream, feed a single totally ordered log of tagged lines, and
//! the relay consumes that log in arrival order, each event exactly once.
//! The OS pipes, the reader threads and the relay sink live outside this
//! crate; this module is the one place where ordering, stream ends and
//! teardown are decided.

use vstd::prelude::*;

verus! {

/// Which output stream of the child a line arrived on.
#[derive(Clone, Copy, Debug, PartialEq, Eq, Structural)]
pub enum StreamId {
    Stdout,
    Stderr,
}

/// How a stream's relay ended.
#[derive(Clone, Copy, Debug, PartialEq, Eq, Structural)]
pub enum StreamEnd {
    /// Clean end of file: the child closed the stream or exited.
    Eof,
    /// An unexpected read failure. It ends this stream's relay only; the
    /// other stream and the child are unaffected.
    ReadError,
}

/// One line of child output, tagged with the stream it arrived on.
pub struct LogEvent {
    pub stream: StreamId,
    pub line: String,
}

/// Mathematical shadow of `LogEvent`.
pub struct EventModel {
    pub stream: StreamId,
    pub line: Seq<char>,
}

impl View for LogEvent {
    type V = EventModel;

    open spec fn view(&self) -> EventModel {
        EventModel { stream: self.stream, line: self.line@ }
    }
}

impl LogEvent {
    /// An owned copy, field for field.
    pub fn duplicate(&self) -> (r: LogEvent)
        ensures
            r@ == self@,
    {
        LogEvent { stream: self.stream, line: self.line.clone() }
    }
}

/// How many events of `log` carry the tag `sid`.
pub open spec fn stream_count(log: Seq<EventModel>, sid: StreamId) -> nat
    decreases log.len(),
{
    if log.len() == 0 {
        0
    } else {
        stream_count(log.drop_last(), sid) + if log.last().stream == sid {
            1nat
        } else {
            0nat
        }
    }
}

/// Every event carries one of the two tags, so a run that read N stdout
/// lines and M stderr lines ends with a combined log of exactly N + M
/// events.
pub proof fn lemma_stream_counts_partition(log: Seq<EventModel>)
    ensures
        stream_count(log, StreamId::Stdout) + stream_count(log, StreamId::Stderr) == log.len(),
    decreases log.len(),
{
    if log.len() > 0 {
        lemma_stream_counts_partition(log.drop_last());
    }
}

/// Observable state of the supervisor's delivery point.
pub struct SupervisorModel {
    /// Every line read so far, in arrival order.
    pub log: Seq<EventModel>,
    /// How many log entries were already handed to the relay.
    pub relayed: int,
    /// How the stdout relay ended, if it has.
    pub stdout_end: Option<StreamEnd>,
    /// How the stderr relay ended, if it has.
    pub stderr_end: Option<StreamEnd>,
}

/// How the relay of `sid` ended in `m`, if it has.
pub open spec fn end_of(m: SupervisorModel, sid: StreamId) -> Option<StreamEnd> {
    match sid {
        StreamId::Stdout => m.stdout_end,
        StreamId::Stderr => m.stderr_end,
    }
}

/// No further event can arrive: both streams have ended.
pub open spec fn closed_model(m: SupervisorModel) -> bool {
    m.stdout_end is Some && m.stderr_end is Some
}

/// What teardown does to the observable state: both streams end (cleanly,
/// if they were still open), and the log and the relay cursor are kept.
pub open spec fn terminated_model(m: SupervisorModel) -> SupervisorModel {
    SupervisorModel {
        log: m.log,
        relayed: m.relayed,
        stdout_end: if m.stdout_end is Some {
            m.stdout_end
        } else {
            Some(StreamEnd::Eof)
        },
        stderr_end: if m.stderr_end is Some {
            m.stderr_end
        } else {
            Some(StreamEnd::Eof)
        },
    }
}

/// Tearing down leaves a closed supervisor, loses no buffered event, and
/// is idempotent: tearing down twice is the same as once.
pub proof fn lemma_terminate_idempotent(m: SupervisorModel)
    ensures
        closed_model(terminated_model(m)),
        terminated_model(m).log == m.log,
        terminated_model(m).relayed == m.relayed,
        terminated_model(terminated_model(m)) == terminated_model(m),
{
}

/// The supervisor's delivery point: every line read from either stream
/// joins one ordered log and is handed onward exactly once, in order.
pub struct Supervisor {
    events: Vec<LogEvent>,
    relayed: usize,
    stdout_end: Option<StreamEnd>,
    stderr_end: Option<StreamEnd>,
}

impl View for Supervisor {
    type V = SupervisorModel;

    closed spec fn view(&self) -> SupervisorModel {
        SupervisorModel {
            log: self.events@.map(|i: int, e: LogEvent| e@),
            relayed: self.relayed as int,
            stdout_end: self.stdout_end,
            stderr_end: self.stderr_end,
        }
    }
}

impl Supervisor {
    /// The relay never runs ahead of arrival.
    pub open spec fn wf(self) -> bool {
        0 <= self@.relayed <= self@.log.len()
    }

    /// A fresh delivery point for a just-spawned child: nothing read,
    /// nothing relayed, both streams open.
    pub fn new() -> (s: Supervisor)
        ensures
            s.wf(),
            s@.log == Seq::<EventModel>::empty(),
            s@.relayed == 0,
            s@.stdout_end is None,
            s@.stderr_end is None,
    {
        let s = Supervisor { events: Vec::new(), relayed: 0, stdout_end: None, stderr_end: None };
        proof {
            assert(s@.log =~= Seq::<EventModel>::empty());
        }
        s
    }

    /// One line arrived on `stream`: append it, tagged, to the log. Only
    /// an open stream can produce a line.
    pub fn record_line(&mut self, stream: StreamId, line: String)
        requires
            old(self).wf(),
            end_of(old(self)@, stream) is None,
        ensures
            final(self).wf(),
            final(self)@.log == old(self)@.log.push(EventModel { stream, line: line@ }),
            final(self)@.relayed == old(self)@.relayed,
            final(self)@.stdout_end == old(self)@.stdout_end,
            final(self)@.stderr_end == old(self)@.stderr_end,
            stream_count(final(self)@.log, stream) == stream_count(old(self)@.log, stream) + 1,
            forall|other: StreamId|
                other != stream ==> stream_count(final(self)@.log, other) == stream_count(
                    old(self)@.log,
                    other,
                ),
    {
        let ghost prior = self@.log;
        let ghost ev = EventModel { stream, line: line@ };
        self.events.push(LogEvent { stream, line });
        proof {
            assert(self@.log =~= prior.push(ev));
            assert(self@.log.drop_last() =~= prior);
            assert forall|sid: StreamId|
                stream_count(self@.log, sid) == stream_count(prior, sid) + (if sid == stream {
                    1nat
                } else {
                    0nat
                }) by {
                assert(self@.log.last() == ev);
            }
        }
    }

    /// The relay of `stream` ends, cleanly or on a read failure. The
    /// other stream, the log and the relay cursor are untouched.
    pub fn end_stream(&mut self, stream: StreamId, how: StreamEnd)
        requires
            old(self).wf(),
            end_of(old(self)@, stream) is None,
        ensures
            final(self).wf(),
            final(self)@.log == old(self)@.log,
            final(self)@.relayed == old(self)@.relayed,
            end_of(final(self)@, stream) == Some(how),
            forall|other: StreamId|
                other != stream ==> end_of(final(self)@, other) == end_of(old(self)@, other),
    {
        match stream {
            StreamId::Stdout => {
                self.stdout_end = Some(how);
            },
            StreamId::Stderr => {
                self.stderr_end = Some(how);
            },
        }
    }

    /// Tear the supervisor down: after the child is killed both pipes
    /// close, so both streams end; buffered events stay deliverable.
    /// Idempotent if the streams already ended.
    pub fn terminate(&mut self)
        requires
            old(self).wf(),
        ensures
            final(self).wf(),
            final(self)@ == terminated_model(old(self)@),
    {
        if self.stdout_end.is_none() {
            self.stdout_end = Some(StreamEnd::Eof);
        }
        if self.stderr_end.is_none() {
            self.stderr_end = Some(StreamEnd::Eof);
        }
    }

    /// Whether the event sequence has ended: both streams done and every
    /// buffered event relayed.
    pub fn is_drained(&self) -> (r: bool)
        requires
            self.wf(),
        ensures
            r == (closed_model(self@) && self@.relayed == self@.log.len()),
    {
        self.stdout_end.is_some() && self.stderr_end.is_some() && self.relayed == self.events.len()
    }

    /// Whether `stream` can still produce lines.
    pub fn stream_is_open(&self, stream: StreamId) -> (r: bool)
        ensures
            r == (end_of(self@, stream) is None),
    {
        match stream {
            StreamId::Stdout => self.stdout_end.is_none(),
            StreamId::Stderr => self.stderr_end.is_none(),
        }
    }

    /// Whether both streams have ended.
    pub fn is_closed(&self) -> (r: bool)
        ensures
            r == closed_model(self@),
    {
        self.stdout_end.is_some() && self.stderr_end.is_some()
    }

    /// Hand the next buffered event to the relay: events leave exactly in
    /// arrival order, each exactly once.
    pub fn take_next(&mut self) -> (r: Option<LogEvent>)
        requires
            old(self).wf(),
        ensures
            final(self).wf(),
            final(self)@.log == old(self)@.log,
            final(self)@.stdout_end == old(self)@.stdout_end,
            final(self)@.stderr_end == old(self)@.stderr_end,
            old(self)@.relayed < old(self)@.log.len() ==> (r matches Some(e) && e@ == old(
                self,
            )@.log[old(self)@.relayed] && final(self)@.relayed == old(self)@.relayed + 1),
            old(self)@.relayed == old(self)@.log.len() ==> r is None && final(self)@.relayed == old(
                self,
            )@.relayed,
    {
        if self.relayed < self.events.len() {
            let e = self.events[self.relayed].duplicate();
            self.relayed = self.relayed + 1;
            Some(e)
        } else {
            None
        }
    }
}

/// Fixed command line of the supervised run: the `start` subcommand, the
/// invariant-skip flag and the storage-node-format flag.
pub fn start_args() -> (r: Vec<String>)
    ensures
        r@.len() == 3,
        r@[0]@ == "start"@,
        r@[1]@ == "--x-crisis-skip-assert-invariants"@,
        r@[2]@ == "--iavl-disable-fastnode=false"@,
{
    let mut r: Vec<String> = Vec::new();
    r.push("start".to_owned());
    r.push("--x-crisis-skip-assert-invariants".to_owned());
    r.push("--iavl-disable-fastnode=false".to_owned());
    r
}

} // verus!
