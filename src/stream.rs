//! The output of a package manager's process, consumed line by line.

use vstd::prelude::*;

verus! {

/// What reading the next line of the process's output gave.
#[derive(Debug)]
pub enum LineEvent {
    /// A complete line.
    Line(String),
    /// Reading failed (an I/O fault or a malformed encoding).
    Failed(String),
    /// The process closed its output.
    Closed,
}

/// Where the stream stands.
#[derive(Clone, Copy, Debug, PartialEq, Eq, Structural)]
pub enum StreamState {
    Open,
    Ended,
    Failed,
}

/// What the consumer does with an event.
#[derive(Debug)]
pub enum StreamStep {
    /// Hand this line to the caller.
    Emit(String),
    /// The output has ended: stop reading.
    Finished,
    /// Reading failed: report this error and stop.
    Error(String),
    /// The stream was already over; the event is ignored.
    Stopped,
}

/// Tracks the output stream of one process.  The stream is finite and is not
/// restarted: once it has ended or failed, later events are ignored.
pub struct OutputStreamer {
    pub state: StreamState,
    /// The lines emitted so far, in order.
    pub delivered: Ghost<Seq<Seq<char>>>,
}

impl OutputStreamer {
    pub fn new() -> (s: OutputStreamer)
        ensures
            s.state == StreamState::Open,
            s.delivered@ == Seq::<Seq<char>>::empty(),
    {
        OutputStreamer { state: StreamState::Open, delivered: Ghost(Seq::empty()) }
    }

    /// Takes the next event of the output.  Each line is emitted once, in the
    /// order it came; the end of the output or a read failure ends the stream.
    pub fn accept(&mut self, event: LineEvent) -> (r: StreamStep)
        ensures
            old(self).state != StreamState::Open ==> (r matches StreamStep::Stopped)
                && final(self).state == old(self).state
                && final(self).delivered@ == old(self).delivered@,
            old(self).state == StreamState::Open ==> match event {
                LineEvent::Line(l) => (r matches StreamStep::Emit(x) && x@ == l@)
                    && final(self).state == StreamState::Open
                    && final(self).delivered@ == old(self).delivered@.push(l@),
                LineEvent::Failed(m) => (r matches StreamStep::Error(x) && x@ == m@)
                    && final(self).state == StreamState::Failed
                    && final(self).delivered@ == old(self).delivered@,
                LineEvent::Closed => (r matches StreamStep::Finished)
                    && final(self).state == StreamState::Ended
                    && final(self).delivered@ == old(self).delivered@,
            },
    {
        if self.state != StreamState::Open {
            return StreamStep::Stopped;
        }
        match event {
            LineEvent::Line(l) => {
                self.delivered = Ghost(self.delivered@.push(l@));
                StreamStep::Emit(l)
            },
            LineEvent::Failed(m) => {
                self.state = StreamState::Failed;
                StreamStep::Error(m)
            },
            LineEvent::Closed => {
                self.state = StreamState::Ended;
                StreamStep::Finished
            },
        }
    }
}

} // verus!
