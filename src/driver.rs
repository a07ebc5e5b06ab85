//! The consumer of the block stream, with a bound on the blocks in flight.
//!
//! The decisions are a state machine; the caller reads the stream, runs the
//! block handlers and reports back what happened.

use vstd::prelude::*;

verus! {

/// What the caller should do next.
#[derive(Debug, Clone, Copy, PartialEq, Eq, Structural)]
pub enum DriverAction {
    /// Take the next block from the stream (or a completion, whichever comes
    /// first) and dispatch it.
    PollStream,
    /// Wait for an in-flight block to complete; take no new block.
    AwaitCompletion,
    /// The stream has ended and every block completed.
    Finish,
    /// A block failed and every other dispatched block has completed: stop
    /// with that error.
    Halt,
}

/// What happened.
#[derive(Debug, Clone, Copy, PartialEq, Eq, Structural)]
pub enum DriverEvent {
    /// A block was taken from the stream and dispatched.
    BlockReceived,
    /// The stream will give no more blocks.
    StreamEnded,
    /// An in-flight block was handled without error.
    BlockSucceeded,
    /// An in-flight block failed.
    BlockFailed,
}

/// The state of the consumer.
pub struct Driver {
    /// The most blocks in flight at once; at least one.
    pub limit: usize,
    /// Blocks dispatched and not yet completed.
    pub in_flight: usize,
    /// Whether the stream has ended.
    pub stream_ended: bool,
    /// Whether a block has failed.
    pub failed: bool,
    /// Blocks dispatched so far.
    pub dispatched: Ghost<nat>,
    /// Blocks completed so far, with or without error.
    pub completed: Ghost<nat>,
}

impl Driver {
    /// The bound holds, and every dispatched block has completed or is in
    /// flight.
    pub open spec fn wf(&self) -> bool {
        &&& self.limit >= 1
        &&& self.in_flight <= self.limit
        &&& self.dispatched@ == self.completed@ + self.in_flight
    }

    /// The next action in a state.
    pub open spec fn action_of(&self) -> DriverAction {
        if self.failed {
            if self.in_flight > 0 {
                DriverAction::AwaitCompletion
            } else {
                DriverAction::Halt
            }
        } else if self.stream_ended {
            if self.in_flight > 0 {
                DriverAction::AwaitCompletion
            } else {
                DriverAction::Finish
            }
        } else if self.in_flight < self.limit {
            DriverAction::PollStream
        } else {
            DriverAction::AwaitCompletion
        }
    }

    /// Whether an event can happen in a state: a block is taken only when
    /// the caller was told to poll the stream, and only a block in flight
    /// can complete.
    pub open spec fn admits_spec(&self, event: DriverEvent) -> bool {
        match event {
            DriverEvent::BlockReceived => self.action_of() == DriverAction::PollStream,
            DriverEvent::StreamEnded => true,
            DriverEvent::BlockSucceeded => self.in_flight > 0,
            DriverEvent::BlockFailed => self.in_flight > 0,
        }
    }

    /// A consumer with at most `limit` blocks in flight, none yet.
    pub fn new(limit: usize) -> (r: Driver)
        requires
            limit >= 1,
        ensures
            r.wf(),
            r.limit == limit,
            r.in_flight == 0,
            !r.stream_ended,
            !r.failed,
            r.dispatched@ == 0,
    {
        Driver {
            limit,
            in_flight: 0,
            stream_ended: false,
            failed: false,
            dispatched: Ghost(0),
            completed: Ghost(0),
        }
    }

    /// The next action: poll the stream while under the bound; wait for a
    /// completion at the bound, or once the stream has ended or a block
    /// failed; finish or halt when nothing is left in flight.
    pub fn next_action(&self) -> (r: DriverAction)
        ensures
            r == self.action_of(),
    {
        if self.failed {
            if self.in_flight > 0 {
                DriverAction::AwaitCompletion
            } else {
                DriverAction::Halt
            }
        } else if self.stream_ended {
            if self.in_flight > 0 {
                DriverAction::AwaitCompletion
            } else {
                DriverAction::Finish
            }
        } else if self.in_flight < self.limit {
            DriverAction::PollStream
        } else {
            DriverAction::AwaitCompletion
        }
    }

    /// Whether the event can happen now.
    pub fn admits(&self, event: DriverEvent) -> (r: bool)
        ensures
            r == self.admits_spec(event),
    {
        match event {
            DriverEvent::BlockReceived => self.next_action() == DriverAction::PollStream,
            DriverEvent::StreamEnded => true,
            DriverEvent::BlockSucceeded => self.in_flight > 0,
            DriverEvent::BlockFailed => self.in_flight > 0,
        }
    }

    /// Records what happened.
    pub fn on_event(&mut self, event: DriverEvent)
        requires
            old(self).wf(),
            old(self).admits_spec(event),
        ensures
            final(self).wf(),
            final(self).limit == old(self).limit,
            final(self).in_flight == match event {
                DriverEvent::BlockReceived => old(self).in_flight + 1,
                DriverEvent::StreamEnded => old(self).in_flight as int,
                _ => old(self).in_flight - 1,
            },
            final(self).dispatched@ == old(self).dispatched@ + if event == DriverEvent::BlockReceived {
                1int
            } else {
                0int
            },
            final(self).stream_ended == (old(self).stream_ended || event == DriverEvent::StreamEnded),
            final(self).failed == (old(self).failed || event == DriverEvent::BlockFailed),
    {
        match event {
            DriverEvent::BlockReceived => {
                self.in_flight = self.in_flight + 1;
                self.dispatched = Ghost(self.dispatched@ + 1);
            },
            DriverEvent::StreamEnded => {
                self.stream_ended = true;
            },
            DriverEvent::BlockSucceeded => {
                self.in_flight = self.in_flight - 1;
                self.completed = Ghost(self.completed@ + 1);
            },
            DriverEvent::BlockFailed => {
                self.in_flight = self.in_flight - 1;
                self.completed = Ghost(self.completed@ + 1);
                self.failed = true;
            },
        }
    }
}

/// When the consumer stops, by finishing or halting, every block it
/// dispatched has completed; after a failure it dispatches no new block;
/// and it never has more than its bound in flight.
pub proof fn lemma_driver_stops_clean(d: Driver)
    requires
        d.wf(),
    ensures
        d.action_of() == DriverAction::Finish || d.action_of() == DriverAction::Halt ==> d.in_flight
            == 0 && d.dispatched@ == d.completed@,
        d.failed ==> d.action_of() != DriverAction::PollStream,
        d.action_of() == DriverAction::PollStream ==> d.in_flight < d.limit,
        d.in_flight <= d.limit,
{
}

} // verus!
