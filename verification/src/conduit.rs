//! The one-way byte pump at the heart of a data handler.
//!
//! A conduit owns the decisions of the relay loop: what one iteration
//! does with a wait outcome, a control byte, or a chunk of bytes read,
//! and how the statistics move. The poll, read and write system calls
//! happen at the process edge, which reports each iteration's outcome
//! as a `ConduitEvent`. Ghost histories record every byte read and
//! every byte written, so pass-through is a proved invariant: while no
//! write has failed, the bytes written are exactly the bytes read, in
//! order, with no loss and no reordering.

use vstd::prelude::*;
use crate::types::{sat_add, Statistics};

verus! {

/// Direction of data flow in a conduit.
#[derive(Debug, Clone, Copy, PartialEq, Eq, Structural)]
pub enum ConduitDirection {
    /// Ground to payload
    GroundToPayload,
    /// Payload to ground
    PayloadToGround,
}

/// Control commands a conduit understands.
#[derive(Debug, Clone, Copy, PartialEq, Eq, Structural)]
pub enum ConduitCommand {
    /// Stop the conduit
    Stop,
    /// Report statistics
    GetStats,
}

/// Outcome of writing one chunk: streams retry until the whole chunk is
/// out or the writer errors, datagrams treat a short write as an error,
/// so a chunk is either fully written or failed.
#[derive(Debug, Clone, Copy, PartialEq, Eq, Structural)]
pub enum WriteOutcome {
    Completed,
    Failed,
}

/// What one relay iteration observed, reported by the process edge.
#[derive(Debug, Clone, PartialEq, Eq)]
pub enum ConduitEvent {
    /// A byte arrived on the control pipe.
    Control(u8),
    /// The wait timed out with nothing ready.
    TimedOut,
    /// The wait reported an error condition on the data descriptor.
    WaitFailed,
    /// The read returned an error.
    ReadFailed,
    /// The read returned no bytes: a spurious wake.
    ReadEmpty,
    /// The read produced this chunk and writing it had this outcome.
    Passed(Vec<u8>, WriteOutcome),
}

/// The control byte that asks a conduit to stop.
pub const CONTROL_STOP: u8 = 0;

/// The mathematical state of a conduit: its direction, counters,
/// running flag and the two byte histories, with the ghost wrappers
/// stripped. `spec_step` and `spec_run_events` are stated over it.
pub struct ConduitModel {
    pub direction: ConduitDirection,
    pub stats: Statistics,
    pub running: bool,
    pub read_hist: Seq<u8>,
    pub write_hist: Seq<u8>,
}

/// What one event does to a conduit: exactly the transition
/// `handle_event` performs.
pub open spec fn spec_step(m: ConduitModel, ev: ConduitEvent) -> ConduitModel {
    match ev {
        ConduitEvent::Control(b) => {
            if b == CONTROL_STOP {
                ConduitModel { running: false, ..m }
            } else {
                m
            }
        },
        ConduitEvent::TimedOut => m,
        ConduitEvent::ReadEmpty => m,
        ConduitEvent::WaitFailed => ConduitModel { running: false, ..m },
        ConduitEvent::ReadFailed => ConduitModel {
            stats: Statistics { reads_failed: sat_add(m.stats.reads_failed, 1), ..m.stats },
            ..m
        },
        ConduitEvent::Passed(chunk, outcome) => {
            let read_done = ConduitModel {
                stats: Statistics {
                    bytes_received: sat_add(m.stats.bytes_received, chunk@.len() as u64),
                    reads_completed: sat_add(m.stats.reads_completed, 1),
                    ..m.stats
                },
                read_hist: m.read_hist + chunk@,
                ..m
            };
            match outcome {
                WriteOutcome::Completed => ConduitModel {
                    stats: Statistics {
                        bytes_sent: sat_add(read_done.stats.bytes_sent, chunk@.len() as u64),
                        writes_completed: sat_add(read_done.stats.writes_completed, 1),
                        ..read_done.stats
                    },
                    write_hist: m.write_hist + chunk@,
                    ..read_done
                },
                WriteOutcome::Failed => ConduitModel {
                    stats: Statistics {
                        writes_failed: sat_add(read_done.stats.writes_failed, 1),
                        ..read_done.stats
                    },
                    ..read_done
                },
            }
        },
    }
}

/// The state after folding `spec_step` over the events, stopping after
/// the first event that leaves the conduit stopped — exactly where the
/// relay loop stops.
pub open spec fn spec_run_events(m: ConduitModel, events: Seq<ConduitEvent>) -> ConduitModel
    decreases events.len(),
{
    if events.len() == 0 {
        m
    } else {
        let m2 = spec_step(m, events[0]);
        if !m2.running {
            m2
        } else {
            spec_run_events(m2, events.drop_first())
        }
    }
}

/// How many events the loop consumes: all of them, or up to and
/// including the first one that stops the conduit.
pub open spec fn spec_run_count(m: ConduitModel, events: Seq<ConduitEvent>) -> int
    decreases events.len(),
{
    if events.len() == 0 {
        0
    } else {
        let m2 = spec_step(m, events[0]);
        if !m2.running {
            1
        } else {
            1 + spec_run_count(m2, events.drop_first())
        }
    }
}

/// One-direction byte pump state.
pub struct Conduit {
    /// Which way the bytes flow
    pub direction: ConduitDirection,
    /// Counters for this direction
    pub stats: Statistics,
    /// Cleared when the conduit decides to exit its loop
    pub running: bool,
    /// Every byte read, in order
    pub read_hist: Ghost<Seq<u8>>,
    /// Every byte successfully written, in order
    pub write_hist: Ghost<Seq<u8>>,
}

impl Conduit {
    /// Byte-for-byte pass-through: while no write has failed, the bytes
    /// written are exactly the bytes read.
    pub open spec fn inv(self) -> bool {
        self.stats.writes_failed == 0 ==> self.write_hist@ == self.read_hist@
    }

    /// The conduit as its mathematical state.
    pub open spec fn model(self) -> ConduitModel {
        ConduitModel {
            direction: self.direction,
            stats: self.stats,
            running: self.running,
            read_hist: self.read_hist@,
            write_hist: self.write_hist@,
        }
    }

    pub fn new(direction: ConduitDirection) -> (r: Self)
        ensures
            r.inv(),
            r.direction == direction,
            r.stats.is_zero(),
            r.running,
            r.read_hist@ == Seq::<u8>::empty(),
            r.write_hist@ == Seq::<u8>::empty(),
    {
        Self {
            direction,
            stats: Statistics::new(),
            running: true,
            read_hist: Ghost(Seq::empty()),
            write_hist: Ghost(Seq::empty()),
        }
    }

    /// Get the conduit direction.
    pub fn get_direction(&self) -> (r: ConduitDirection)
        ensures
            r == self.direction,
    {
        self.direction
    }

    /// Whether the loop should keep going.
    pub fn is_running(&self) -> (r: bool)
        ensures
            r == self.running,
    {
        self.running
    }

    /// One iteration of the relay loop. A zero control byte stops the
    /// loop; an unknown control byte is ignored. A wait error ends the
    /// loop with the statistics as they stand. A read error or a write
    /// error is counted and the loop goes on. A chunk that was read is
    /// accounted, appended to the read history, and — when its write
    /// completed — appended whole to the write history, before any
    /// later read.
    pub fn handle_event(&mut self, ev: &ConduitEvent) -> (cont: bool)
        requires
            old(self).inv(),
        ensures
            final(self).inv(),
            final(self).model() == spec_step(old(self).model(), *ev),
            cont == final(self).running,
            final(self).direction == old(self).direction,
            final(self).stats.dominates(old(self).stats),
            final(self).stats.timestamp == old(self).stats.timestamp,
            ev matches ConduitEvent::Control(b) ==> ({
                &&& final(self).stats == old(self).stats
                &&& final(self).read_hist@ == old(self).read_hist@
                &&& final(self).write_hist@ == old(self).write_hist@
                &&& cont == (old(self).running && b != CONTROL_STOP)
            }),
            ev is TimedOut || ev is ReadEmpty ==> final(self).stats == old(self).stats && final(self).running == old(self).running && final(self).read_hist@ == old(self).read_hist@
                && final(self).write_hist@ == old(self).write_hist@,
            ev is WaitFailed ==> final(self).stats == old(self).stats && !final(self).running
                && final(self).read_hist@ == old(self).read_hist@ && final(self).write_hist@ == old(
                self,
            ).write_hist@,
            ev is ReadFailed ==> ({
                &&& final(self).stats.reads_failed == sat_add(old(self).stats.reads_failed, 1)
                &&& final(self).stats.bytes_received == old(self).stats.bytes_received
                &&& final(self).stats.counters() == (Statistics {
                    reads_failed: final(self).stats.reads_failed,
                    ..old(self).stats
                }).counters()
                &&& final(self).running == old(self).running
                &&& final(self).read_hist@ == old(self).read_hist@
                &&& final(self).write_hist@ == old(self).write_hist@
            }),
            ev matches ConduitEvent::Passed(chunk, outcome) ==> ({
                &&& final(self).stats.bytes_received == sat_add(
                    old(self).stats.bytes_received,
                    chunk@.len() as u64,
                )
                &&& final(self).stats.reads_completed == sat_add(old(self).stats.reads_completed, 1)
                &&& final(self).stats.reads_failed == old(self).stats.reads_failed
                &&& final(self).read_hist@ == old(self).read_hist@ + chunk@
                &&& final(self).running == old(self).running
                &&& (outcome is Completed ==> ({
                    &&& final(self).stats.bytes_sent == sat_add(
                        old(self).stats.bytes_sent,
                        chunk@.len() as u64,
                    )
                    &&& final(self).stats.writes_completed == sat_add(
                        old(self).stats.writes_completed,
                        1,
                    )
                    &&& final(self).stats.writes_failed == old(self).stats.writes_failed
                    &&& final(self).write_hist@ == old(self).write_hist@ + chunk@
                }))
                &&& (outcome is Failed ==> ({
                    &&& final(self).stats.bytes_sent == old(self).stats.bytes_sent
                    &&& final(self).stats.writes_completed == old(self).stats.writes_completed
                    &&& final(self).stats.writes_failed == sat_add(
                        old(self).stats.writes_failed,
                        1,
                    )
                    &&& final(self).write_hist@ == old(self).write_hist@
                }))
            }),
    {
        match ev {
            ConduitEvent::Control(b) => {
                if *b == CONTROL_STOP {
                    self.running = false;
                }
            },
            ConduitEvent::TimedOut => {},
            ConduitEvent::ReadEmpty => {},
            ConduitEvent::WaitFailed => {
                self.running = false;
            },
            ConduitEvent::ReadFailed => {
                self.stats.reads_failed = self.stats.reads_failed.saturating_add(1);
            },
            ConduitEvent::Passed(chunk, outcome) => {
                self.stats.bytes_received = self.stats.bytes_received.saturating_add(
                    chunk.len() as u64,
                );
                self.stats.reads_completed = self.stats.reads_completed.saturating_add(1);
                proof {
                    self.read_hist@ = self.read_hist@ + chunk@;
                }
                match outcome {
                    WriteOutcome::Completed => {
                        self.stats.bytes_sent = self.stats.bytes_sent.saturating_add(
                            chunk.len() as u64,
                        );
                        self.stats.writes_completed = self.stats.writes_completed.saturating_add(
                            1,
                        );
                        proof {
                            self.write_hist@ = self.write_hist@ + chunk@;
                        }
                    },
                    WriteOutcome::Failed => {
                        self.stats.writes_failed = self.stats.writes_failed.saturating_add(1);
                    },
                }
            },
        }
        self.running
    }

    /// A statistics snapshot, cheap and non-blocking.
    pub fn get_stats(&self) -> (r: Statistics)
        ensures
            r.counters() == self.stats.counters(),
            r.timestamp is None,
    {
        self.stats.clone_counters()
    }

    /// Run the loop over a recorded sequence of events, stopping where
    /// the loop would stop: the final state is the fold of the step
    /// function over exactly the consumed events, and the count is
    /// maximal — the whole sequence, or up to and including the first
    /// event that stops the conduit. Counters only ever grow.
    pub fn run_events(&mut self, events: &Vec<ConduitEvent>) -> (processed: usize)
        requires
            old(self).inv(),
        ensures
            final(self).inv(),
            final(self).model() == spec_run_events(old(self).model(), events@),
            processed == spec_run_count(old(self).model(), events@),
            processed <= events@.len(),
            final(self).stats.dominates(old(self).stats),
            final(self).direction == old(self).direction,
    {
        let n = events.len();
        let mut i: usize = 0;
        proof {
            assert(events@.skip(0) =~= events@);
        }
        while i < n
            invariant
                self.inv(),
                i <= n,
                n == events@.len(),
                self.stats.dominates(old(self).stats),
                self.direction == old(self).direction,
                spec_run_events(old(self).model(), events@) == spec_run_events(
                    self.model(),
                    events@.skip(i as int),
                ),
                spec_run_count(old(self).model(), events@) == i + spec_run_count(
                    self.model(),
                    events@.skip(i as int),
                ),
            decreases n - i,
        {
            let ghost prev = self.stats;
            let cont = self.handle_event(&events[i]);
            proof {
                assert(self.stats.dominates(prev));
                assert(events@.skip(i as int)[0] == events@[i as int]);
                assert(events@.skip(i as int).drop_first() =~= events@.skip(i as int + 1));
            }
            i = i + 1;
            if !cont {
                return i;
            }
        }
        proof {
            assert(events@.skip(n as int) =~= Seq::<ConduitEvent>::empty());
        }
        n
    }
}

/// Byte-for-byte pass-through, as a statement on its own: any conduit
/// state whose writes have all completed has written exactly the bytes
/// it read, in order. `handle_event` maintains this invariant, and each
/// chunk read is appended to the write history whole, before any later
/// read, so there is no reordering and no merging across reads.
pub proof fn lemma_conduit_pass_through(c: Conduit)
    requires
        c.inv(),
        c.stats.writes_failed == 0,
    ensures
        c.write_hist@ == c.read_hist@,
{
}

} // verus!
