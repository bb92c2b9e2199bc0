//! The poll-loop state machine.
//!
//! The loop that drives an opened input port has two states: polling
//! (normal) and terminated (the poll call reported that the port is no
//! longer valid). Each cycle first reports the poll outcome; only a
//! successful poll is followed by one read attempt, which yields at most one
//! decoded message — when the read returned several queued events, only the
//! first is decoded and the rest of that batch is dropped. A failed or empty
//! read is absorbed as "no event this cycle". The caller performs the actual
//! polling, reading and sleeping; this type only decides.

use vstd::prelude::*;

use crate::message::{MidiEvent, MyMidiMessage, spec_decode};

verus! {

/// How many queued events one read attempt asks for at most.
pub const EVENT_BUFFER_SIZE: usize = 1024;

/// How long the caller sleeps between poll cycles, in milliseconds, to avoid
/// a busy loop (the port has no blocking receive).
pub const POLL_INTERVAL_MS: u64 = 10;

/// The two states of the poll loop.
#[derive(Clone, Copy, Debug, PartialEq, Eq, Structural)]
pub enum PollState {
    /// The port is being polled at a fixed interval.
    Polling,
    /// A poll reported failure; capture has stopped for good.
    Terminated,
}

/// The decisions of one capture session: its state, and how many read
/// attempts it has asked for. The state is an explicit flag, so a caller
/// can observe that capture has ended.
pub struct Capture {
    pub state: PollState,
    pub reads: u64,
}

/// The batch a read attempt yielded, as a sequence of events; `None` when
/// the read failed or returned nothing.
pub open spec fn batch_view(batch: Option<&Vec<MidiEvent>>) -> Option<Seq<MidiEvent>> {
    match batch {
        Some(events) => Some(events@),
        None => None,
    }
}

/// What one read attempt hands to the handler: the decoded first event of a
/// non-empty batch, and nothing otherwise. Every event after the first is
/// dropped.
pub open spec fn spec_first_message(batch: Option<Seq<MidiEvent>>) -> Option<MyMidiMessage> {
    match batch {
        Some(events) => if events.len() > 0 {
            Some(spec_decode(events[0]))
        } else {
            None
        },
        None => None,
    }
}

impl Capture {
    /// A fresh session: polling, with no read attempted yet.
    pub fn new() -> (c: Self)
        ensures
            c.state == PollState::Polling,
            c.reads == 0,
    {
        Capture { state: PollState::Polling, reads: 0 }
    }

    /// Whether capture has stopped for good.
    pub fn is_terminated(&self) -> (b: bool)
        ensures
            b == (self.state == PollState::Terminated),
    {
        match self.state {
            PollState::Polling => false,
            PollState::Terminated => true,
        }
    }

    /// Record the outcome of one poll call. A failed poll terminates the
    /// session at once, with no read attempted — not now and not later; a
    /// successful poll asks the caller for exactly one read attempt.
    pub fn on_poll(&mut self, poll_ok: bool) -> (do_read: bool)
        requires
            old(self).state == PollState::Polling,
        ensures
            do_read == poll_ok,
            final(self).reads == old(self).reads,
            poll_ok ==> final(self).state == PollState::Polling,
            !poll_ok ==> final(self).state == PollState::Terminated,
    {
        if poll_ok {
            true
        } else {
            self.state = PollState::Terminated;
            false
        }
    }

    /// Record the read attempt that followed a successful poll and decide
    /// what to hand to the handler: the decoded first event of a non-empty
    /// batch, nothing for an empty, absent or failed batch. The session
    /// keeps polling either way.
    pub fn on_read(&mut self, batch: Option<&Vec<MidiEvent>>) -> (m: Option<MyMidiMessage>)
        requires
            old(self).state == PollState::Polling,
            old(self).reads < u64::MAX,
        ensures
            final(self).state == PollState::Polling,
            final(self).reads == old(self).reads + 1,
            m == spec_first_message(batch_view(batch)),
    {
        self.reads = self.reads + 1;
        match batch {
            Some(events) => if events.len() > 0 {
                Some(MyMidiMessage::new(events[0]))
            } else {
                None
            },
            None => None,
        }
    }
}

} // verus!
