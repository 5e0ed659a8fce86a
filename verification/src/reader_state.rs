//! The reader-state record: one entry per monitored reader submitted to
//! the blocking wait for state changes.
//!
//! A record owns a copy of the reader's name, the state the caller assumes
//! (the current word) and the state the native service last reported (the
//! event word).  The high sixteen bits of the event word embed a counter
//! that the service raises once per card insertion or removal, so a caller
//! can spot a removal-and-reinsertion that left the state bits unchanged.

use vstd::prelude::*;
use vstd::slice::slice_to_vec;
use crate::flags::State;
use crate::flags::STATE_MASK;

verus! {

/// The embedded event counter of a raw event word.
pub open spec fn event_count_of(w: u32) -> u32 {
    (w & 0xFFFF_0000) >> 16
}

/// Tracks the current and the last reported state of one card reader.
#[derive(Debug)]
pub struct ReaderState {
    name: Vec<u8>,
    current_state: u32,
    event_state: u32,
}

impl ReaderState {
    /// The owned copy of the reader's name.
    pub closed spec fn spec_name(&self) -> Seq<u8> {
        self.name@
    }

    /// The state word the caller assumes.
    pub closed spec fn spec_current(&self) -> u32 {
        self.current_state
    }

    /// The raw state word the native service last reported, with the
    /// event counter embedded in its high half.
    pub closed spec fn spec_event(&self) -> u32 {
        self.event_state
    }

    /// Create a record for the reader called `name`, presumed to be in
    /// state `current_state` and with nothing reported yet.
    ///
    /// The name is copied into the record, so the record outlives the
    /// caller's borrow and stays valid across a blocking wait.
    pub fn new(name: &[u8], current_state: State) -> (r: ReaderState)
        ensures
            r.spec_name() == name@,
            r.spec_current() == current_state.bits,
            r.spec_event() == 0,
    {
        ReaderState {
            name: slice_to_vec(name),
            current_state: current_state.bits,
            event_state: 0,
        }
    }

    /// The name of the card reader.
    pub fn name(&self) -> (r: &[u8])
        ensures
            r@ == self.spec_name(),
    {
        self.name.as_slice()
    }

    /// The last reported state, masked down to the defined state bits.
    pub fn event_state(&self) -> (r: State)
        ensures
            r.bits == self.spec_event() & STATE_MASK,
    {
        State::from_bits_truncate(self.event_state)
    }

    /// The card event count embedded in the last reported state word,
    /// raised by the native service once per card insertion or removal.
    pub fn event_count(&self) -> (r: u32)
        ensures
            r == event_count_of(self.spec_event()),
    {
        (self.event_state & 0xFFFF_0000) >> 16
    }

    /// The raw assumed-state word, for the shell to hand to the native
    /// wait call.
    pub fn current_state_word(&self) -> (r: u32)
        ensures
            r == self.spec_current(),
    {
        self.current_state
    }

    /// The raw last-reported state word, with the event counter still
    /// embedded in its high half.
    pub fn event_state_word(&self) -> (r: u32)
        ensures
            r == self.spec_event(),
    {
        self.event_state
    }

    /// Copy the last reported state over the assumed state, priming the
    /// record so the next wait reports only new transitions.
    ///
    /// The event counter travels along with the state bits; a record left
    /// unprimed is reported as changed on every wait by some native
    /// implementations.
    pub fn sync_current_state(&mut self)
        ensures
            final(self).spec_name() == old(self).spec_name(),
            final(self).spec_current() == old(self).spec_event(),
            final(self).spec_event() == old(self).spec_event(),
    {
        self.current_state = self.event_state;
    }

    /// Record the raw event word a completed wait reported for this
    /// reader.
    pub(crate) fn set_event_word(&mut self, w: u32)
        ensures
            final(self).spec_name() == old(self).spec_name(),
            final(self).spec_current() == old(self).spec_current(),
            final(self).spec_event() == w,
    {
        self.event_state = w;
    }
}

/// Law: the event counter is exactly the high half of the event word, so
/// a reported word that leaves the whole event word unchanged leaves the
/// counter unchanged, and one that raises the word's high half by one
/// raises the counter by exactly one.
pub proof fn lemma_event_count_is_high_half(w: u32)
    ensures
        event_count_of(w) == w >> 16,
        event_count_of(w) <= 0xFFFF,
{
    assert((w & 0xFFFF_0000) >> 16 == w >> 16 && w >> 16 <= 0xFFFF) by (bit_vector);
}

/// Law: a single insertion or removal, reported as an event word whose
/// high half went up by one, raises `event_count` by exactly one.
pub proof fn lemma_single_event_counts_once(w1: u32, w2: u32)
    requires
        w2 >> 16 == (w1 >> 16) + 1,
    ensures
        event_count_of(w2) == event_count_of(w1) + 1,
{
    lemma_event_count_is_high_half(w1);
    lemma_event_count_is_high_half(w2);
}

} // verus!
