//! The event ring: a circular array of blocks that the controller fills and software
//! consumes, described to the controller by a segment table of one entry.

use crate::event::{spec_event_kind, Event};
use crate::trb::{Trb, TRB_BYTES};
use vstd::prelude::*;

verus! {

/// The one entry of the event ring segment table: where the segment lies and how many
/// blocks it holds.
#[derive(Copy, Clone, Debug, PartialEq, Eq, Structural)]
pub struct SegmentTableEntry {
    pub ring_segment_base: u64,
    pub ring_segment_size: u16,
}

/// The consumer side of the event ring.
///
/// The ring memory belongs to the controller, so the ring keeps no image of it: the
/// caller reads the block at `dequeue_pointer` and hands it to `next`.
pub struct EventRing {
    base: u64,
    len: u16,
    erst: u64,
    i: u16,
    last: Option<u16>,
    cycle: bool,
    consumed: Ghost<nat>,
}

impl EventRing {
    /// Physical address of entry 0.
    pub closed spec fn spec_base(&self) -> u64 {
        self.base
    }

    /// Number of entries.
    pub closed spec fn spec_len(&self) -> u16 {
        self.len
    }

    /// Physical address of the segment table.
    pub closed spec fn spec_erstba(&self) -> u64 {
        self.erst
    }

    /// Index of the entry that the next event is expected in.
    pub closed spec fn spec_dequeue_index(&self) -> u16 {
        self.i
    }

    /// Index of the entry that the last event was taken from, if any was taken.
    pub closed spec fn spec_last_consumed(&self) -> Option<u16> {
        self.last
    }

    /// The consumer cycle: the cycle bit that the next event must carry to be valid.
    pub closed spec fn spec_cycle(&self) -> bool {
        self.cycle
    }

    /// How many events have been taken off the ring since it was made.
    pub closed spec fn consumed(&self) -> nat {
        self.consumed@
    }

    /// How often the dequeue index has wrapped around.
    pub open spec fn wraps(&self) -> int {
        self.consumed() as int / self.spec_len() as int
    }

    /// The invariant of the ring: it has an entry, it is aligned, its addresses do not
    /// overflow, the dequeue index is where the count of events taken says it is, the
    /// consumer cycle starts at 1 and has flipped once per wraparound, and the entry
    /// last consumed is the one before the dequeue index.
    pub open spec fn wf(&self) -> bool {
        &&& self.spec_len() >= 1
        &&& self.spec_base() % 64 == 0
        &&& self.spec_erstba() % 64 == 0
        &&& self.spec_base() + TRB_BYTES * self.spec_len() <= u64::MAX
        &&& self.spec_dequeue_index() < self.spec_len()
        &&& self.spec_dequeue_index() == self.consumed() as int % self.spec_len() as int
        &&& self.spec_cycle() == (self.wraps() % 2 == 0)
        &&& self.spec_last_consumed().is_none() <==> self.consumed() == 0
        &&& self.spec_last_consumed() matches Some(k) ==> k < self.spec_len() && k == (
        self.consumed() - 1) % self.spec_len() as int
    }

    /// Whether an event ring of `len` entries can lie at `base` with its segment table
    /// at `erst`.
    pub open spec fn placeable(base: u64, len: u16, erst: u64) -> bool {
        &&& len >= 1
        &&& base % 64 == 0
        &&& erst % 64 == 0
        &&& base + TRB_BYTES * len <= u64::MAX
    }

    /// Makes the consumer state for an event ring of `len` entries at physical address
    /// `base`, whose segment table lies at `erst`: dequeue index 0, consumer cycle 1.
    /// Returns `None` exactly when no ring can lie there.
    pub fn new(base: u64, len: u16, erst: u64) -> (r: Option<EventRing>)
        ensures
            r.is_some() <==> Self::placeable(base, len, erst),
            r matches Some(ring) ==> {
                &&& ring.wf()
                &&& ring.spec_base() == base
                &&& ring.spec_len() == len
                &&& ring.spec_erstba() == erst
                &&& ring.spec_dequeue_index() == 0
                &&& ring.spec_last_consumed().is_none()
                &&& ring.spec_cycle()
                &&& ring.consumed() == 0
            },
    {
        if len < 1 || base % 64 != 0 || erst % 64 != 0 {
            return None;
        }
        if len as u64 > (u64::MAX - base) / TRB_BYTES {
            return None;
        }
        let ring = EventRing { base, len, erst, i: 0, last: None, cycle: true, consumed: Ghost(0) };
        assert(ring.wf()) by {
            assert(0int / (len as int) == 0 && 0int % (len as int) == 0) by (nonlinear_arith)
                requires
                    len >= 1,
            ;
        }
        Some(ring)
    }

    /// The consumer cycle.
    #[verifier::when_used_as_spec(spec_cycle)]
    pub fn cycle(&self) -> (c: bool)
        ensures
            c == self.spec_cycle(),
    {
        self.cycle
    }

    /// Index of the entry that the next event is expected in.
    #[verifier::when_used_as_spec(spec_dequeue_index)]
    pub fn dequeue_index(&self) -> (i: u16)
        ensures
            i == self.spec_dequeue_index(),
    {
        self.i
    }

    pub open spec fn spec_dequeue_pointer(&self) -> u64 {
        (self.spec_base() + TRB_BYTES * self.spec_dequeue_index()) as u64
    }

    /// The physical address of the entry that the next event is expected in: where the
    /// caller reads the block that it hands to `next`.
    #[verifier::when_used_as_spec(spec_dequeue_pointer)]
    pub fn dequeue_pointer(&self) -> (p: u64)
        requires
            self.wf(),
        ensures
            p == self.spec_dequeue_pointer(),
            p == self.spec_base() + TRB_BYTES * self.spec_dequeue_index(),
            p % 16 == 0,
    {
        assert(TRB_BYTES * self.i <= TRB_BYTES * self.len) by (nonlinear_arith)
            requires
                self.i <= self.len,
        ;
        self.base + TRB_BYTES * (self.i as u64)
    }

    pub open spec fn spec_erdp(&self) -> u64 {
        match self.spec_last_consumed() {
            Some(k) => (self.spec_base() + TRB_BYTES * k) as u64,
            None => self.spec_base(),
        }
    }

    /// What goes into the controller's dequeue pointer register: the physical address
    /// of the entry that the last event was taken from, and the base of the ring as
    /// long as no event has been taken.
    #[verifier::when_used_as_spec(spec_erdp)]
    pub fn erdp(&self) -> (p: u64)
        requires
            self.wf(),
        ensures
            p == self.spec_erdp(),
            p % 16 == 0,
    {
        match self.last {
            Some(k) => {
                assert(TRB_BYTES * k <= TRB_BYTES * self.len) by (nonlinear_arith)
                    requires
                        k <= self.len,
                ;
                self.base + TRB_BYTES * (k as u64)
            },
            None => self.base,
        }
    }

    /// Physical address of the segment table.
    #[verifier::when_used_as_spec(spec_erstba)]
    pub fn erstba(&self) -> (p: u64)
        ensures
            p == self.spec_erstba(),
    {
        self.erst
    }

    /// The entry that the caller writes into the segment table.
    pub fn segment_table_entry(&self) -> (e: SegmentTableEntry)
        ensures
            e.ring_segment_base == self.spec_base(),
            e.ring_segment_size == self.spec_len(),
    {
        SegmentTableEntry { ring_segment_base: self.base, ring_segment_size: self.len }
    }

    /// What `next` returns for the block `slot` found at the dequeue pointer: the event
    /// in the block together with the consumer cycle, if the block is a valid event
    /// block whose cycle bit matches the consumer cycle.
    pub open spec fn spec_next(&self, slot: Trb) -> Option<(Event, bool)> {
        if slot.spec_cycle_bit() == self.spec_cycle() && spec_event_kind(slot).is_some() {
            Some((Event::spec_parse(slot).unwrap(), self.spec_cycle()))
        } else {
            None
        }
    }

    /// Takes the next event off the ring, if there is one. `slot` is the block that the
    /// memory holds at the dequeue pointer. The block counts as an event only if its
    /// cycle bit matches the consumer cycle and it is a valid event block; then the
    /// dequeue index advances, and where it wraps to 0 the consumer cycle flips.
    /// Otherwise nothing changes and `None` comes back.
    pub fn next(&mut self, slot: Trb) -> (r: Option<(Event, bool)>)
        requires
            old(self).wf(),
        ensures
            final(self).wf(),
            r == old(self).spec_next(slot),
            final(self).spec_base() == old(self).spec_base(),
            final(self).spec_len() == old(self).spec_len(),
            final(self).spec_erstba() == old(self).spec_erstba(),
            r.is_none() ==> *final(self) == *old(self),
            r.is_some() ==> {
                &&& final(self).consumed() == old(self).consumed() + 1
                &&& final(self).spec_last_consumed() == Some(old(self).spec_dequeue_index())
                &&& final(self).spec_erdp() == old(self).spec_dequeue_pointer()
                &&& final(self).spec_dequeue_index() == (if old(self).spec_dequeue_index() + 1
                    == old(self).spec_len() {
                    0int
                } else {
                    old(self).spec_dequeue_index() + 1
                })
                &&& final(self).spec_cycle() == (if old(self).spec_dequeue_index() + 1 == old(self).spec_len() {
                    !old(self).spec_cycle()
                } else {
                    old(self).spec_cycle()
                })
            },
    {
        if slot.cycle_bit() != self.cycle {
            return None;
        }
        let event = match Event::parse(slot) {
            Some(e) => e,
            None => {
                return None;
            },
        };
        let cycle = self.cycle;
        proof {
            lemma_consume_step(self.consumed@, self.len as int);
        }
        self.last = Some(self.i);
        if self.i + 1 == self.len {
            self.i = 0;
            self.cycle = !cycle;
        } else {
            self.i = self.i + 1;
        }
        self.consumed = Ghost((self.consumed@ + 1) as nat);
        Some((event, cycle))
    }
}

/// One more event taken moves the index by one, and back to 0 at the end of the ring.
proof fn lemma_consume_step(n: nat, len: int)
    requires
        len >= 1,
    ensures
        n as int % len + 1 < len ==> (n + 1) as int % len == n as int % len + 1 && (n + 1) as int
            / len == n as int / len,
        n as int % len + 1 == len ==> (n + 1) as int % len == 0 && (n + 1) as int / len == n as int
            / len + 1,
{
    let q = n as int / len;
    let r = n as int % len;
    vstd::arithmetic::div_mod::lemma_fundamental_div_mod(n as int, len);
    assert(0 <= r < len) by (nonlinear_arith)
        requires
            r == n as int % len,
            len >= 1,
    ;
    assert(n as int == q * len + r) by (nonlinear_arith)
        requires
            n as int == len * q + r,
    ;
    if r + 1 < len {
        vstd::arithmetic::div_mod::lemma_fundamental_div_mod_converse(
            (n + 1) as int,
            len,
            q,
            r + 1,
        );
    } else {
        assert((q + 1) * len + 0 == n + 1) by (nonlinear_arith)
            requires
                n as int == q * len + r,
                r + 1 == len,
        ;
        vstd::arithmetic::div_mod::lemma_fundamental_div_mod_converse(
            (n + 1) as int,
            len,
            q + 1,
            0,
        );
    }
}

/// Cycle-bit coherence on the consumer side: the consumer cycle is the initial cycle 1
/// flipped once for each time the dequeue index has wrapped.
pub proof fn lemma_consumer_cycle_coherence(ring: EventRing)
    requires
        ring.wf(),
    ensures
        ring.spec_cycle() == (true ^ (ring.wraps() % 2 == 1)),
        ring.spec_dequeue_index() == ring.consumed() as int % ring.spec_len() as int,
{
}

} // verus!
