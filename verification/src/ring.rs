//! The producer ring: a circular array of blocks that software fills and the controller
//! consumes, closed by a link block that leads back to the first entry.

use crate::trb::{lemma_split_join, link_trb, spec_link_trb, Trb, TRB_BYTES};
use vstd::prelude::*;

verus! {

/// What a producer ring is, as a mathematical value.
pub struct RingModel {
    /// The ring memory, entry by entry; the last entry is the link block.
    pub trbs: Seq<Trb>,
    /// Physical address of entry 0.
    pub base: u64,
    /// Index of the entry that the next enqueue writes.
    pub index: int,
    /// The producer cycle: the cycle bit that the next enqueue writes.
    pub cycle: bool,
    /// How many blocks have been enqueued since the ring was made.
    pub enqueued: nat,
}

impl RingModel {
    /// Number of entries that hold blocks of the caller: all but the link block.
    pub open spec fn usable(self) -> int {
        self.trbs.len() - 1
    }

    /// How often the ring has gone through its link block.
    pub open spec fn wraps(self) -> int {
        self.enqueued as int / self.usable()
    }

    /// Physical address of entry `index`.
    pub open spec fn addr_of(self, index: int) -> int {
        self.base + TRB_BYTES * index
    }

    /// The address that the next enqueue writes at.
    pub open spec fn next_addr(self) -> int {
        self.addr_of(self.index)
    }

    /// The address at which the `k`-th enqueue since the ring was made writes, counted
    /// from 0.
    pub open spec fn address_of_enqueue(self, k: nat) -> int {
        self.addr_of(k as int % self.usable())
    }

    /// The link block of the ring as it stands before the producer has wrapped onto it
    /// in a pass with producer cycle `cycle`: it leads back to entry 0, tells the
    /// consumer to toggle its cycle, and carries the cycle of the pass before.
    pub open spec fn link(self, cycle: bool) -> Trb {
        spec_link_trb(self.base).spec_with_cycle(!cycle)
    }

    /// The invariant of the ring.
    ///
    /// - There is room for at least one block beside the link, the base is aligned to
    ///   64 bytes, and no entry's address overflows.
    /// - The enqueue index never rests on the link block, and it is where the count of
    ///   enqueues says it is.
    /// - The producer cycle starts at 1 and has flipped once per wraparound.
    /// - The last entry is the link block back to entry 0 with its toggle-cycle bit
    ///   set; it carries the cycle of the pass before, so the consumer follows it only
    ///   once the producer has wrapped.
    /// - The entries below the enqueue index carry the producer cycle, the others up to
    ///   the link do not.
    pub open spec fn wf(self) -> bool {
        &&& self.trbs.len() >= 2
        &&& self.base % 64 == 0
        &&& self.base + TRB_BYTES * self.trbs.len() <= u64::MAX
        &&& 0 <= self.index < self.usable()
        &&& self.index == self.enqueued as int % self.usable()
        &&& self.cycle == (self.wraps() % 2 == 0)
        &&& self.trbs[self.trbs.len() - 1] == self.link(self.cycle)
        &&& forall|k: int|
            0 <= k < self.index ==> (#[trigger] self.trbs[k]).spec_cycle_bit() == self.cycle
        &&& forall|k: int|
            self.index <= k < self.usable() ==> (#[trigger] self.trbs[k]).spec_cycle_bit()
                != self.cycle
    }

    /// The ring of `len` entries over zeroed memory at `base`, before any enqueue.
    pub open spec fn fresh(base: u64, len: usize) -> RingModel {
        RingModel {
            trbs: Seq::new((len - 1) as nat, |k: int| Trb { w0: 0, w1: 0, w2: 0, w3: 0 }).push(
                spec_link_trb(base).spec_with_cycle(false),
            ),
            base,
            index: 0,
            cycle: true,
            enqueued: 0,
        }
    }

    /// The ring after one more enqueue. The block is written with the producer cycle
    /// at the enqueue index. Where the index would step onto the link block, the link
    /// block is handed to the consumer (written with the cycle of the pass that ends),
    /// the index returns to 0 and the producer cycle flips.
    pub open spec fn enqueue(self, trb: Trb) -> RingModel {
        let written = self.trbs.update(self.index, trb.spec_with_cycle(self.cycle));
        if self.index + 1 == self.usable() {
            RingModel {
                trbs: written.update(self.trbs.len() - 1, self.link(!self.cycle)),
                base: self.base,
                index: 0,
                cycle: !self.cycle,
                enqueued: self.enqueued + 1,
            }
        } else {
            RingModel {
                trbs: written,
                base: self.base,
                index: self.index + 1,
                cycle: self.cycle,
                enqueued: self.enqueued + 1,
            }
        }
    }

    /// The ring after the blocks `trbs` have been enqueued one after the other.
    pub open spec fn enqueue_all(self, trbs: Seq<Trb>) -> RingModel
        decreases trbs.len(),
    {
        if trbs.len() == 0 {
            self
        } else {
            self.enqueue_all(trbs.drop_last()).enqueue(trbs.last())
        }
    }

    /// The index of the entry at physical address `addr`, if `addr` is the address of
    /// an entry.
    pub open spec fn index_of(self, addr: u64) -> Option<int> {
        if addr >= self.base && (addr - self.base) % (TRB_BYTES as int) == 0 && (addr - self.base)
            / (TRB_BYTES as int) < self.trbs.len() {
            Some((addr - self.base) / (TRB_BYTES as int))
        } else {
            None
        }
    }

    /// The block at physical address `addr`, if `addr` is the address of an entry.
    pub open spec fn get(self, addr: u64) -> Option<Trb> {
        match self.index_of(addr) {
            Some(k) => Some(self.trbs[k]),
            None => None,
        }
    }
}

/// A command or transfer ring.
///
/// The ring keeps an image of its memory; the caller copies what was enqueued to the
/// DMA buffer at the address that enqueuing returns. Software writes each block with
/// the current producer cycle; an entry whose cycle bit differs from the cycle of the
/// consumer is not yet the consumer's to read.
pub struct Ring {
    trbs: Vec<Trb>,
    base: u64,
    i: usize,
    cycle: bool,
    enqueued: Ghost<nat>,
}

impl View for Ring {
    type V = RingModel;

    closed spec fn view(&self) -> RingModel {
        RingModel {
            trbs: self.trbs@,
            base: self.base,
            index: self.i as int,
            cycle: self.cycle,
            enqueued: self.enqueued@,
        }
    }
}

impl Ring {
    /// The invariant of the ring: that of its model.
    pub open spec fn wf(&self) -> bool {
        self@.wf()
    }

    /// Whether a ring of `len` entries can lie at `base`.
    pub open spec fn placeable(base: u64, len: usize) -> bool {
        &&& len >= 2
        &&& base % 64 == 0
        &&& base + TRB_BYTES * len <= u64::MAX
    }

    /// Tells whether a ring of `len` entries can lie at `base`.
    pub fn is_placeable(base: u64, len: usize) -> (b: bool)
        ensures
            b == Self::placeable(base, len),
    {
        if len < 2 || base % 64 != 0 {
            return false;
        }
        len as u64 <= (u64::MAX - base) / TRB_BYTES
    }

    /// Makes a ring of `len` entries over zeroed memory at physical address `base`, with
    /// producer cycle 1 and the link block in place. Returns `None` exactly when no ring
    /// can lie there: fewer than two entries, a base that is not 64-byte aligned, or
    /// addresses beyond 64 bits.
    pub fn new(base: u64, len: usize) -> (r: Option<Ring>)
        ensures
            r.is_some() <==> Self::placeable(base, len),
            r matches Some(ring) ==> ring.wf() && ring@ == RingModel::fresh(base, len),
    {
        if len < 2 || base % 64 != 0 {
            return None;
        }
        if len as u64 > (u64::MAX - base) / TRB_BYTES {
            return None;
        }
        let mut trbs: Vec<Trb> = Vec::new();
        let mut k: usize = 0;
        assert(0u32 & 1 != 1) by (bit_vector);
        while k < len - 1
            invariant
                k <= len - 1,
                trbs@.len() == k,
                forall|j: int|
                    0 <= j < k ==> #[trigger] trbs@[j] == (Trb { w0: 0, w1: 0, w2: 0, w3: 0 }),
            decreases len - 1 - k,
        {
            trbs.push(Trb::zeroed());
            k = k + 1;
        }
        let link = link_trb(base).with_cycle(false);
        trbs.push(link);
        let ring = Ring { trbs, base, i: 0, cycle: true, enqueued: Ghost(0) };
        assert(ring@.trbs =~= RingModel::fresh(base, len).trbs);
        assert(ring.wf()) by {
            assert(0int / ring@.usable() == 0 && 0int % ring@.usable() == 0) by (nonlinear_arith)
                requires
                    ring@.usable() >= 1,
            ;
        }
        Some(ring)
    }

    /// Number of entries, the link block included.
    pub fn len(&self) -> (n: usize)
        ensures
            n == self@.trbs.len(),
    {
        self.trbs.len()
    }

    /// The producer cycle: the cycle bit that the next enqueue writes.
    pub fn cycle(&self) -> (c: bool)
        ensures
            c == self@.cycle,
    {
        self.cycle
    }

    /// Index of the entry that the next enqueue writes.
    pub fn enqueue_index(&self) -> (i: usize)
        ensures
            i == self@.index,
    {
        self.i
    }

    /// The base address of the ring, for the pointer fields that tell the controller
    /// where the ring starts.
    pub fn register(&self) -> (p: u64)
        ensures
            p == self@.base,
    {
        self.base
    }

    /// Reads the block at physical address `addr`. Returns `None` exactly when `addr` is
    /// not the address of an entry of this ring.
    pub fn get(&self, addr: u64) -> (t: Option<Trb>)
        ensures
            t == self@.get(addr),
    {
        if addr < self.base {
            return None;
        }
        let off: u64 = addr - self.base;
        if off % TRB_BYTES != 0 {
            return None;
        }
        let k: u64 = off / TRB_BYTES;
        if k >= self.trbs.len() as u64 {
            return None;
        }
        Some(self.trbs[k as usize])
    }

    /// Reads entry `index`.
    pub fn entry(&self, index: usize) -> (t: Trb)
        requires
            index < self@.trbs.len(),
        ensures
            t == self@.trbs[index as int],
    {
        self.trbs[index]
    }

    /// Physical address of entry `index`.
    pub fn addr_of(&self, index: usize) -> (p: u64)
        requires
            self.wf(),
            index < self@.trbs.len(),
        ensures
            p == self@.addr_of(index as int),
            self@.index_of(p) == Some(index as int),
    {
        let p: u64 = self.base + TRB_BYTES * (index as u64);
        assert((TRB_BYTES * index) % (TRB_BYTES as int) == 0 && (TRB_BYTES * index) / (
        TRB_BYTES as int) == index) by (nonlinear_arith);
        p
    }

    /// Writes `trb` with the producer cycle at the enqueue index and advances, as
    /// `RingModel::enqueue` says. Returns the physical address of the block written.
    fn enqueue_trb(&mut self, trb: Trb) -> (addr: u64)
        requires
            old(self).wf(),
        ensures
            final(self).wf(),
            final(self)@ == old(self)@.enqueue(trb),
            addr == old(self)@.next_addr(),
    {
        let index: usize = self.i;
        let len: usize = self.trbs.len();
        let cycle: bool = self.cycle;
        let addr: u64 = self.addr_of(index);
        let stamped = trb.with_cycle(cycle);
        proof {
            lemma_enqueue_keeps_wf(self@, trb);
        }
        self.trbs.set(index, stamped);
        if index + 1 == len - 1 {
            let link = link_trb(self.base).with_cycle(cycle);
            self.trbs.set(len - 1, link);
            self.i = 0;
            self.cycle = !cycle;
        } else {
            self.i = index + 1;
        }
        self.enqueued = Ghost((self.enqueued@ + 1) as nat);
        assert(self@.trbs =~= old(self)@.enqueue(trb).trbs);
        addr
    }

    /// Enqueues a transfer block, as `RingModel::enqueue` says. Returns the physical
    /// address of the block, under which its completion will be reported; reading the
    /// ring at that address gives the block back as it was written.
    pub fn enqueue_transfer(&mut self, trb: Trb) -> (addr: u64)
        requires
            old(self).wf(),
        ensures
            final(self).wf(),
            final(self)@ == old(self)@.enqueue(trb),
            addr == old(self)@.next_addr(),
            final(self)@.get(addr) == Some(trb.spec_with_cycle(old(self)@.cycle)),
    {
        proof {
            lemma_read_back(self@, trb);
        }
        self.enqueue_trb(trb)
    }

    /// Enqueues a command block; the ring behaves as for a transfer block.
    pub fn enqueue_command(&mut self, trb: Trb) -> (addr: u64)
        requires
            old(self).wf(),
        ensures
            final(self).wf(),
            final(self)@ == old(self)@.enqueue(trb),
            addr == old(self)@.next_addr(),
            final(self)@.get(addr) == Some(trb.spec_with_cycle(old(self)@.cycle)),
    {
        proof {
            lemma_read_back(self@, trb);
        }
        self.enqueue_trb(trb)
    }
}

/// One more enqueue moves the index by one within a pass, and starts the next pass at
/// index 0 when the pass is full.
proof fn lemma_step(n: nat, usable: int)
    requires
        usable >= 1,
    ensures
        n as int % usable + 1 < usable ==> (n + 1) as int % usable == n as int % usable + 1 && (n
            + 1) as int / usable == n as int / usable,
        n as int % usable + 1 == usable ==> (n + 1) as int % usable == 0 && (n + 1) as int / usable
            == n as int / usable + 1,
{
    let q = n as int / usable;
    let r = n as int % usable;
    assert(n as int == q * usable + r && 0 <= r < usable) by (nonlinear_arith)
        requires
            q == n as int / usable,
            r == n as int % usable,
            usable >= 1,
    ;
    if r + 1 < usable {
        vstd::arithmetic::div_mod::lemma_fundamental_div_mod_converse(
            (n + 1) as int,
            usable,
            q,
            r + 1,
        );
    } else {
        assert((q + 1) * usable + 0 == n + 1) by (nonlinear_arith)
            requires
                n as int == q * usable + r,
                r + 1 == usable,
        ;
        vstd::arithmetic::div_mod::lemma_fundamental_div_mod_converse(
            (n + 1) as int,
            usable,
            q + 1,
            0,
        );
    }
}

/// Enqueuing keeps the invariant of the ring.
pub proof fn lemma_enqueue_keeps_wf(ring: RingModel, trb: Trb)
    requires
        ring.wf(),
    ensures
        ring.enqueue(trb).wf(),
        ring.enqueue(trb).trbs.len() == ring.trbs.len(),
        ring.enqueue(trb).base == ring.base,
{
    lemma_step(ring.enqueued, ring.usable());
    let after = ring.enqueue(trb);
    let stamped = trb.spec_with_cycle(ring.cycle);
    let w: u32 = trb.w3;
    assert(((w | 1) & 1 == 1) && ((w & 0xffff_fffe) & 1 == 0)) by (bit_vector);
    assert(stamped.spec_cycle_bit() == ring.cycle);
    let l: u32 = spec_link_trb(ring.base).w3;
    assert(((l | 1) & 1 == 1) && ((l & 0xffff_fffe) & 1 == 0)) by (bit_vector);
}

/// Wraparound: an enqueue at the last usable index leaves the enqueue index at 0, flips
/// the producer cycle, and hands the link block to the consumer with its toggle-cycle
/// bit set; any other enqueue moves the index by one and keeps the cycle and the link.
pub proof fn lemma_wraparound(ring: RingModel, trb: Trb)
    requires
        ring.wf(),
    ensures
        ring.index + 1 == ring.usable() ==> {
            &&& ring.enqueue(trb).index == 0
            &&& ring.enqueue(trb).cycle == !ring.cycle
            &&& ring.enqueue(trb).wraps() == ring.wraps() + 1
            &&& ring.enqueue(trb).trbs.last().spec_cycle_bit() == ring.cycle
            &&& ring.enqueue(trb).trbs.last().spec_toggle_cycle()
            &&& ring.enqueue(trb).trbs.last().spec_pointer() == ring.base
        },
        ring.index + 1 < ring.usable() ==> {
            &&& ring.enqueue(trb).index == ring.index + 1
            &&& ring.enqueue(trb).cycle == ring.cycle
            &&& ring.enqueue(trb).wraps() == ring.wraps()
            &&& ring.enqueue(trb).trbs.last() == ring.trbs.last()
        },
{
    lemma_step(ring.enqueued, ring.usable());
    let l: u32 = spec_link_trb(ring.base).w3;
    assert(((l | 1) & 1 == 1) && ((l & 0xffff_fffe) & 1 == 0) && ((l | 1) & 2 == l & 2) && ((l
        & 0xffff_fffe) & 2 == l & 2)) by (bit_vector);
    assert(0x1802u32 & 2 == 2) by (bit_vector);
    lemma_split_join(ring.base);
}

/// Reading back: after an enqueue, the ring holds at the returned address the block
/// that was enqueued, with the producer cycle of the moment in its cycle bit.
pub proof fn lemma_read_back(ring: RingModel, trb: Trb)
    requires
        ring.wf(),
    ensures
        ring.enqueue(trb).get(ring.next_addr() as u64) == Some(trb.spec_with_cycle(ring.cycle)),
        ring.enqueue(trb).index_of(ring.next_addr() as u64) == Some(ring.index),
{
    let i = ring.index;
    assert((TRB_BYTES * i) % (TRB_BYTES as int) == 0 && (TRB_BYTES * i) / (TRB_BYTES as int) == i)
        by (nonlinear_arith);
    assert(TRB_BYTES * i <= TRB_BYTES * ring.trbs.len()) by (nonlinear_arith)
        requires
            0 <= i < ring.trbs.len(),
    ;
}

/// Cycle-bit coherence over a run of enqueues: after any number of enqueues on a
/// well-formed ring, the ring is well formed, it has counted the enqueues, and its
/// producer cycle is the cycle before the run flipped once for each wraparound that the
/// run has gone through.
pub proof fn lemma_cycle_after_enqueues(ring: RingModel, trbs: Seq<Trb>)
    requires
        ring.wf(),
    ensures
        ring.enqueue_all(trbs).wf(),
        ring.enqueue_all(trbs).enqueued == ring.enqueued + trbs.len(),
        ring.enqueue_all(trbs).trbs.len() == ring.trbs.len(),
        ring.enqueue_all(trbs).base == ring.base,
        ring.enqueue_all(trbs).wraps() >= ring.wraps(),
        ring.enqueue_all(trbs).cycle == (ring.cycle ^ ((ring.enqueue_all(trbs).wraps()
            - ring.wraps()) % 2 == 1)),
    decreases trbs.len(),
{
    if trbs.len() > 0 {
        let before = ring.enqueue_all(trbs.drop_last());
        lemma_cycle_after_enqueues(ring, trbs.drop_last());
        lemma_enqueue_keeps_wf(before, trbs.last());
        lemma_wraparound(before, trbs.last());
    }
}

/// Cycle-bit coherence: on any well-formed ring, the producer cycle is the initial cycle
/// 1 flipped once for each wraparound that the enqueues so far have gone through, and
/// the enqueue index is where that many enqueues leave it.
pub proof fn lemma_cycle_coherence(ring: RingModel)
    requires
        ring.wf(),
    ensures
        ring.cycle == (true ^ (ring.wraps() % 2 == 1)),
        ring.wraps() == ring.enqueued as int / (ring.trbs.len() - 1),
        ring.index == ring.enqueued as int % (ring.trbs.len() - 1),
{
}

/// Address uniqueness within a pass: two different enqueues between the same two
/// wraparounds write at different physical addresses.
pub proof fn lemma_addresses_unique_within_pass(ring: RingModel, k1: nat, k2: nat)
    requires
        ring.wf(),
        k1 != k2,
        k1 as int / ring.usable() == k2 as int / ring.usable(),
    ensures
        ring.address_of_enqueue(k1) != ring.address_of_enqueue(k2),
{
    let u = ring.usable();
    vstd::arithmetic::div_mod::lemma_fundamental_div_mod(k1 as int, u);
    vstd::arithmetic::div_mod::lemma_fundamental_div_mod(k2 as int, u);
    assert(k1 as int % u != k2 as int % u);
}

/// The next enqueue writes where the count of enqueues says: at the address of enqueue
/// number `enqueued`.
pub proof fn lemma_next_addr(ring: RingModel)
    requires
        ring.wf(),
    ensures
        ring.next_addr() == ring.address_of_enqueue(ring.enqueued),
        ring.base <= ring.next_addr() < ring.base + TRB_BYTES * ring.usable(),
        ring.next_addr() % 16 == 0,
{
    let i = ring.index;
    assert(TRB_BYTES * i < TRB_BYTES * ring.usable()) by (nonlinear_arith)
        requires
            0 <= i < ring.usable(),
    ;
    assert((ring.base + TRB_BYTES * i) % 16 == 0) by (nonlinear_arith)
        requires
            ring.base % 64 == 0,
            TRB_BYTES == 16,
    ;
}

/// Different entries of a ring lie at different physical addresses, and looking up the
/// address of an entry finds that entry.
pub proof fn lemma_entry_addresses_distinct(ring: RingModel, i: int, j: int)
    requires
        ring.wf(),
        0 <= i < ring.trbs.len(),
        0 <= j < ring.trbs.len(),
        i != j,
    ensures
        ring.addr_of(i) != ring.addr_of(j),
        ring.index_of(ring.addr_of(i) as u64) == Some(i),
{
    assert((TRB_BYTES * i) % (TRB_BYTES as int) == 0 && (TRB_BYTES * i) / (TRB_BYTES as int) == i)
        by (nonlinear_arith);
    assert(TRB_BYTES * i <= TRB_BYTES * ring.trbs.len()) by (nonlinear_arith)
        requires
            0 <= i < ring.trbs.len(),
    ;
}

} // verus!
