//! The device context list: the base address array that the controller indexes by slot,
//! and for each enabled slot its input context, its output context and the transfer
//! rings of its endpoints.

use crate::context::{EndpointContext, InputContext, InputControl, SlotContext, CONTROL_DCI};
use crate::ring::{Ring, RingModel};
use crate::trb::Trb;
use std::collections::BTreeMap;
use vstd::prelude::*;

verus! {

broadcast use vstd::std_specs::btree::group_btree_axioms;

/// The number of entries of the base address array: one for each slot id, with entry 0
/// kept for the scratchpad array.
pub const DCBAA_ENTRIES: usize = 256;

/// Why an operation on the device context list was refused.
#[derive(Copy, Clone, Debug, PartialEq, Eq, Structural, Hash)]
pub enum ContextError {
    /// Slot 0 is no device slot.
    ReservedSlot,
    /// The slot has not been enabled.
    NoSuchSlot,
    /// The device context index is not one that the slot has a context for.
    BadIndex,
    /// The memory offered does not lie where the structure can lie.
    BadMemory,
}

/// The memory that the caller has allocated for a new slot, by physical address.
#[derive(Copy, Clone, Debug, PartialEq, Eq, Structural, Hash)]
pub struct SlotMemory {
    pub input_context: u64,
    pub output_context: u64,
    /// Memory for the ring of the default control endpoint.
    pub control_ring: u64,
}

/// Where a transfer ring starts and which cycle its consumer starts with.
#[derive(Copy, Clone, Debug, PartialEq, Eq, Structural, Hash)]
pub struct RingInfo {
    pub register: u64,
    pub cycle: bool,
}

/// The scratchpad buffer array: the pages that the controller asks for, and the array
/// of their addresses that the base address array points at.
#[derive(Clone, Debug)]
pub struct ScratchpadBufferArray {
    /// Physical addresses of the pages; the caller writes them into the array.
    pub entries: Vec<u64>,
    /// Physical address of the array.
    pub addr: u64,
    /// The size of a page.
    pub page_size: usize,
}

impl ScratchpadBufferArray {
    /// Whether a scratchpad array can lie at `addr`: at a real, aligned address.
    pub open spec fn placeable(addr: u64) -> bool {
        addr != 0 && addr % 64 == 0
    }

    /// Whether every page lies at a multiple of the page size.
    pub open spec fn page_aligned(pages: Seq<u64>, page_size: usize) -> bool {
        page_size >= 1 && forall|k: int|
            0 <= k < pages.len() ==> (#[trigger] pages[k]) % (page_size as u64) == 0
    }

    /// The invariant: the array lies at a real, aligned address, and it names at least
    /// one page, all of them page-aligned.
    pub open spec fn wf(&self) -> bool {
        &&& Self::placeable(self.addr)
        &&& self.entries@.len() >= 1
        &&& Self::page_aligned(self.entries@, self.page_size)
    }

    /// Tells whether every page lies at a multiple of the page size.
    pub fn is_page_aligned(pages: &Vec<u64>, page_size: usize) -> (b: bool)
        ensures
            b == Self::page_aligned(pages@, page_size),
    {
        if page_size < 1 {
            return false;
        }
        let mut k: usize = 0;
        while k < pages.len()
            invariant
                k <= pages@.len(),
                page_size >= 1,
                forall|j: int| 0 <= j < k ==> (#[trigger] pages@[j]) % (page_size as u64) == 0,
            decreases pages@.len() - k,
        {
            if pages[k] % (page_size as u64) != 0 {
                return false;
            }
            k = k + 1;
        }
        true
    }

    /// The address that goes into entry 0 of the base address array.
    pub fn register(&self) -> (a: u64)
        ensures
            a == self.addr,
    {
        self.addr
    }
}

/// The state of one enabled slot.
pub struct SlotInner {
    /// The input context, rewritten before each command that changes the slot.
    pub in_ctx: InputContext,
    /// Physical address of the output context, which the controller writes.
    pub out_ctx: u64,
    /// How many contexts the slot has room for: its device context indices run from 1
    /// to `entries - 1`.
    pub entries: usize,
    /// The transfer ring of each endpoint that has one, by device context index.
    pub transfer_rings: BTreeMap<usize, Ring>,
}

impl SlotInner {
    /// The invariant of a slot: aligned contexts, between 2 and 32 contexts, a ring for
    /// the default control endpoint, and every ring well formed, of the list's ring
    /// length, and under an index that the slot has.
    pub open spec fn wf(&self, ring_len: usize) -> bool {
        &&& self.in_ctx.wf()
        &&& self.out_ctx % 64 == 0
        &&& 2 <= self.entries <= 32
        &&& self.transfer_rings@.contains_key(CONTROL_DCI)
        &&& forall|dci: usize| #[trigger]
            self.transfer_rings@.contains_key(dci) ==> {
                &&& 1 <= dci < self.entries
                &&& self.transfer_rings@[dci].wf()
                &&& self.transfer_rings@[dci]@.trbs.len() == ring_len
            }
    }
}

/// The device context list.
pub struct DeviceContextList {
    /// The base address array as it stands in memory.
    pub dcbaa: Vec<u64>,
    /// Physical address of the base address array.
    pub dcbaa_addr: u64,
    /// Number of entries of every transfer ring, the link block included.
    pub ring_len: usize,
    pub device_ctx_inners: BTreeMap<u8, SlotInner>,
    pub scratchpad: Option<ScratchpadBufferArray>,
}

impl DeviceContextList {
    /// The slots that are enabled, with their state.
    pub open spec fn slots(&self) -> Map<u8, SlotInner> {
        self.device_ctx_inners@
    }

    /// Whether the endpoint `dci` of `slot` has a transfer ring.
    pub open spec fn spec_has_transfer_ring(&self, slot: u8, dci: usize) -> bool {
        self.slots().contains_key(slot) && self.slots()[slot].transfer_rings@.contains_key(dci)
    }

    /// The transfer ring of endpoint `dci` of `slot`.
    pub open spec fn ring(&self, slot: u8, dci: usize) -> RingModel {
        self.slots()[slot].transfer_rings@[dci]@
    }

    /// Whether `self` differs from `before` at most in the transfer ring of endpoint
    /// `dci` of `slot`: the base address array, the scratchpads, the slots, the contexts
    /// and every other ring are the same, and that endpoint has a ring as before.
    pub open spec fn only_ring_changed(&self, before: Self, slot: u8, dci: usize) -> bool {
        &&& self.dcbaa == before.dcbaa
        &&& self.dcbaa_addr == before.dcbaa_addr
        &&& self.ring_len == before.ring_len
        &&& self.scratchpad == before.scratchpad
        &&& self.slots().dom() == before.slots().dom()
        &&& forall|s: u8|
            s != slot && before.slots().contains_key(s) ==> #[trigger] self.slots()[s]
                == before.slots()[s]
        &&& self.slots()[slot].in_ctx == before.slots()[slot].in_ctx
        &&& self.slots()[slot].out_ctx == before.slots()[slot].out_ctx
        &&& self.slots()[slot].entries == before.slots()[slot].entries
        &&& self.slots()[slot].transfer_rings@.dom() == before.slots()[slot].transfer_rings@.dom()
        &&& forall|d: usize|
            d != dci && before.spec_has_transfer_ring(slot, d) ==> #[trigger] self.ring(slot, d)
                == before.ring(slot, d)
    }

    /// The invariant of the list.
    ///
    /// - The base address array has 256 entries and is aligned.
    /// - Entry 0 holds the address of the scratchpad array if there is one, and 0 if
    ///   there is none; slot 0 is never enabled.
    /// - The entry of every enabled slot holds the address of that slot's output
    ///   context, and the entry of every other slot is 0.
    /// - Every enabled slot is well formed.
    pub open spec fn wf(&self) -> bool {
        &&& self.dcbaa@.len() == DCBAA_ENTRIES
        &&& self.dcbaa_addr % 64 == 0
        &&& self.ring_len >= 2
        &&& match self.scratchpad {
            Some(s) => s.wf() && self.dcbaa@[0] == s.addr,
            None => self.dcbaa@[0] == 0,
        }
        &&& !self.slots().contains_key(0)
        &&& forall|slot: u8| #[trigger]
            self.slots().contains_key(slot) ==> {
                &&& self.slots()[slot].wf(self.ring_len)
                &&& self.dcbaa@[slot as int] == self.slots()[slot].out_ctx
            }
        &&& forall|slot: u8|
            slot >= 1 && !self.slots().contains_key(slot) ==> #[trigger] self.dcbaa@[slot as int]
                == 0
    }

    /// Whether a list with rings of `ring_len` entries can have its base address array
    /// at `dcbaa_addr`.
    pub open spec fn placeable(dcbaa_addr: u64, ring_len: usize) -> bool {
        dcbaa_addr % 64 == 0 && ring_len >= 2
    }

    /// Makes a list with no slot enabled and no scratchpads, over a zeroed base address
    /// array at `dcbaa_addr`. Every transfer ring made later has `ring_len` entries.
    /// Returns `None` exactly when the address is not aligned to 64 bytes or the ring
    /// length is below 2.
    pub fn new(dcbaa_addr: u64, ring_len: usize) -> (r: Option<Self>)
        ensures
            r.is_some() <==> Self::placeable(dcbaa_addr, ring_len),
            r matches Some(list) ==> {
                &&& list.wf()
                &&& list.dcbaa_addr == dcbaa_addr
                &&& list.ring_len == ring_len
                &&& list.slots() == Map::<u8, SlotInner>::empty()
                &&& list.scratchpad.is_none()
                &&& forall|k: int| 0 <= k < DCBAA_ENTRIES ==> #[trigger] list.dcbaa@[k] == 0
            },
    {
        if dcbaa_addr % 64 != 0 || ring_len < 2 {
            return None;
        }
        let mut dcbaa: Vec<u64> = Vec::new();
        let mut k: usize = 0;
        while k < DCBAA_ENTRIES
            invariant
                k <= DCBAA_ENTRIES,
                dcbaa@.len() == k,
                forall|j: int| 0 <= j < k ==> #[trigger] dcbaa@[j] == 0,
            decreases DCBAA_ENTRIES - k,
        {
            dcbaa.push(0);
            k = k + 1;
        }
        Some(
            DeviceContextList {
                dcbaa,
                dcbaa_addr,
                ring_len,
                device_ctx_inners: BTreeMap::new(),
                scratchpad: None,
            },
        )
    }

    /// The physical address of the base address array, for the controller's pointer
    /// register.
    pub fn dcbaap(&self) -> (a: u64)
        ensures
            a == self.dcbaa_addr,
    {
        self.dcbaa_addr
    }

    /// Installs the scratchpad array: `pages` are the pages of size `page_size` that
    /// the caller allocated, one for each buffer that the controller asks for, and
    /// `array_addr` is where the array of their addresses lies. With no page, with a
    /// page that is not page-aligned, or with an array address that is null or not
    /// aligned, nothing changes and `false` comes back. Otherwise entry 0 of the base
    /// address array points at the array.
    pub fn setup_scratchpads(&mut self, pages: Vec<u64>, array_addr: u64, page_size: usize) -> (installed:
        bool)
        requires
            old(self).wf(),
        ensures
            final(self).wf(),
            installed <==> pages@.len() >= 1 && ScratchpadBufferArray::placeable(array_addr)
                && ScratchpadBufferArray::page_aligned(pages@, page_size),
            !installed ==> *final(self) == *old(self),
            installed ==> {
                &&& final(self).scratchpad matches Some(s)
                &&& s.addr == array_addr
                &&& s.page_size == page_size
                &&& s.entries@ == pages@
                &&& final(self).dcbaa@ == old(self).dcbaa@.update(0, array_addr)
                &&& final(self).slots() == old(self).slots()
                &&& final(self).dcbaa_addr == old(self).dcbaa_addr
                &&& final(self).ring_len == old(self).ring_len
            },
    {
        if pages.len() == 0 || array_addr == 0 || array_addr % 64 != 0 {
            return false;
        }
        if !ScratchpadBufferArray::is_page_aligned(&pages, page_size) {
            return false;
        }
        self.dcbaa.set(0, array_addr);
        self.scratchpad = Some(ScratchpadBufferArray { entries: pages, addr: array_addr, page_size });
        true
    }

    /// Whether `slot` is enabled.
    pub fn has_slot(&self, slot: u8) -> (b: bool)
        ensures
            b == self.slots().contains_key(slot),
    {
        self.device_ctx_inners.contains_key(&slot)
    }

    /// Whether the endpoint `dci` of `slot` has a transfer ring.
    #[verifier::when_used_as_spec(spec_has_transfer_ring)]
    pub fn has_transfer_ring(&self, slot: u8, dci: usize) -> (b: bool)
        ensures
            b == self.spec_has_transfer_ring(slot, dci),
    {
        match self.device_ctx_inners.get(&slot) {
            Some(inner) => inner.transfer_rings.contains_key(&dci),
            None => false,
        }
    }

    /// The transfer ring of endpoint `dci` of `slot`, if there is one.
    pub fn read_transfer_ring(&self, slot: u8, dci: usize) -> (r: Option<&Ring>)
        ensures
            r.is_some() <==> self.spec_has_transfer_ring(slot, dci),
            r matches Some(ring) ==> ring@ == self.ring(slot, dci) && (self.wf() ==> ring.wf()),
    {
        match self.device_ctx_inners.get(&slot) {
            Some(inner) => inner.transfer_rings.get(&dci),
            None => None,
        }
    }

    /// The input context of `slot`, if the slot is enabled.
    pub fn input_context(&self, slot: u8) -> (r: Option<&InputContext>)
        ensures
            r.is_some() <==> self.slots().contains_key(slot),
            r matches Some(c) ==> *c == self.slots()[slot].in_ctx,
    {
        match self.device_ctx_inners.get(&slot) {
            Some(inner) => Some(&inner.in_ctx),
            None => None,
        }
    }

    /// Whether `new_slot` accepts the memory: both contexts aligned to 64 bytes, and
    /// room for a ring at the address for the control ring.
    pub open spec fn memory_fits(&self, mem: SlotMemory) -> bool {
        &&& mem.input_context % 64 == 0
        &&& mem.output_context % 64 == 0
        &&& Ring::placeable(mem.control_ring, self.ring_len)
    }

    /// What `new_slot` answers.
    pub open spec fn spec_new_slot(&self, slot_id: u8, entries: usize, mem: SlotMemory) -> Result<
        (),
        ContextError,
    > {
        if slot_id == 0 {
            Err(ContextError::ReservedSlot)
        } else if entries < 2 || entries > 32 {
            Err(ContextError::BadIndex)
        } else if !self.memory_fits(mem) {
            Err(ContextError::BadMemory)
        } else {
            Ok(())
        }
    }

    /// Enables `slot_id` with room for `entries` contexts: an empty input context, the
    /// output context, and a fresh ring for the default control endpoint, all in the
    /// memory that `mem` names; the slot's entry of the base address array is pointed
    /// at the output context. A slot that was enabled before is replaced.
    ///
    /// Refused, with nothing changed: slot 0 (`ReservedSlot`), fewer than 2 or more
    /// than 32 contexts (`BadIndex`), memory that does not fit (`BadMemory`).
    pub fn new_slot(&mut self, slot_id: u8, entries: usize, mem: SlotMemory) -> (r: Result<
        (),
        ContextError,
    >)
        requires
            old(self).wf(),
        ensures
            final(self).wf(),
            r == old(self).spec_new_slot(slot_id, entries, mem),
            r.is_err() ==> *final(self) == *old(self),
            r.is_ok() ==> {
                &&& final(self).slots().dom() == old(self).slots().dom().insert(slot_id)
                &&& forall|s: u8|
                    s != slot_id && old(self).slots().contains_key(s) ==> #[trigger] final(self).slots()[s] == old(self).slots()[s]
                &&& final(self).dcbaa@ == old(self).dcbaa@.update(
                    slot_id as int,
                    mem.output_context,
                )
                &&& final(self).dcbaa_addr == old(self).dcbaa_addr
                &&& final(self).ring_len == old(self).ring_len
                &&& final(self).scratchpad == old(self).scratchpad
                &&& final(self).slots()[slot_id].out_ctx == mem.output_context
                &&& final(self).slots()[slot_id].entries == entries
                &&& final(self).slots()[slot_id].in_ctx.spec_addr() == mem.input_context
                &&& final(self).slots()[slot_id].in_ctx.control == (InputControl {
                    drop_flags: 0,
                    add_flags: 0,
                    configuration_value: 0,
                    interface_number: 0,
                    alternate_setting: 0,
                })
                &&& final(self).slots()[slot_id].in_ctx.slot
                    == SlotContext::spec_for_root_port(0, 0, 0)
                &&& forall|dci: int|
                    1 <= dci <= 31 ==> #[trigger] final(self).slots()[slot_id].in_ctx.spec_endpoint(
                        dci,
                    ) == EndpointContext::spec_disabled()
                &&& final(self).slots()[slot_id].transfer_rings@.dom() == set![CONTROL_DCI]
                &&& final(self).ring(slot_id, CONTROL_DCI) == RingModel::fresh(
                    mem.control_ring,
                    old(self).ring_len,
                )
            },
    {
        if slot_id == 0 {
            return Err(ContextError::ReservedSlot);
        }
        if entries < 2 || entries > 32 {
            return Err(ContextError::BadIndex);
        }
        if mem.output_context % 64 != 0 {
            return Err(ContextError::BadMemory);
        }
        let in_ctx = match InputContext::new(mem.input_context) {
            Some(in_ctx) => in_ctx,
            None => {
                return Err(ContextError::BadMemory);
            },
        };
        let ring = match Ring::new(mem.control_ring, self.ring_len) {
            Some(ring) => ring,
            None => {
                return Err(ContextError::BadMemory);
            },
        };
        let mut transfer_rings: BTreeMap<usize, Ring> = BTreeMap::new();
        transfer_rings.insert(CONTROL_DCI, ring);
        let inner = SlotInner {
            in_ctx,
            out_ctx: mem.output_context,
            entries,
            transfer_rings,
        };
        assert(inner.transfer_rings@.dom() =~= set![CONTROL_DCI]);
        self.dcbaa.set(slot_id as usize, mem.output_context);
        self.device_ctx_inners.insert(slot_id, inner);
        Ok(())
    }

    /// What `write_transfer_ring` answers.
    pub open spec fn spec_write_transfer_ring(&self, slot: u8, dci: usize, fresh: u64) -> Result<
        RingInfo,
        ContextError,
    > {
        if !self.slots().contains_key(slot) {
            Err(ContextError::NoSuchSlot)
        } else if dci < 1 || dci >= self.slots()[slot].entries {
            Err(ContextError::BadIndex)
        } else if self.spec_has_transfer_ring(slot, dci) {
            Ok(
                RingInfo {
                    register: self.ring(slot, dci).base,
                    cycle: self.ring(slot, dci).cycle,
                },
            )
        } else if !Ring::placeable(fresh, self.ring_len) {
            Err(ContextError::BadMemory)
        } else {
            Ok(RingInfo { register: fresh, cycle: true })
        }
    }

    /// Finds the transfer ring of endpoint `dci` of `slot`, and makes it on first
    /// access: a ring that exists is left as it is, and `fresh` is not used; where
    /// there is none yet, a new ring is made in the memory at `fresh`. Returns where
    /// the ring starts and its producer cycle.
    ///
    /// Refused, with nothing changed: a slot that is not enabled (`NoSuchSlot`), an
    /// index that the slot has no context for (`BadIndex`), and, where a ring has to be
    /// made, memory that does not fit (`BadMemory`).
    pub fn write_transfer_ring(&mut self, slot: u8, dci: usize, fresh: u64) -> (r: Result<
        RingInfo,
        ContextError,
    >)
        requires
            old(self).wf(),
        ensures
            final(self).wf(),
            r == old(self).spec_write_transfer_ring(slot, dci, fresh),
            (r.is_err() || old(self).spec_has_transfer_ring(slot, dci)) ==> *final(self) == *old(self),
            r.is_ok() ==> {
                &&& final(self).spec_has_transfer_ring(slot, dci)
                &&& final(self).dcbaa == old(self).dcbaa
                &&& final(self).dcbaa_addr == old(self).dcbaa_addr
                &&& final(self).ring_len == old(self).ring_len
                &&& final(self).scratchpad == old(self).scratchpad
                &&& final(self).slots().dom() == old(self).slots().dom()
                &&& forall|s: u8|
                    s != slot && old(self).slots().contains_key(s) ==> #[trigger] final(self).slots()[s] == old(self).slots()[s]
                &&& final(self).slots()[slot].in_ctx == old(self).slots()[slot].in_ctx
                &&& final(self).slots()[slot].out_ctx == old(self).slots()[slot].out_ctx
                &&& final(self).slots()[slot].entries == old(self).slots()[slot].entries
                &&& final(self).slots()[slot].transfer_rings@.dom() == old(self).slots()[slot].transfer_rings@.dom().insert(dci)
                &&& forall|d: usize|
                    d != dci && old(self).spec_has_transfer_ring(slot, d) ==> #[trigger] final(self).ring(slot, d) == old(self).ring(slot, d)
                &&& final(self).ring(slot, dci).base == r.unwrap().register
                &&& final(self).ring(slot, dci).cycle == r.unwrap().cycle
                &&& !old(self).spec_has_transfer_ring(slot, dci) ==> final(self).ring(slot, dci)
                    == RingModel::fresh(fresh, old(self).ring_len)
            },
    {
        let entries: usize = match self.device_ctx_inners.get(&slot) {
            Some(inner) => inner.entries,
            None => {
                return Err(ContextError::NoSuchSlot);
            },
        };
        if dci < 1 || dci >= entries {
            return Err(ContextError::BadIndex);
        }
        match self.read_transfer_ring(slot, dci) {
            Some(ring) => {
                return Ok(RingInfo { register: ring.register(), cycle: ring.cycle() });
            },
            None => {},
        }
        let ring = match Ring::new(fresh, self.ring_len) {
            Some(ring) => ring,
            None => {
                return Err(ContextError::BadMemory);
            },
        };
        let ghost before = *self;
        let mut inner = self.device_ctx_inners.remove(&slot).unwrap();
        inner.transfer_rings.insert(dci, ring);
        self.device_ctx_inners.insert(slot, inner);
        assert(self.slots().dom() =~= before.slots().dom());
        Ok(RingInfo { register: fresh, cycle: true })
    }

    /// Enqueues `trb` on the transfer ring of endpoint `dci` of `slot` and returns the
    /// physical address of the block written. Returns `None`, with nothing changed,
    /// exactly when that endpoint has no ring.
    pub fn enqueue_transfer(&mut self, slot: u8, dci: usize, trb: Trb) -> (r: Option<u64>)
        requires
            old(self).wf(),
        ensures
            final(self).wf(),
            r.is_some() <==> old(self).spec_has_transfer_ring(slot, dci),
            r.is_none() ==> *final(self) == *old(self),
            r matches Some(addr) ==> {
                &&& final(self).only_ring_changed(*old(self), slot, dci)
                &&& addr == old(self).ring(slot, dci).next_addr()
                &&& final(self).ring(slot, dci) == old(self).ring(slot, dci).enqueue(trb)
                &&& final(self).ring(slot, dci).get(addr) == Some(
                    trb.spec_with_cycle(old(self).ring(slot, dci).cycle),
                )
            },
    {
        if !self.has_transfer_ring(slot, dci) {
            return None;
        }
        let ghost before = *self;
        let mut inner = self.device_ctx_inners.remove(&slot).unwrap();
        let mut ring = inner.transfer_rings.remove(&dci).unwrap();
        let addr = ring.enqueue_transfer(trb);
        inner.transfer_rings.insert(dci, ring);
        self.device_ctx_inners.insert(slot, inner);
        assert(self.slots().dom() =~= before.slots().dom());
        assert(self.slots()[slot].transfer_rings@.dom() =~= before.slots()[slot].transfer_rings@.dom());
        Some(addr)
    }
}

/// Base address array consistency: in a well-formed list, the entry of every enabled
/// slot holds the physical address of that slot's output context, and entry 0 holds the
/// physical address of the scratchpad array exactly when there are scratchpads (and is
/// 0 otherwise).
pub proof fn lemma_dcbaa_consistency(list: DeviceContextList)
    requires
        list.wf(),
    ensures
        forall|slot: u8| #[trigger]
            list.slots().contains_key(slot) ==> list.dcbaa@[slot as int]
                == list.slots()[slot].out_ctx,
        list.scratchpad matches Some(s) ==> list.dcbaa@[0] == s.addr,
        list.scratchpad.is_some() <==> list.dcbaa@[0] != 0,
{
}

} // verus!
