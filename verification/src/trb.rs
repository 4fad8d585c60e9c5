//! Transfer request blocks: the 16-byte records that the rings carry.
//!
//! A record is kept as its four 32-bit words. The records that the engine posts are
//! built by the `xhci` crate; each builder here states, word by word, what comes back.

use vstd::prelude::*;
use xhci::ring::trb::command;
use xhci::ring::trb::transfer;
use xhci::ring::trb::Link;

verus! {

/// One transfer request block, as its four words in memory order.
#[derive(Copy, Clone, Debug, PartialEq, Eq, Structural, Hash)]
pub struct Trb {
    pub w0: u32,
    pub w1: u32,
    pub w2: u32,
    pub w3: u32,
}

/// The size of a block in memory, in bytes.
pub const TRB_BYTES: u64 = 16;

pub const TYPE_NORMAL: u32 = 1;

pub const TYPE_SETUP_STAGE: u32 = 2;

pub const TYPE_DATA_STAGE: u32 = 3;

pub const TYPE_STATUS_STAGE: u32 = 4;

pub const TYPE_LINK: u32 = 6;

pub const TYPE_ENABLE_SLOT: u32 = 9;

pub const TYPE_ADDRESS_DEVICE: u32 = 11;

pub const TYPE_CONFIGURE_ENDPOINT: u32 = 12;

pub const TYPE_EVALUATE_CONTEXT: u32 = 13;

/// The low half of a 64-bit pointer.
pub open spec fn low_word(p: u64) -> u32 {
    (p & 0xffff_ffff) as u32
}

/// The high half of a 64-bit pointer.
pub open spec fn high_word(p: u64) -> u32 {
    (p >> 32) as u32
}

/// The pointer whose halves are `lo` and `hi`.
pub open spec fn join_words(lo: u32, hi: u32) -> u64 {
    ((hi as u64) << 32) | (lo as u64)
}

/// Splitting a pointer and joining the halves gives the pointer back.
pub proof fn lemma_split_join(p: u64)
    ensures
        join_words(low_word(p), high_word(p)) == p,
{
    assert(((((p >> 32) as u32) as u64) << 32) | (((p & 0xffff_ffff) as u32) as u64) == p)
        by (bit_vector);
}

/// Joining two halves and splitting the pointer gives the halves back.
pub proof fn lemma_join_split(lo: u32, hi: u32)
    ensures
        low_word(join_words(lo, hi)) == lo,
        high_word(join_words(lo, hi)) == hi,
{
    assert((((((hi as u64) << 32) | (lo as u64)) & 0xffff_ffff) as u32) == lo && ((((hi as u64)
        << 32) | (lo as u64)) >> 32) as u32 == hi) by (bit_vector);
}

impl Trb {
    pub fn new(w0: u32, w1: u32, w2: u32, w3: u32) -> (t: Trb)
        ensures
            t == (Trb { w0, w1, w2, w3 }),
    {
        Trb { w0, w1, w2, w3 }
    }

    /// The block of zeros: what fresh ring memory holds.
    pub fn zeroed() -> (t: Trb)
        ensures
            t == (Trb { w0: 0, w1: 0, w2: 0, w3: 0 }),
    {
        Trb { w0: 0, w1: 0, w2: 0, w3: 0 }
    }

    pub open spec fn spec_trb_type(self) -> u32 {
        (self.w3 >> 10) & 0x3f
    }

    /// The TRB type: bits 10 to 15 of the last word.
    #[verifier::when_used_as_spec(spec_trb_type)]
    pub fn trb_type(self) -> (t: u32)
        ensures
            t == self.spec_trb_type(),
            t < 64,
    {
        let w: u32 = self.w3;
        assert((w >> 10) & 0x3f < 64) by (bit_vector);
        (w >> 10) & 0x3f
    }

    pub open spec fn spec_cycle_bit(self) -> bool {
        self.w3 & 1 == 1
    }

    /// The cycle bit: bit 0 of the last word.
    #[verifier::when_used_as_spec(spec_cycle_bit)]
    pub fn cycle_bit(self) -> (c: bool)
        ensures
            c == self.spec_cycle_bit(),
    {
        self.w3 & 1 == 1
    }

    pub open spec fn spec_with_cycle(self, cycle: bool) -> Trb {
        Trb {
            w0: self.w0,
            w1: self.w1,
            w2: self.w2,
            w3: if cycle {
                self.w3 | 1
            } else {
                self.w3 & 0xffff_fffe
            },
        }
    }

    /// The same block with its cycle bit set to `cycle`; no other bit changes.
    #[verifier::when_used_as_spec(spec_with_cycle)]
    pub fn with_cycle(self, cycle: bool) -> (t: Trb)
        ensures
            t == self.spec_with_cycle(cycle),
            t.spec_cycle_bit() == cycle,
            t.spec_trb_type() == self.spec_trb_type(),
            t.w3 & 0xffff_fffe == self.w3 & 0xffff_fffe,
            self.spec_cycle_bit() == cycle ==> t == self,
    {
        let w: u32 = self.w3;
        assert(((w | 1) & 1 == 1) && ((w & 0xffff_fffe) & 1 == 0) && (((w | 1) >> 10) & 0x3f == (w
            >> 10) & 0x3f) && (((w & 0xffff_fffe) >> 10) & 0x3f == (w >> 10) & 0x3f) && ((w | 1)
            & 0xffff_fffe == w & 0xffff_fffe) && ((w & 0xffff_fffe) & 0xffff_fffe == w
            & 0xffff_fffe) && (w & 1 == 1 ==> w | 1 == w) && (w & 1 != 1 ==> w & 0xffff_fffe
            == w)) by (bit_vector);
        let w3: u32 = if cycle {
            w | 1
        } else {
            w & 0xffff_fffe
        };
        Trb { w0: self.w0, w1: self.w1, w2: self.w2, w3 }
    }

    pub open spec fn spec_pointer(self) -> u64 {
        join_words(self.w0, self.w1)
    }

    /// The 64-bit pointer held in the first two words.
    #[verifier::when_used_as_spec(spec_pointer)]
    pub fn pointer(self) -> (p: u64)
        ensures
            p == self.spec_pointer(),
    {
        ((self.w1 as u64) << 32) | (self.w0 as u64)
    }

    pub open spec fn spec_interrupt_on_completion(self) -> bool {
        self.w3 & 0x20 == 0x20
    }

    /// Whether the block asks for an event when it completes: bit 5 of the last word.
    #[verifier::when_used_as_spec(spec_interrupt_on_completion)]
    pub fn interrupt_on_completion(self) -> (b: bool)
        ensures
            b == self.spec_interrupt_on_completion(),
    {
        self.w3 & 0x20 == 0x20
    }

    pub open spec fn spec_interrupt_on_short_packet(self) -> bool {
        self.w3 & 0x4 == 0x4
    }

    /// Whether the block asks for an event on a short packet: bit 2 of the last word.
    #[verifier::when_used_as_spec(spec_interrupt_on_short_packet)]
    pub fn interrupt_on_short_packet(self) -> (b: bool)
        ensures
            b == self.spec_interrupt_on_short_packet(),
    {
        self.w3 & 0x4 == 0x4
    }

    pub open spec fn spec_toggle_cycle(self) -> bool {
        self.w3 & 0x2 == 0x2
    }

    /// Whether a link block tells the consumer to flip its cycle state: bit 1 of the
    /// last word.
    #[verifier::when_used_as_spec(spec_toggle_cycle)]
    pub fn toggle_cycle(self) -> (b: bool)
        ensures
            b == self.spec_toggle_cycle(),
    {
        self.w3 & 0x2 == 0x2
    }
}

/// How the data stage of a control transfer runs, as the setup stage announces it.
#[derive(Copy, Clone, Debug, PartialEq, Eq, Structural, Hash)]
pub enum TransferType {
    /// No data stage.
    No,
    /// Data goes to the device.
    Out,
    /// Data comes from the device.
    In,
}

impl TransferType {
    /// The code in bits 16 and 17 of a setup stage block.
    pub open spec fn spec_code(self) -> u32 {
        match self {
            TransferType::No => 0,
            TransferType::Out => 2,
            TransferType::In => 3,
        }
    }
}

/// The largest length that the 17-bit transfer length field of a block holds.
pub const MAX_TRB_TRANSFER_LENGTH: u32 = 0x1_ffff;

/// The largest interrupter number that the 10-bit target field of a block holds.
pub const MAX_INTERRUPTER_TARGET: u16 = 0x3ff;

/// The normal block that an interrupt transfer posts.
pub open spec fn spec_normal_trb(buffer: u64, length: u32, interrupter_target: u16) -> Trb {
    Trb {
        w0: low_word(buffer),
        w1: high_word(buffer),
        w2: length | ((interrupter_target as u32) << 22),
        w3: 0x424,
    }
}

/// Builds a normal block with `xhci`'s `Normal`: `new`, then `set_data_buffer_pointer`,
/// `set_trb_transfer_length`, `set_interrupter_target`, `set_interrupt_on_short_packet`
/// and `set_interrupt_on_completion`, then `into_raw`. Claimed: the buffer pointer fills
/// the first two words, the length bits 0 to 16 and the target bits 22 to 31 of the
/// third, and the last word holds type 1 with bits 2 and 5 set and the cycle bit clear.
/// The two field setters panic on a value that does not fit, which `requires` excludes.
#[verifier::external_body]
pub(crate) fn normal_trb(buffer: u64, length: u32, interrupter_target: u16) -> (t: Trb)
    requires
        length <= MAX_TRB_TRANSFER_LENGTH,
        interrupter_target <= MAX_INTERRUPTER_TARGET,
    ensures
        t == spec_normal_trb(buffer, length, interrupter_target),
{
    let mut n = transfer::Normal::new();
    n.set_data_buffer_pointer(buffer);
    n.set_trb_transfer_length(length);
    n.set_interrupter_target(interrupter_target);
    n.set_interrupt_on_short_packet();
    n.set_interrupt_on_completion();
    let r = n.into_raw();
    Trb { w0: r[0], w1: r[1], w2: r[2], w3: r[3] }
}

/// The setup stage block of a control transfer.
pub open spec fn spec_setup_stage_trb(
    request_type: u8,
    request: u8,
    value: u16,
    index: u16,
    length: u16,
    transfer_type: TransferType,
) -> Trb {
    Trb {
        w0: (request_type as u32) | ((request as u32) << 8) | ((value as u32) << 16),
        w1: (index as u32) | ((length as u32) << 16),
        w2: 8,
        w3: 0x840 | (transfer_type.spec_code() << 16),
    }
}

/// Builds a setup stage block with `xhci`'s `SetupStage`: `new`, then `set_request_type`,
/// `set_request`, `set_value`, `set_index`, `set_transfer_type` and `set_length`, then
/// `into_raw`. Claimed: the five setup fields fill the first two words in packet order,
/// the third word holds the fixed transfer length 8, and the last word holds type 2,
/// the immediate-data bit 6 and the transfer type in bits 16 and 17.
#[verifier::external_body]
pub(crate) fn setup_stage_trb(
    request_type: u8,
    request: u8,
    value: u16,
    index: u16,
    length: u16,
    transfer_type: TransferType,
) -> (t: Trb)
    ensures
        t == spec_setup_stage_trb(request_type, request, value, index, length, transfer_type),
{
    let mut s = transfer::SetupStage::new();
    s.set_request_type(request_type).set_request(request).set_value(value).set_index(index);
    s.set_transfer_type(match transfer_type {
        TransferType::No => transfer::TransferType::No,
        TransferType::Out => transfer::TransferType::Out,
        TransferType::In => transfer::TransferType::In,
    });
    s.set_length(length);
    let r = s.into_raw();
    Trb { w0: r[0], w1: r[1], w2: r[2], w3: r[3] }
}

/// The data stage block of a control transfer.
pub open spec fn spec_data_stage_trb(buffer: u64, length: u32, direction_in: bool) -> Trb {
    Trb {
        w0: low_word(buffer),
        w1: high_word(buffer),
        w2: length,
        w3: if direction_in {
            0x1_0c00
        } else {
            0xc00
        },
    }
}

/// Builds a data stage block with `xhci`'s `DataStage`: `new`, then
/// `set_data_buffer_pointer`, `set_trb_transfer_length` and `set_direction`, then
/// `into_raw`. Claimed: the buffer pointer fills the first two words, the length the
/// third, and the last word holds type 3 and the direction in bit 16. The length setter
/// panics on a value above 17 bits, which `requires` excludes.
#[verifier::external_body]
pub(crate) fn data_stage_trb(buffer: u64, length: u32, direction_in: bool) -> (t: Trb)
    requires
        length <= MAX_TRB_TRANSFER_LENGTH,
    ensures
        t == spec_data_stage_trb(buffer, length, direction_in),
{
    let mut d = transfer::DataStage::new();
    d.set_data_buffer_pointer(buffer);
    d.set_trb_transfer_length(length);
    d.set_direction(transfer::Direction::from(direction_in));
    let r = d.into_raw();
    Trb { w0: r[0], w1: r[1], w2: r[2], w3: r[3] }
}

/// The status stage block of a control transfer.
pub open spec fn spec_status_stage_trb(direction_in: bool) -> Trb {
    Trb {
        w0: 0,
        w1: 0,
        w2: 0,
        w3: if direction_in {
            0x1_1020
        } else {
            0x1020
        },
    }
}

/// Builds a status stage block towards the device with `xhci`'s `StatusStage`: `new`,
/// then `set_interrupt_on_completion`, then `into_raw`. Claimed: all is zero but the
/// last word, which holds type 4 and bit 5.
#[verifier::external_body]
pub(crate) fn status_stage_trb() -> (t: Trb)
    ensures
        t == spec_status_stage_trb(false),
{
    let mut s = transfer::StatusStage::new();
    s.set_interrupt_on_completion();
    let r = s.into_raw();
    Trb { w0: r[0], w1: r[1], w2: r[2], w3: r[3] }
}

/// Builds a status stage block towards the host with `xhci`'s `StatusStage`: `new`, then
/// `set_interrupt_on_completion` and `set_direction`, then `into_raw`. Claimed: all is
/// zero but the last word, which holds type 4, bit 5 and the direction bit 16.
#[verifier::external_body]
pub(crate) fn status_stage_in_trb() -> (t: Trb)
    ensures
        t == spec_status_stage_trb(true),
{
    let mut s = transfer::StatusStage::new();
    s.set_interrupt_on_completion();
    s.set_direction();
    let r = s.into_raw();
    Trb { w0: r[0], w1: r[1], w2: r[2], w3: r[3] }
}

/// The link block that closes a ring whose first block lies at `segment`.
pub open spec fn spec_link_trb(segment: u64) -> Trb {
    Trb { w0: low_word(segment), w1: high_word(segment), w2: 0, w3: 0x1802 }
}

/// Builds a link block with `xhci`'s `Link`: `new`, then `set_ring_segment_pointer` and
/// `set_toggle_cycle`, then `into_raw`. Claimed: the segment pointer fills the first two
/// words, and the last word holds type 6 and the toggle-cycle bit 1. The pointer setter
/// panics unless the pointer is a multiple of 16, which `requires` demands.
#[verifier::external_body]
pub(crate) fn link_trb(segment: u64) -> (t: Trb)
    requires
        segment % 16 == 0,
    ensures
        t == spec_link_trb(segment),
{
    let mut l = Link::new();
    l.set_ring_segment_pointer(segment);
    l.set_toggle_cycle();
    let r = l.into_raw();
    Trb { w0: r[0], w1: r[1], w2: r[2], w3: r[3] }
}

/// The largest slot type that the 5-bit field of an enable-slot command holds.
pub const MAX_SLOT_TYPE: u8 = 31;

/// The enable-slot command.
pub open spec fn spec_enable_slot_trb(slot_type: u8) -> Trb {
    Trb { w0: 0, w1: 0, w2: 0, w3: 0x2400 | ((slot_type as u32) << 16) }
}

/// Builds an enable-slot command with `xhci`'s `EnableSlot`: `new`, then `set_slot_type`,
/// then `into_raw`. Claimed: all is zero but the last word, which holds type 9 and the
/// slot type in bits 16 to 20. The setter panics on a value above 5 bits, which
/// `requires` excludes.
#[verifier::external_body]
pub(crate) fn enable_slot_trb(slot_type: u8) -> (t: Trb)
    requires
        slot_type <= MAX_SLOT_TYPE,
    ensures
        t == spec_enable_slot_trb(slot_type),
{
    let mut c = command::EnableSlot::new();
    c.set_slot_type(slot_type);
    let r = c.into_raw();
    Trb { w0: r[0], w1: r[1], w2: r[2], w3: r[3] }
}

/// A command that names a slot and points at an input context: the pointer in the first
/// two words, the type in bits 10 to 15 and the slot in bits 24 to 31 of the last.
pub open spec fn spec_slot_command_trb(trb_type: u32, slot_id: u8, input_context: u64) -> Trb {
    Trb {
        w0: low_word(input_context),
        w1: high_word(input_context),
        w2: 0,
        w3: (trb_type << 10) | ((slot_id as u32) << 24),
    }
}

/// Builds an address-device command with `xhci`'s `AddressDevice`: `new`, then
/// `set_slot_id` and `set_input_context_pointer`, then `into_raw`. Claimed: the layout of
/// a slot command of type 11. The pointer setter panics unless the pointer is a multiple
/// of 16, which `requires` demands.
#[verifier::external_body]
pub(crate) fn address_device_trb(slot_id: u8, input_context: u64) -> (t: Trb)
    requires
        input_context % 16 == 0,
    ensures
        t == spec_slot_command_trb(TYPE_ADDRESS_DEVICE, slot_id, input_context),
{
    let mut c = command::AddressDevice::new();
    c.set_slot_id(slot_id);
    c.set_input_context_pointer(input_context);
    let r = c.into_raw();
    Trb { w0: r[0], w1: r[1], w2: r[2], w3: r[3] }
}

/// Builds an evaluate-context command with `xhci`'s `EvaluateContext`: `new`, then
/// `set_slot_id` and `set_input_context_pointer`, then `into_raw`. Claimed: the layout of
/// a slot command of type 13. The pointer setter panics unless the pointer is a multiple
/// of 16, which `requires` demands.
#[verifier::external_body]
pub(crate) fn evaluate_context_trb(slot_id: u8, input_context: u64) -> (t: Trb)
    requires
        input_context % 16 == 0,
    ensures
        t == spec_slot_command_trb(TYPE_EVALUATE_CONTEXT, slot_id, input_context),
{
    let mut c = command::EvaluateContext::new();
    c.set_slot_id(slot_id);
    c.set_input_context_pointer(input_context);
    let r = c.into_raw();
    Trb { w0: r[0], w1: r[1], w2: r[2], w3: r[3] }
}

/// Builds a configure-endpoint command with `xhci`'s `ConfigureEndpoint`: `new`, then
/// `set_slot_id` and `set_input_context_pointer`, then `into_raw`. Claimed: the layout of
/// a slot command of type 12. The pointer setter panics unless the pointer is a multiple
/// of 16, which `requires` demands.
#[verifier::external_body]
pub(crate) fn configure_endpoint_trb(slot_id: u8, input_context: u64) -> (t: Trb)
    requires
        input_context % 16 == 0,
    ensures
        t == spec_slot_command_trb(TYPE_CONFIGURE_ENDPOINT, slot_id, input_context),
{
    let mut c = command::ConfigureEndpoint::new();
    c.set_slot_id(slot_id);
    c.set_input_context_pointer(input_context);
    let r = c.into_raw();
    Trb { w0: r[0], w1: r[1], w2: r[2], w3: r[3] }
}

/// A normal block as built is of type normal, asks for an event on completion and on a
/// short packet, points at its buffer, and has its cycle bit clear.
pub proof fn lemma_normal_trb(buffer: u64, length: u32, interrupter_target: u16)
    ensures
        spec_normal_trb(buffer, length, interrupter_target).spec_trb_type() == TYPE_NORMAL,
        spec_normal_trb(buffer, length, interrupter_target).spec_interrupt_on_completion(),
        spec_normal_trb(buffer, length, interrupter_target).spec_interrupt_on_short_packet(),
        !spec_normal_trb(buffer, length, interrupter_target).spec_cycle_bit(),
        spec_normal_trb(buffer, length, interrupter_target).spec_pointer() == buffer,
{
    lemma_split_join(buffer);
    assert((0x424u32 >> 10) & 0x3f == 1 && 0x424u32 & 0x20 == 0x20 && 0x424u32 & 0x4 == 0x4
        && 0x424u32 & 1 != 1) by (bit_vector);
}

/// The blocks of a control transfer as built are of the types setup stage, data stage
/// and status stage; the status stage asks for an event on completion; and all have
/// their cycle bit clear.
pub proof fn lemma_control_trbs(
    request_type: u8,
    request: u8,
    value: u16,
    index: u16,
    length: u16,
    transfer_type: TransferType,
    buffer: u64,
    data_length: u32,
    direction_in: bool,
)
    ensures
        spec_setup_stage_trb(
            request_type,
            request,
            value,
            index,
            length,
            transfer_type,
        ).spec_trb_type() == TYPE_SETUP_STAGE,
        !spec_setup_stage_trb(
            request_type,
            request,
            value,
            index,
            length,
            transfer_type,
        ).spec_cycle_bit(),
        spec_data_stage_trb(buffer, data_length, direction_in).spec_trb_type() == TYPE_DATA_STAGE,
        !spec_data_stage_trb(buffer, data_length, direction_in).spec_cycle_bit(),
        spec_data_stage_trb(buffer, data_length, direction_in).spec_pointer() == buffer,
        spec_status_stage_trb(direction_in).spec_trb_type() == TYPE_STATUS_STAGE,
        spec_status_stage_trb(direction_in).spec_interrupt_on_completion(),
        !spec_status_stage_trb(direction_in).spec_cycle_bit(),
{
    lemma_split_join(buffer);
    let c: u32 = transfer_type.spec_code();
    assert(((0x840u32 | (c << 16)) >> 10) & 0x3f == 2 && (0x840u32 | (c << 16)) & 1 != 1)
        by (bit_vector)
        requires
            c <= 3,
    ;
    assert((0xc00u32 >> 10) & 0x3f == 3 && (0x1_0c00u32 >> 10) & 0x3f == 3 && 0xc00u32 & 1 != 1
        && 0x1_0c00u32 & 1 != 1 && (0x1020u32 >> 10) & 0x3f == 4 && (0x1_1020u32 >> 10) & 0x3f
        == 4 && 0x1020u32 & 0x20 == 0x20 && 0x1_1020u32 & 0x20 == 0x20 && 0x1020u32 & 1 != 1
        && 0x1_1020u32 & 1 != 1) by (bit_vector);
}

/// A link block as built is of type link, tells the consumer to toggle its cycle,
/// points at the segment, and has its cycle bit clear.
pub proof fn lemma_link_trb(segment: u64)
    ensures
        spec_link_trb(segment).spec_trb_type() == TYPE_LINK,
        spec_link_trb(segment).spec_toggle_cycle(),
        !spec_link_trb(segment).spec_cycle_bit(),
        spec_link_trb(segment).spec_pointer() == segment,
{
    lemma_split_join(segment);
    assert((0x1802u32 >> 10) & 0x3f == 6 && 0x1802u32 & 2 == 2 && 0x1802u32 & 1 != 1)
        by (bit_vector);
}

/// The commands as built carry their type and have their cycle bit clear; a slot
/// command points at its input context and names its slot in the top byte.
pub proof fn lemma_command_trbs(slot_type: u8, trb_type: u32, slot_id: u8, input_context: u64)
    requires
        slot_type <= MAX_SLOT_TYPE,
        trb_type < 64,
    ensures
        spec_enable_slot_trb(slot_type).spec_trb_type() == TYPE_ENABLE_SLOT,
        !spec_enable_slot_trb(slot_type).spec_cycle_bit(),
        spec_slot_command_trb(trb_type, slot_id, input_context).spec_trb_type() == trb_type,
        !spec_slot_command_trb(trb_type, slot_id, input_context).spec_cycle_bit(),
        spec_slot_command_trb(trb_type, slot_id, input_context).spec_pointer() == input_context,
        spec_slot_command_trb(trb_type, slot_id, input_context).w3 >> 24 == slot_id,
{
    lemma_split_join(input_context);
    let t: u32 = slot_type as u32;
    let s: u32 = slot_id as u32;
    assert(((0x2400u32 | (t << 16)) >> 10) & 0x3f == 9 && (0x2400u32 | (t << 16)) & 1 != 1)
        by (bit_vector)
        requires
            t <= 31,
    ;
    assert((((trb_type << 10) | (s << 24)) >> 10) & 0x3f == trb_type && ((trb_type << 10) | (s
        << 24)) & 1 != 1 && ((trb_type << 10) | (s << 24)) >> 24 == s) by (bit_vector)
        requires
            trb_type < 64,
            s <= 255,
    ;
}

} // verus!
