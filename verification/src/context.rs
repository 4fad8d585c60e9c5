//! The contexts through which software tells the controller about a device: the input
//! control context, the slot context and the endpoint contexts, field by field.
//!
//! The values here are what the engine decides. The words that stand for them in memory
//! are laid out by the `xhci` crate; each encoder here states, word by word, what comes
//! back. Each well-formedness predicate says that every field fits the bits that the
//! hardware layout has for it.

use crate::operations::{EndpointInfo, EndpointType};
use crate::trb::{high_word, low_word};
use vstd::prelude::*;
use xhci::context::{EndpointHandler, InputControlHandler, SlotHandler};

verus! {

/// The device context index of the default control endpoint.
pub const CONTROL_DCI: usize = 1;

/// The number of endpoint contexts in a device context: one for each index from 1 to 31.
pub const NUM_OF_ENDPOINT_CONTEXTS: usize = 31;

/// Whether flag `i` is set in a mask of context flags.
pub open spec fn flag(mask: u32, i: u32) -> bool {
    (mask >> i) & 1 == 1
}

/// The input control context: which contexts a command adds or drops, and the
/// configuration that a configure-endpoint command selects.
#[derive(Copy, Clone, Debug, PartialEq, Eq, Structural, Hash)]
pub struct InputControl {
    /// Drop flags D0 to D31, D`i` in bit `i`.
    pub drop_flags: u32,
    /// Add flags A0 to A31, A`i` in bit `i`. A0 stands for the slot context.
    pub add_flags: u32,
    pub configuration_value: u8,
    pub interface_number: u8,
    pub alternate_setting: u8,
}

impl InputControl {
    /// The context with nothing set.
    pub fn new() -> (c: Self)
        ensures
            c == (InputControl {
                drop_flags: 0,
                add_flags: 0,
                configuration_value: 0,
                interface_number: 0,
                alternate_setting: 0,
            }),
    {
        InputControl {
            drop_flags: 0,
            add_flags: 0,
            configuration_value: 0,
            interface_number: 0,
            alternate_setting: 0,
        }
    }

    /// Sets add flag `i` and leaves the others as they are.
    pub fn set_add_context_flag(&mut self, i: usize)
        requires
            i <= 31,
        ensures
            final(self).add_flags == old(self).add_flags | (1u32 << (i as u32)),
            flag(final(self).add_flags, i as u32),
            final(self).drop_flags == old(self).drop_flags,
            final(self).configuration_value == old(self).configuration_value,
            final(self).interface_number == old(self).interface_number,
            final(self).alternate_setting == old(self).alternate_setting,
    {
        let m: u32 = self.add_flags;
        let s: u32 = i as u32;
        assert(((m | (1u32 << s)) >> s) & 1 == 1) by (bit_vector)
            requires
                s <= 31,
        ;
        self.add_flags = m | (1u32 << s);
    }

    /// Clears every add flag but A0 and A1, which stand for the slot and for the
    /// default control endpoint.
    pub fn clear_all_nonep0_add_flag(&mut self)
        ensures
            final(self).add_flags == old(self).add_flags & 3,
            final(self).drop_flags == old(self).drop_flags,
            final(self).configuration_value == old(self).configuration_value,
            final(self).interface_number == old(self).interface_number,
            final(self).alternate_setting == old(self).alternate_setting,
    {
        self.add_flags = self.add_flags & 3;
    }

    /// Clears the drop flags D2 to D31, which are all that a command may drop.
    pub fn clear_drop_context_flags(&mut self)
        ensures
            final(self).drop_flags == old(self).drop_flags & 3,
            final(self).add_flags == old(self).add_flags,
            final(self).configuration_value == old(self).configuration_value,
            final(self).interface_number == old(self).interface_number,
            final(self).alternate_setting == old(self).alternate_setting,
    {
        self.drop_flags = self.drop_flags & 3;
    }
}

/// The slot context: what the controller needs to know of the device as a whole. The
/// device is never a hub: the hub and multi-TT flags of the context are always clear.
#[derive(Copy, Clone, Debug, PartialEq, Eq, Structural, Hash)]
pub struct SlotContext {
    /// 20 bits.
    pub route_string: u32,
    /// The port speed code, 4 bits.
    pub speed: u8,
    /// Index of the last valid endpoint context, 5 bits.
    pub context_entries: u8,
    pub max_exit_latency: u16,
    pub root_hub_port_number: u8,
    pub number_of_ports: u8,
    pub parent_hub_slot_id: u8,
    /// 2 bits.
    pub tt_think_time: u8,
    /// 10 bits.
    pub interrupter_target: u16,
}

impl SlotContext {
    /// Every field fits its bits.
    pub open spec fn wf(self) -> bool {
        &&& self.route_string <= 0xf_ffff
        &&& self.speed <= 15
        &&& self.context_entries <= 31
        &&& self.tt_think_time <= 3
        &&& self.interrupter_target <= 0x3ff
    }

    /// Tells whether every field fits its bits.
    pub fn is_wf(&self) -> (b: bool)
        ensures
            b == self.wf(),
    {
        self.route_string <= 0xf_ffff && self.speed <= 15 && self.context_entries <= 31
            && self.tt_think_time <= 3 && self.interrupter_target <= 0x3ff
    }

    /// The context with nothing set.
    pub fn new() -> (c: Self)
        ensures
            c.wf(),
            c == Self::spec_for_root_port(0, 0, 0),
    {
        SlotContext {
            route_string: 0,
            speed: 0,
            context_entries: 0,
            max_exit_latency: 0,
            root_hub_port_number: 0,
            number_of_ports: 0,
            parent_hub_slot_id: 0,
            tt_think_time: 0,
            interrupter_target: 0,
        }
    }

    /// The slot context of a device that hangs directly on a root hub port: no hub, no
    /// route, the given speed and port, and `context_entries` valid contexts.
    pub open spec fn spec_for_root_port(
        root_hub_port_number: u8,
        speed: u8,
        context_entries: u8,
    ) -> SlotContext {
        SlotContext {
            route_string: 0,
            speed,
            context_entries,
            max_exit_latency: 0,
            root_hub_port_number,
            number_of_ports: 0,
            parent_hub_slot_id: 0,
            tt_think_time: 0,
            interrupter_target: 0,
        }
    }
}

/// An endpoint context: what the controller needs to know to run one endpoint.
#[derive(Copy, Clone, Debug, PartialEq, Eq, Structural, Hash)]
pub struct EndpointContext {
    /// 2 bits.
    pub mult: u8,
    /// 5 bits.
    pub max_primary_streams: u8,
    pub interval: u8,
    /// 2 bits.
    pub error_count: u8,
    pub endpoint_type: EndpointType,
    pub max_burst_size: u8,
    pub max_packet_size: u16,
    /// The consumer cycle that the controller starts the ring with.
    pub dequeue_cycle_state: bool,
    /// Physical address of the first block of the ring, a multiple of 64.
    pub tr_dequeue_pointer: u64,
    pub max_endpoint_service_time_interval_payload_low: u16,
}

impl EndpointContext {
    /// Every field fits its bits, and the ring pointer is aligned.
    pub open spec fn wf(self) -> bool {
        &&& self.mult <= 3
        &&& self.max_primary_streams <= 31
        &&& self.error_count <= 3
        &&& self.tr_dequeue_pointer % 64 == 0
    }

    /// Tells whether every field fits its bits and the ring pointer is aligned.
    pub fn is_wf(&self) -> (b: bool)
        ensures
            b == self.wf(),
    {
        self.mult <= 3 && self.max_primary_streams <= 31 && self.error_count <= 3
            && self.tr_dequeue_pointer % 64 == 0
    }

    /// The context of an endpoint that is not in use.
    pub open spec fn spec_disabled() -> EndpointContext {
        EndpointContext {
            mult: 0,
            max_primary_streams: 0,
            interval: 0,
            error_count: 0,
            endpoint_type: EndpointType::NotValid,
            max_burst_size: 0,
            max_packet_size: 0,
            dequeue_cycle_state: false,
            tr_dequeue_pointer: 0,
            max_endpoint_service_time_interval_payload_low: 0,
        }
    }

    /// The context of an endpoint that is not in use.
    pub fn disabled() -> (c: Self)
        ensures
            c == Self::spec_disabled(),
            c.wf(),
    {
        EndpointContext {
            mult: 0,
            max_primary_streams: 0,
            interval: 0,
            error_count: 0,
            endpoint_type: EndpointType::NotValid,
            max_burst_size: 0,
            max_packet_size: 0,
            dequeue_cycle_state: false,
            tr_dequeue_pointer: 0,
            max_endpoint_service_time_interval_payload_low: 0,
        }
    }

    /// The context of the default control endpoint: type control, the given packet
    /// size, error count 3, and the ring at `ring` with consumer cycle `cycle`.
    pub open spec fn spec_control(max_packet_size: u16, ring: u64, cycle: bool) -> EndpointContext {
        EndpointContext {
            mult: 0,
            max_primary_streams: 0,
            interval: 0,
            error_count: 3,
            endpoint_type: EndpointType::Control,
            max_burst_size: 0,
            max_packet_size,
            dequeue_cycle_state: cycle,
            tr_dequeue_pointer: ring,
            max_endpoint_service_time_interval_payload_low: 0,
        }
    }

    /// The context of the default control endpoint.
    pub fn control(max_packet_size: u16, ring: u64, cycle: bool) -> (c: Self)
        ensures
            c == Self::spec_control(max_packet_size, ring, cycle),
            ring % 64 == 0 ==> c.wf(),
    {
        EndpointContext {
            mult: 0,
            max_primary_streams: 0,
            interval: 0,
            error_count: 3,
            endpoint_type: EndpointType::Control,
            max_burst_size: 0,
            max_packet_size,
            dequeue_cycle_state: cycle,
            tr_dequeue_pointer: ring,
            max_endpoint_service_time_interval_payload_low: 0,
        }
    }

    /// Whether an endpoint type is periodic: interrupt or isochronous.
    pub open spec fn periodic(t: EndpointType) -> bool {
        t == EndpointType::IsochOut || t == EndpointType::IsochIn || t
            == EndpointType::InterruptOut || t == EndpointType::InterruptIn
    }

    /// Whether an endpoint type is isochronous.
    pub open spec fn isochronous(t: EndpointType) -> bool {
        t == EndpointType::IsochOut || t == EndpointType::IsochIn
    }

    /// The context that configures the endpoint `ep` on the ring at `ring` with
    /// consumer cycle `cycle`.
    ///
    /// For every type: the mapped endpoint type, the ring and its cycle, error count 3,
    /// the descriptor's packet size, and the descriptor's interval less one. A periodic
    /// endpoint instead gets the packet size without its upper bits, which become the
    /// burst size, a payload of 4 and interval 1; an isochronous one also gets error
    /// count 0.
    pub open spec fn spec_for_endpoint(ep: EndpointInfo, ring: u64, cycle: bool) -> EndpointContext {
        let t = ep.spec_endpoint_type();
        if Self::periodic(t) {
            EndpointContext {
                mult: 0,
                max_primary_streams: 0,
                interval: 1,
                error_count: if Self::isochronous(t) {
                    0
                } else {
                    3
                },
                endpoint_type: t,
                max_burst_size: ((ep.max_packet_size & 0x1800) >> 11) as u8,
                max_packet_size: ep.max_packet_size & 0x7ff,
                dequeue_cycle_state: cycle,
                tr_dequeue_pointer: ring,
                max_endpoint_service_time_interval_payload_low: 4,
            }
        } else {
            EndpointContext {
                mult: 0,
                max_primary_streams: 0,
                interval: (ep.interval - 1) as u8,
                error_count: 3,
                endpoint_type: t,
                max_burst_size: 0,
                max_packet_size: ep.max_packet_size,
                dequeue_cycle_state: cycle,
                tr_dequeue_pointer: ring,
                max_endpoint_service_time_interval_payload_low: 0,
            }
        }
    }

    /// Whether an endpoint can be configured: its type is valid and its interval is at
    /// least 1.
    pub open spec fn configurable(ep: EndpointInfo) -> bool {
        &&& ep.spec_endpoint_type() != EndpointType::NotValid
        &&& ep.interval >= 1
    }

    /// The context that configures the endpoint `ep` on the ring at `ring` with
    /// consumer cycle `cycle`.
    pub fn for_endpoint(ep: EndpointInfo, ring: u64, cycle: bool) -> (c: Self)
        requires
            Self::configurable(ep),
        ensures
            c == Self::spec_for_endpoint(ep, ring, cycle),
            ring % 64 == 0 ==> c.wf(),
    {
        let t = ep.endpoint_type();
        let mut c = EndpointContext {
            mult: 0,
            max_primary_streams: 0,
            interval: ep.interval - 1,
            error_count: 3,
            endpoint_type: t,
            max_burst_size: 0,
            max_packet_size: ep.max_packet_size,
            dequeue_cycle_state: cycle,
            tr_dequeue_pointer: ring,
            max_endpoint_service_time_interval_payload_low: 0,
        };
        match t {
            EndpointType::IsochOut | EndpointType::IsochIn | EndpointType::InterruptOut
            | EndpointType::InterruptIn => {
                let mps: u16 = ep.max_packet_size;
                assert((mps & 0x1800) >> 11 <= 3) by (bit_vector);
                c.max_packet_size = mps & 0x7ff;
                c.max_burst_size = ((mps & 0x1800) >> 11) as u8;
                c.mult = 0;
                match t {
                    EndpointType::IsochOut | EndpointType::IsochIn => {
                        c.error_count = 0;
                    },
                    _ => {},
                }
                c.max_endpoint_service_time_interval_payload_low = 4;
                c.interval = 1;
            },
            _ => {},
        }
        c
    }
}

/// The number of 32-bit words of one context.
pub const CONTEXT_WORDS: usize = 8;

/// The number of 32-bit words of an input context: the control context, the slot
/// context and 31 endpoint contexts.
pub const INPUT_CONTEXT_WORDS: usize = 264;

/// The words of an input control context: the drop flags, the add flags, five words
/// of zero, and the configuration value, the interface number and the alternate setting
/// in the low three bytes of the last word.
pub open spec fn spec_input_control_words(c: InputControl) -> Seq<u32> {
    seq![
        c.drop_flags,
        c.add_flags,
        0,
        0,
        0,
        0,
        0,
        (c.configuration_value as u32) | ((c.interface_number as u32) << 8) | ((
        c.alternate_setting as u32) << 16),
    ]
}

/// Lays out an input control context with `xhci`'s `InputControl32Byte`: `new_32byte`,
/// the two flag words stored through `as_mut`, then `set_configuration_value`,
/// `set_interface_number` and `set_alternate_setting`, and the words read through
/// `as_ref`. Claimed: the eight words of `spec_input_control_words`.
#[verifier::external_body]
pub(crate) fn input_control_words(c: InputControl) -> (w: Vec<u32>)
    ensures
        w@ == spec_input_control_words(c),
{
    let mut x = xhci::context::InputControl32Byte::new_32byte();
    x.as_mut()[0] = c.drop_flags;
    x.as_mut()[1] = c.add_flags;
    x.set_configuration_value(c.configuration_value);
    x.set_interface_number(c.interface_number);
    x.set_alternate_setting(c.alternate_setting);
    x.as_ref().to_vec()
}

/// The words of a slot context: the route string, the speed in bits 20 to 23 and the
/// context entries in bits 27 to 31 of the first word; the exit latency, the root hub
/// port in bits 16 to 23 and the number of ports in bits 24 to 31 of the second; the
/// parent hub slot, the think time in bits 16 and 17 and the interrupter target in bits
/// 22 to 31 of the third; and five words of zero.
pub open spec fn spec_slot_words(c: SlotContext) -> Seq<u32> {
    seq![
        c.route_string | ((c.speed as u32) << 20) | ((c.context_entries as u32) << 27),
        (c.max_exit_latency as u32) | ((c.root_hub_port_number as u32) << 16) | ((
        c.number_of_ports as u32) << 24),
        (c.parent_hub_slot_id as u32) | ((c.tt_think_time as u32) << 16) | ((
        c.interrupter_target as u32) << 22),
        0,
        0,
        0,
        0,
        0,
    ]
}

/// Lays out a slot context with `xhci`'s `Slot32Byte`: `new_32byte`, then `clear_multi_tt`,
/// `clear_hub` and the setters of the nine fields, and the words read through `as_ref`.
/// Claimed: the eight words of `spec_slot_words`. The setters panic on a value that
/// does not fit its bits, which `requires` excludes.
#[verifier::external_body]
pub(crate) fn slot_words(c: SlotContext) -> (w: Vec<u32>)
    requires
        c.wf(),
    ensures
        w@ == spec_slot_words(c),
{
    let mut x = xhci::context::Slot32Byte::new_32byte();
    x.clear_multi_tt();
    x.clear_hub();
    x.set_route_string(c.route_string);
    x.set_speed(c.speed);
    x.set_context_entries(c.context_entries);
    x.set_max_exit_latency(c.max_exit_latency);
    x.set_root_hub_port_number(c.root_hub_port_number);
    x.set_number_of_ports(c.number_of_ports);
    x.set_parent_hub_slot_id(c.parent_hub_slot_id);
    x.set_tt_think_time(c.tt_think_time);
    x.set_interrupter_target(c.interrupter_target);
    x.as_ref().to_vec()
}

/// The words of an endpoint context whose dequeue cycle state is clear: the mult in
/// bits 8 and 9, the primary streams in bits 10 to 14 and the interval in bits 16 to 23
/// of the first word; the error count in bits 1 and 2, the endpoint type in bits 3 to
/// 5, the burst size in bits 8 to 15 and the packet size in bits 16 to 31 of the
/// second; the ring pointer in the third and fourth; the payload in bits 16 to 31 of
/// the fifth; and three words of zero.
pub open spec fn spec_endpoint_words_cycle_clear(c: EndpointContext) -> Seq<u32> {
    seq![
        ((c.mult as u32) << 8) | ((c.max_primary_streams as u32) << 10) | ((c.interval as u32)
            << 16),
        ((c.error_count as u32) << 1) | ((c.endpoint_type.spec_code() as u32) << 3) | ((
        c.max_burst_size as u32) << 8) | ((c.max_packet_size as u32) << 16),
        low_word(c.tr_dequeue_pointer),
        high_word(c.tr_dequeue_pointer),
        (c.max_endpoint_service_time_interval_payload_low as u32) << 16,
        0,
        0,
        0,
    ]
}

/// The words of an endpoint context: those of the context with its dequeue cycle state
/// clear, and the dequeue cycle state in bit 0 of the third word.
pub open spec fn spec_endpoint_words(c: EndpointContext) -> Seq<u32> {
    let clear = spec_endpoint_words_cycle_clear(c);
    if c.dequeue_cycle_state {
        clear.update(2, clear[2] | 1)
    } else {
        clear
    }
}

/// Lays out an endpoint context, its dequeue cycle state left clear, with `xhci`'s
/// `Endpoint32Byte`: `new_32byte`, then the setters of the nine fields, with the
/// endpoint type made from `type_code` by `FromPrimitive::from_u8`, and the words read
/// through `as_ref`. Claimed: the eight words of `spec_endpoint_words_cycle_clear`. The
/// setters panic on a value that does not fit its bits and on a ring pointer that is
/// not a multiple of 64, which `requires` excludes.
#[verifier::external_body]
pub(crate) fn endpoint_words_cycle_clear(c: EndpointContext, type_code: u8) -> (w: Vec<u32>)
    requires
        c.wf(),
        type_code == c.endpoint_type.spec_code(),
    ensures
        w@ == spec_endpoint_words_cycle_clear(c),
{
    let mut x = xhci::context::Endpoint32Byte::new_32byte();
    x.set_mult(c.mult);
    x.set_max_primary_streams(c.max_primary_streams);
    x.set_interval(c.interval);
    x.set_error_count(c.error_count);
    x.set_endpoint_type(num_traits::FromPrimitive::from_u8(type_code).unwrap());
    x.set_max_burst_size(c.max_burst_size);
    x.set_max_packet_size(c.max_packet_size);
    x.set_tr_dequeue_pointer(c.tr_dequeue_pointer);
    x.set_max_endpoint_service_time_interval_payload_low(
        c.max_endpoint_service_time_interval_payload_low,
    );
    x.as_ref().to_vec()
}

/// The words of a sequence of endpoint contexts, one context after the other.
pub open spec fn spec_endpoints_words(endpoints: Seq<EndpointContext>) -> Seq<u32>
    decreases endpoints.len(),
{
    if endpoints.len() == 0 {
        Seq::empty()
    } else {
        spec_endpoints_words(endpoints.drop_last()) + spec_endpoint_words(endpoints.last())
    }
}

impl EndpointContext {
    /// The eight words that stand for the context in memory.
    pub fn words(self) -> (w: Vec<u32>)
        requires
            self.wf(),
        ensures
            w@ == spec_endpoint_words(self),
            w@.len() == CONTEXT_WORDS,
    {
        let mut w = endpoint_words_cycle_clear(self, self.endpoint_type.code());
        if self.dequeue_cycle_state {
            let third: u32 = w[2];
            w.set(2, third | 1);
        }
        w
    }
}

/// The input context of a slot: the control context, the slot context and the 31
/// endpoint contexts, with the physical address of the memory that they are written to.
#[derive(Clone, Debug)]
pub struct InputContext {
    pub control: InputControl,
    pub slot: SlotContext,
    /// The endpoint contexts; the context of device context index `dci` is at
    /// `dci - 1`.
    pub endpoints: Vec<EndpointContext>,
    /// Physical address of the context in memory.
    pub addr: u64,
}

impl InputContext {
    /// Physical address of the context in memory.
    pub open spec fn spec_addr(&self) -> u64 {
        self.addr
    }

    /// The endpoint contexts; the context of device context index `dci` is at
    /// `dci - 1`.
    pub open spec fn endpoints(&self) -> Seq<EndpointContext> {
        self.endpoints@
    }

    /// The endpoint context of device context index `dci`.
    pub open spec fn spec_endpoint(&self, dci: int) -> EndpointContext {
        self.endpoints()[dci - 1]
    }

    /// The invariant: 31 endpoint contexts, an address aligned to 64 bytes, every field
    /// within its bits.
    pub open spec fn wf(&self) -> bool {
        &&& self.endpoints().len() == NUM_OF_ENDPOINT_CONTEXTS
        &&& self.spec_addr() % 64 == 0
        &&& self.slot.wf()
        &&& forall|k: int| 0 <= k < self.endpoints().len() ==> (#[trigger] self.endpoints()[k]).wf()
    }

    /// Whether an input context can lie at `addr`.
    pub open spec fn placeable(addr: u64) -> bool {
        addr % 64 == 0
    }

    /// Tells whether the invariant holds.
    pub fn is_wf(&self) -> (b: bool)
        ensures
            b == self.wf(),
    {
        if self.endpoints.len() != NUM_OF_ENDPOINT_CONTEXTS || self.addr % 64 != 0
            || !self.slot.is_wf() {
            return false;
        }
        let mut k: usize = 0;
        while k < NUM_OF_ENDPOINT_CONTEXTS
            invariant
                k <= NUM_OF_ENDPOINT_CONTEXTS,
                self.endpoints@.len() == NUM_OF_ENDPOINT_CONTEXTS,
                forall|j: int| 0 <= j < k ==> (#[trigger] self.endpoints@[j]).wf(),
            decreases NUM_OF_ENDPOINT_CONTEXTS - k,
        {
            if !self.endpoints[k].is_wf() {
                return false;
            }
            k = k + 1;
        }
        true
    }

    /// An input context at physical address `addr` with nothing set. Returns `None`
    /// exactly when the address is not aligned to 64 bytes.
    pub fn new(addr: u64) -> (r: Option<Self>)
        ensures
            r.is_some() <==> Self::placeable(addr),
            r matches Some(c) ==> {
                &&& c.wf()
                &&& c.spec_addr() == addr
                &&& c.control == (InputControl {
                    drop_flags: 0,
                    add_flags: 0,
                    configuration_value: 0,
                    interface_number: 0,
                    alternate_setting: 0,
                })
                &&& c.slot == SlotContext::spec_for_root_port(0, 0, 0)
                &&& forall|dci: int|
                    1 <= dci <= 31 ==> #[trigger] c.spec_endpoint(dci)
                        == EndpointContext::spec_disabled()
            },
    {
        if addr % 64 != 0 {
            return None;
        }
        let mut endpoints: Vec<EndpointContext> = Vec::new();
        let mut k: usize = 0;
        while k < NUM_OF_ENDPOINT_CONTEXTS
            invariant
                k <= NUM_OF_ENDPOINT_CONTEXTS,
                endpoints@.len() == k,
                forall|j: int|
                    0 <= j < k ==> #[trigger] endpoints@[j] == EndpointContext::spec_disabled(),
            decreases NUM_OF_ENDPOINT_CONTEXTS - k,
        {
            endpoints.push(EndpointContext::disabled());
            k = k + 1;
        }
        let c = InputContext { control: InputControl::new(), slot: SlotContext::new(), endpoints, addr };
        assert forall|dci: int| 1 <= dci <= 31 implies #[trigger] c.spec_endpoint(dci)
            == EndpointContext::spec_disabled() by {
            assert(c.endpoints()[dci - 1] == EndpointContext::spec_disabled());
        }
        Some(c)
    }

    /// The words that stand for the input context in memory: the control context, the
    /// slot context, and the endpoint contexts in the order of their device context
    /// indices.
    pub open spec fn spec_image(&self) -> Seq<u32> {
        spec_input_control_words(self.control) + spec_slot_words(self.slot) + spec_endpoints_words(
            self.endpoints(),
        )
    }

    /// The image of the input context: the 264 words that the caller writes to the
    /// memory at the context's address.
    pub fn image(&self) -> (w: Vec<u32>)
        requires
            self.wf(),
        ensures
            w@ == self.spec_image(),
            w@.len() == INPUT_CONTEXT_WORDS,
    {
        let mut w = input_control_words(self.control);
        let mut slot = slot_words(self.slot);
        w.append(&mut slot);
        let mut k: usize = 0;
        assert(self.endpoints().take(0) =~= Seq::<EndpointContext>::empty());
        while k < NUM_OF_ENDPOINT_CONTEXTS
            invariant
                k <= NUM_OF_ENDPOINT_CONTEXTS,
                self.wf(),
                w@ == spec_input_control_words(self.control) + spec_slot_words(self.slot)
                    + spec_endpoints_words(self.endpoints().take(k as int)),
                w@.len() == 16 + CONTEXT_WORDS * k,
            decreases NUM_OF_ENDPOINT_CONTEXTS - k,
        {
            let mut words = self.endpoints[k].words();
            assert(self.endpoints().take(k + 1).drop_last() =~= self.endpoints().take(k as int));
            assert(self.endpoints().take(k + 1).last() == self.endpoints()[k as int]);
            w.append(&mut words);
            k = k + 1;
        }
        assert(self.endpoints().take(NUM_OF_ENDPOINT_CONTEXTS as int) =~= self.endpoints());
        w
    }

    /// Physical address of the context in memory: what a command's input context
    /// pointer is set to.
    #[verifier::when_used_as_spec(spec_addr)]
    pub fn addr(&self) -> (a: u64)
        ensures
            a == self.spec_addr(),
    {
        self.addr
    }

    /// Reads the endpoint context of device context index `dci`.
    pub fn endpoint(&self, dci: usize) -> (c: EndpointContext)
        requires
            self.wf(),
            1 <= dci <= 31,
        ensures
            c == self.spec_endpoint(dci as int),
            c.wf(),
    {
        self.endpoints[dci - 1]
    }

    /// Replaces the endpoint context of device context index `dci`.
    pub fn set_endpoint(&mut self, dci: usize, context: EndpointContext)
        requires
            old(self).wf(),
            1 <= dci <= 31,
            context.wf(),
        ensures
            final(self).wf(),
            final(self).spec_addr() == old(self).spec_addr(),
            final(self).control == old(self).control,
            final(self).slot == old(self).slot,
            final(self).endpoints() == old(self).endpoints().update(dci - 1, context),
            final(self).spec_endpoint(dci as int) == context,
            forall|d: int|
                1 <= d <= 31 && d != dci ==> #[trigger] final(self).spec_endpoint(d) == old(self).spec_endpoint(d),
    {
        self.endpoints.set(dci - 1, context);
    }
}

} // verus!
