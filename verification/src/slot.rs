//! The slot lifecycle: what goes into the input context before each command that
//! changes a slot, from addressing a device to configuring its endpoints.

use crate::context::{EndpointContext, InputControl, SlotContext, CONTROL_DCI};
use crate::device_context::{ContextError, DeviceContextList};
use crate::operations::{max_dci, EndpointInfo, InterfaceInfo, TopologyRoute};
use crate::ring::{Ring, RingModel};
use vstd::prelude::*;

verus! {

broadcast use vstd::std_specs::btree::group_btree_axioms;

/// Whether the engine knows the port speed code: 1 (full), 2 (low), 3 (high) or
/// 4 (super).
pub open spec fn known_speed(port_speed: u8) -> bool {
    1 <= port_speed <= 4
}

/// The packet size that the default control endpoint starts with on a port of the given
/// speed: 8 for code 2, 512 for code 4, 64 for codes 1 and 3.
pub open spec fn spec_default_max_packet_size(port_speed: u8) -> u16 {
    if port_speed == 2 {
        8
    } else if port_speed == 4 {
        512
    } else {
        64
    }
}

/// The packet size that the default control endpoint starts with on a port of the given
/// speed.
pub fn parse_default_max_packet_size_from_speed(port_speed: u8) -> (size: u16)
    requires
        known_speed(port_speed),
    ensures
        size == spec_default_max_packet_size(port_speed),
        port_speed == 2 ==> size == 8,
        port_speed == 1 || port_speed == 3 ==> size == 64,
        port_speed == 4 ==> size == 512,
{
    match port_speed {
        2 => 8,
        4 => 512,
        _ => 64,
    }
}

/// The packet size of the default control endpoint as the device reports it in byte 7
/// of its device descriptor, where 0 stands for 8.
pub open spec fn spec_actual_max_packet_size(descriptor: Seq<u8>) -> u8 {
    if descriptor[7] == 0 {
        8
    } else {
        descriptor[7]
    }
}

/// Reads the packet size of the default control endpoint out of the first 8 bytes of
/// the device descriptor: byte 7, and 8 where that byte is 0.
pub fn actual_max_packet_size(descriptor: &[u8]) -> (size: u8)
    requires
        descriptor@.len() >= 8,
    ensures
        size == spec_actual_max_packet_size(descriptor@),
        size != 0,
{
    let last: u8 = descriptor[7];
    if last == 0 {
        8
    } else {
        last
    }
}

/// What an enabled slot is, as a mathematical value: its input context and the rings of
/// its endpoints.
pub struct SlotModel {
    pub control: InputControl,
    pub slot: SlotContext,
    /// The endpoint contexts; the context of device context index `dci` is at
    /// `dci - 1`.
    pub endpoints: Seq<EndpointContext>,
    /// The transfer ring of each endpoint that has one, by device context index.
    pub rings: Map<usize, RingModel>,
}

impl SlotModel {
    /// The slot after the endpoint `ep` has been set up, where that can be done: the
    /// endpoint has its ring, the old one or a fresh one of `ring_len` entries at
    /// `fresh`; its add flag is set; the context entries reach up to its index; and
    /// its context describes it on that ring.
    pub open spec fn endpoint_set_up(self, ep: EndpointInfo, fresh: u64, ring_len: usize) -> SlotModel {
        let dci = ep.spec_dci() as usize;
        let ring = if self.rings.contains_key(dci) {
            self.rings[dci]
        } else {
            RingModel::fresh(fresh, ring_len)
        };
        SlotModel {
            control: InputControl {
                add_flags: self.control.add_flags | (1u32 << (dci as u32)),
                ..self.control
            },
            slot: SlotContext {
                context_entries: if self.slot.context_entries < dci {
                    dci as u8
                } else {
                    self.slot.context_entries
                },
                ..self.slot
            },
            endpoints: self.endpoints.update(
                dci - 1,
                EndpointContext::spec_for_endpoint(ep, ring.base, ring.cycle),
            ),
            rings: self.rings.insert(dci, ring),
        }
    }

    /// The slot after the endpoints `eps` have been set up in order, the `k`-th with
    /// the memory at `fresh[k]` for its ring.
    pub open spec fn endpoints_set_up(
        self,
        eps: Seq<EndpointInfo>,
        fresh: Seq<u64>,
        ring_len: usize,
    ) -> SlotModel
        decreases eps.len(),
    {
        if eps.len() == 0 {
            self
        } else {
            self.endpoints_set_up(eps.drop_last(), fresh.drop_last(), ring_len).endpoint_set_up(
                eps.last(),
                fresh.last(),
                ring_len,
            )
        }
    }

    /// The slot after its control context has been filled for a configure-endpoint
    /// command: every add flag but A1 cleared and A0 set, the configuration and the
    /// interface recorded, and the context entries set to the largest device context
    /// index among the interface's endpoints, and at least 1.
    pub open spec fn function_selected(self, config: u8, interface: InterfaceInfo) -> SlotModel {
        SlotModel {
            control: InputControl {
                drop_flags: self.control.drop_flags,
                add_flags: (self.control.add_flags & 3) | 1,
                configuration_value: config,
                interface_number: interface.interface_number,
                alternate_setting: interface.alternate_setting,
            },
            slot: SlotContext { context_entries: max_dci(interface.endpoints@), ..self.slot },
            endpoints: self.endpoints,
            rings: self.rings,
        }
    }
}

impl DeviceContextList {
    /// The model of the enabled slot `slot`.
    pub open spec fn slot_model(&self, slot: u8) -> SlotModel {
        SlotModel {
            control: self.slots()[slot].in_ctx.control,
            slot: self.slots()[slot].in_ctx.slot,
            endpoints: self.slots()[slot].in_ctx.endpoints(),
            rings: Map::new(
                |d: usize| self.slots()[slot].transfer_rings@.contains_key(d),
                |d: usize| self.slots()[slot].transfer_rings@[d]@,
            ),
        }
    }

    /// Whether `self` differs from `before` at most within `slot`, and there at most
    /// in what the slot's model shows: the base address array, the scratchpads, the
    /// set of slots, every other slot, and the addresses and the size of `slot` are
    /// the same.
    pub open spec fn only_slot_changed(&self, before: Self, slot: u8) -> bool {
        &&& self.dcbaa == before.dcbaa
        &&& self.dcbaa_addr == before.dcbaa_addr
        &&& self.ring_len == before.ring_len
        &&& self.scratchpad == before.scratchpad
        &&& self.slots().dom() == before.slots().dom()
        &&& forall|s: u8|
            s != slot && before.slots().contains_key(s) ==> #[trigger] self.slots()[s]
                == before.slots()[s]
        &&& self.slots()[slot].out_ctx == before.slots()[slot].out_ctx
        &&& self.slots()[slot].entries == before.slots()[slot].entries
        &&& self.slots()[slot].in_ctx.spec_addr() == before.slots()[slot].in_ctx.spec_addr()
    }

    /// Fills the input context of `slot` for an address-device command and returns the
    /// physical address of the input context.
    ///
    /// The add flags A0 and A1 are set and the drop flags D2 to D31 cleared. The slot
    /// context describes a device directly on the root hub port of `route`, at the
    /// given speed, with one context entry and route string 0. The context of the
    /// default control endpoint gets the default packet size for the speed, the control
    /// ring of the slot with its producer cycle, and error count 3.
    ///
    /// Returns `None`, with nothing changed, exactly when the slot is not enabled.
    pub fn prepare_address_device(&mut self, slot: u8, route: TopologyRoute, port_speed: u8) -> (r:
        Option<u64>)
        requires
            old(self).wf(),
            known_speed(port_speed),
        ensures
            final(self).wf(),
            r.is_some() <==> old(self).slots().contains_key(slot),
            r.is_none() ==> *final(self) == *old(self),
            r matches Some(addr) ==> {
                &&& addr == old(self).slots()[slot].in_ctx.spec_addr()
                &&& addr % 16 == 0
                &&& final(self).same_but_input_context(*old(self), slot)
                &&& final(self).slots()[slot].in_ctx.spec_addr() == addr
                &&& final(self).slots()[slot].in_ctx.control == (InputControl {
                    drop_flags: old(self).slots()[slot].in_ctx.control.drop_flags & 3,
                    add_flags: old(self).slots()[slot].in_ctx.control.add_flags | 3,
                    ..old(self).slots()[slot].in_ctx.control
                })
                &&& final(self).slots()[slot].in_ctx.slot == SlotContext::spec_for_root_port(
                    route.port_number,
                    port_speed,
                    1,
                )
                &&& final(self).slots()[slot].in_ctx.endpoints() == old(self).slots()[slot].in_ctx.endpoints().update(
                    0,
                    EndpointContext::spec_control(
                        spec_default_max_packet_size(port_speed),
                        old(self).ring(slot, CONTROL_DCI).base,
                        old(self).ring(slot, CONTROL_DCI).cycle,
                    ),
                )
            },
    {
        if !self.has_slot(slot) {
            return None;
        }
        let default_max_packet_size = parse_default_max_packet_size_from_speed(port_speed);
        let ghost before = *self;
        let mut inner = self.device_ctx_inners.remove(&slot).unwrap();
        let (ring_addr, cycle) = match inner.transfer_rings.get(&CONTROL_DCI) {
            Some(ring) => (ring.register(), ring.cycle()),
            None => {
                proof {
                    assert(false);
                }
                (0, false)
            },
        };
        let a: u32 = inner.in_ctx.control.add_flags;
        assert((a | (1u32 << 0u32)) | (1u32 << 1u32) == a | 3) by (bit_vector);
        inner.in_ctx.control.set_add_context_flag(0);
        inner.in_ctx.control.set_add_context_flag(1);
        inner.in_ctx.control.clear_drop_context_flags();
        inner.in_ctx.slot = SlotContext {
            route_string: 0,
            speed: port_speed,
            context_entries: 1,
            max_exit_latency: 0,
            root_hub_port_number: route.port_number,
            number_of_ports: 0,
            parent_hub_slot_id: 0,
            tt_think_time: 0,
            interrupter_target: 0,
        };
        inner.in_ctx.set_endpoint(
            CONTROL_DCI,
            EndpointContext::control(default_max_packet_size, ring_addr, cycle),
        );
        let addr = inner.in_ctx.addr();
        self.device_ctx_inners.insert(slot, inner);
        assert(self.slots().dom() =~= before.slots().dom());
        Some(addr)
    }

    /// Whether `self` differs from `before` at most in the input context of `slot`:
    /// the base address array, the scratchpads, the set of slots, every other slot, and
    /// the rings and the output context of `slot` are the same.
    pub open spec fn same_but_input_context(&self, before: Self, slot: u8) -> bool {
        &&& self.dcbaa == before.dcbaa
        &&& self.dcbaa_addr == before.dcbaa_addr
        &&& self.ring_len == before.ring_len
        &&& self.scratchpad == before.scratchpad
        &&& self.slots().dom() == before.slots().dom()
        &&& forall|s: u8|
            s != slot && before.slots().contains_key(s) ==> #[trigger] self.slots()[s]
                == before.slots()[s]
        &&& self.slots()[slot].out_ctx == before.slots()[slot].out_ctx
        &&& self.slots()[slot].entries == before.slots()[slot].entries
        &&& self.slots()[slot].transfer_rings == before.slots()[slot].transfer_rings
    }

    /// Puts the packet size that the device reported into the context of the default
    /// control endpoint of `slot`, for an evaluate-context command, and returns the
    /// physical address of the input context. Nothing else in the input context
    /// changes.
    ///
    /// Returns `None`, with nothing changed, exactly when the slot is not enabled.
    pub fn prepare_evaluate_context(&mut self, slot: u8, max_packet_size: u8) -> (r: Option<u64>)
        requires
            old(self).wf(),
        ensures
            final(self).wf(),
            r.is_some() <==> old(self).slots().contains_key(slot),
            r.is_none() ==> *final(self) == *old(self),
            r matches Some(addr) ==> {
                &&& addr == old(self).slots()[slot].in_ctx.spec_addr()
                &&& addr % 16 == 0
                &&& final(self).same_but_input_context(*old(self), slot)
                &&& final(self).slots()[slot].in_ctx.spec_addr() == addr
                &&& final(self).slots()[slot].in_ctx.control == old(self).slots()[slot].in_ctx.control
                &&& final(self).slots()[slot].in_ctx.slot == old(self).slots()[slot].in_ctx.slot
                &&& final(self).slots()[slot].in_ctx.endpoints() == old(self).slots()[slot].in_ctx.endpoints().update(
                    0,
                    (EndpointContext {
                        max_packet_size: max_packet_size as u16,
                        ..old(self).slots()[slot].in_ctx.spec_endpoint(1)
                    }),
                )
            },
    {
        if !self.has_slot(slot) {
            return None;
        }
        let ghost before = *self;
        let mut inner = self.device_ctx_inners.remove(&slot).unwrap();
        let mut ep0 = inner.in_ctx.endpoint(CONTROL_DCI);
        ep0.max_packet_size = max_packet_size as u16;
        inner.in_ctx.set_endpoint(CONTROL_DCI, ep0);
        let addr = inner.in_ctx.addr();
        self.device_ctx_inners.insert(slot, inner);
        assert(self.slots().dom() =~= before.slots().dom());
        Some(addr)
    }

    /// Fills the control part of the input context of `slot` for a configure-endpoint
    /// command that selects configuration `config` and the given interface, and returns
    /// the physical address of the input context.
    ///
    /// Every add flag but A1 is cleared and A0 is set; the configuration value, the
    /// interface number and the alternate setting are recorded; the slot's context
    /// entries become the largest device context index among the interface's
    /// endpoints, and at least 1. The endpoint contexts are not touched:
    /// `setup_endpoint` fills them.
    ///
    /// Returns `None`, with nothing changed, exactly when the slot is not enabled.
    pub fn prepare_enable_function(&mut self, slot: u8, config: u8, interface: &InterfaceInfo) -> (r:
        Option<u64>)
        requires
            old(self).wf(),
        ensures
            final(self).wf(),
            r.is_some() <==> old(self).slots().contains_key(slot),
            r.is_none() ==> *final(self) == *old(self),
            r matches Some(addr) ==> {
                &&& addr == old(self).slots()[slot].in_ctx.spec_addr()
                &&& addr % 16 == 0
                &&& final(self).same_but_input_context(*old(self), slot)
                &&& final(self).slots()[slot].in_ctx.spec_addr() == addr
                &&& final(self).slots()[slot].in_ctx.control == (InputControl {
                    drop_flags: old(self).slots()[slot].in_ctx.control.drop_flags,
                    add_flags: (old(self).slots()[slot].in_ctx.control.add_flags & 3) | 1,
                    configuration_value: config,
                    interface_number: interface.interface_number,
                    alternate_setting: interface.alternate_setting,
                })
                &&& final(self).only_slot_changed(*old(self), slot)
                &&& final(self).slot_model(slot) == old(self).slot_model(slot).function_selected(
                    config,
                    *interface,
                )
                &&& final(self).slots()[slot].in_ctx.slot == (SlotContext {
                    context_entries: max_dci(interface.endpoints@),
                    ..old(self).slots()[slot].in_ctx.slot
                })
                &&& final(self).slots()[slot].in_ctx.endpoints() == old(self).slots()[slot].in_ctx.endpoints()
            },
    {
        if !self.has_slot(slot) {
            return None;
        }
        let entries: u8 = interface.max_dci();
        let ghost before = *self;
        let mut inner = self.device_ctx_inners.remove(&slot).unwrap();
        let a: u32 = inner.in_ctx.control.add_flags;
        assert((a & 3) | (1u32 << 0u32) == (a & 3) | 1) by (bit_vector);
        inner.in_ctx.control.clear_all_nonep0_add_flag();
        inner.in_ctx.control.set_add_context_flag(0);
        inner.in_ctx.control.configuration_value = config;
        inner.in_ctx.control.interface_number = interface.interface_number;
        inner.in_ctx.control.alternate_setting = interface.alternate_setting;
        inner.in_ctx.slot.context_entries = entries;
        let addr = inner.in_ctx.addr();
        self.device_ctx_inners.insert(slot, inner);
        assert(self.slots().dom() =~= before.slots().dom());
        Some(addr)
    }

    /// What `setup_endpoint` answers: what finding or making the endpoint's ring
    /// answers, without the ring's particulars.
    pub open spec fn spec_setup_endpoint(&self, ep: EndpointInfo, slot: u8, fresh: u64) -> Result<
        (),
        ContextError,
    > {
        match self.spec_write_transfer_ring(slot, ep.spec_dci() as usize, fresh) {
            Ok(_) => Ok(()),
            Err(e) => Err(e),
        }
    }

    /// Sets up the endpoint `ep` of `slot`: finds its transfer ring, or makes it in the
    /// memory at `fresh`; sets the endpoint's add flag; raises the slot's context
    /// entries to the endpoint's device context index where they are below it; and
    /// fills the endpoint's context for the ring as `EndpointContext::spec_for_endpoint`
    /// says.
    ///
    /// Refused, with nothing changed, where the ring can be neither found nor made: see
    /// `write_transfer_ring`.
    pub fn setup_endpoint(&mut self, ep: EndpointInfo, slot: u8, fresh: u64) -> (r: Result<
        (),
        ContextError,
    >)
        requires
            old(self).wf(),
            EndpointContext::configurable(ep),
        ensures
            final(self).wf(),
            r == old(self).spec_setup_endpoint(ep, slot, fresh),
            r.is_err() ==> *final(self) == *old(self),
            r.is_ok() ==> final(self).only_slot_changed(*old(self), slot) && final(self).slot_model(slot) == old(self).slot_model(slot).endpoint_set_up(
                ep,
                fresh,
                old(self).ring_len,
            ),
            r.is_ok() ==> {
                let dci = ep.spec_dci() as usize;
                let ring = final(self).ring(slot, dci);
                let before = old(self).slots()[slot].in_ctx;
                let after = final(self).slots()[slot].in_ctx;
                &&& final(self).spec_has_transfer_ring(slot, dci)
                &&& old(self).spec_has_transfer_ring(slot, dci) ==> ring == old(self).ring(
                    slot,
                    dci,
                )
                &&& !old(self).spec_has_transfer_ring(slot, dci) ==> ring == RingModel::fresh(
                    fresh,
                    old(self).ring_len,
                )
                &&& final(self).dcbaa == old(self).dcbaa
                &&& final(self).dcbaa_addr == old(self).dcbaa_addr
                &&& final(self).ring_len == old(self).ring_len
                &&& final(self).scratchpad == old(self).scratchpad
                &&& final(self).slots().dom() == old(self).slots().dom()
                &&& forall|s: u8|
                    s != slot && old(self).slots().contains_key(s) ==> #[trigger] final(self).slots()[s] == old(self).slots()[s]
                &&& final(self).slots()[slot].out_ctx == old(self).slots()[slot].out_ctx
                &&& final(self).slots()[slot].entries == old(self).slots()[slot].entries
                &&& final(self).slots()[slot].transfer_rings@.dom() == old(self).slots()[slot].transfer_rings@.dom().insert(dci)
                &&& forall|d: usize|
                    d != dci && old(self).spec_has_transfer_ring(slot, d) ==> #[trigger] final(self).ring(slot, d) == old(self).ring(slot, d)
                &&& after.spec_addr() == before.spec_addr()
                &&& after.control == (InputControl {
                    add_flags: before.control.add_flags | (1u32 << (dci as u32)),
                    ..before.control
                })
                &&& after.slot == (SlotContext {
                    context_entries: if before.slot.context_entries < dci {
                        dci as u8
                    } else {
                        before.slot.context_entries
                    },
                    ..before.slot
                })
                &&& after.endpoints() == before.endpoints().update(
                    dci - 1,
                    EndpointContext::spec_for_endpoint(ep, ring.base, ring.cycle),
                )
            },
    {
        let d: u8 = ep.dci();
        let dci: usize = d as usize;
        let info = match self.write_transfer_ring(slot, dci, fresh) {
            Ok(info) => info,
            Err(e) => {
                return Err(e);
            },
        };
        let ghost before = *self;
        let mut inner = self.device_ctx_inners.remove(&slot).unwrap();
        inner.in_ctx.control.set_add_context_flag(dci);
        if inner.in_ctx.slot.context_entries < d {
            inner.in_ctx.slot.context_entries = d;
        }
        inner.in_ctx.set_endpoint(dci, EndpointContext::for_endpoint(ep, info.register, info.cycle));
        self.device_ctx_inners.insert(slot, inner);
        assert(self.slots().dom() =~= before.slots().dom());
        assert forall|d: usize|
            d != dci && old(self).spec_has_transfer_ring(slot, d) implies #[trigger] self.ring(
            slot,
            d,
        ) == old(self).ring(slot, d) by {
            assert(before.ring(slot, d) == old(self).ring(slot, d));
        }
        let ghost expected = old(self).slot_model(slot).endpoint_set_up(
            ep,
            fresh,
            old(self).ring_len,
        );
        assert forall|d: usize| #[trigger]
            self.slot_model(slot).rings.contains_key(d) implies self.slot_model(slot).rings[d]
            == expected.rings[d] by {
            if d != dci {
                assert(old(self).spec_has_transfer_ring(slot, d));
                assert(self.ring(slot, d) == old(self).ring(slot, d));
            } else {
                assert(self.ring(slot, dci) == expected.rings[dci]);
            }
        }
        assert(self.slot_model(slot).rings =~= expected.rings);
        Ok(())
    }
}

impl DeviceContextList {
    /// Whether the endpoints `eps` can all be set up in `slot` as the list stands, the
    /// `k`-th with the memory at `fresh[k]`: `Ok`, or the refusal of the first
    /// endpoint, in order, that `setup_endpoint` would refuse.
    pub open spec fn spec_endpoints_fit(
        &self,
        slot: u8,
        eps: Seq<EndpointInfo>,
        fresh: Seq<u64>,
    ) -> Result<(), ContextError>
        decreases eps.len(),
    {
        if eps.len() == 0 {
            Ok(())
        } else {
            match self.spec_endpoints_fit(slot, eps.drop_last(), fresh.drop_last()) {
                Ok(_) => self.spec_setup_endpoint(eps.last(), slot, fresh.last()),
                Err(e) => Err(e),
            }
        }
    }

    /// Tells whether the endpoints `eps` can all be set up in `slot` as the list
    /// stands; nothing is changed.
    pub fn endpoints_fit(&self, slot: u8, eps: &Vec<EndpointInfo>, fresh: &Vec<u64>) -> (r: Result<
        (),
        ContextError,
    >)
        requires
            self.wf(),
            fresh@.len() == eps@.len(),
        ensures
            r == self.spec_endpoints_fit(slot, eps@, fresh@),
    {
        let entries: Option<usize> = match self.device_ctx_inners.get(&slot) {
            Some(inner) => Some(inner.entries),
            None => None,
        };
        let mut k: usize = 0;
        assert(eps@.take(0) =~= Seq::<EndpointInfo>::empty());
        while k < eps.len()
            invariant
                k <= eps@.len(),
                fresh@.len() == eps@.len(),
                self.wf(),
                entries == (if self.slots().contains_key(slot) {
                    Some(self.slots()[slot].entries)
                } else {
                    None
                }),
                self.spec_endpoints_fit(slot, eps@.take(k as int), fresh@.take(k as int)).is_ok(),
            decreases eps@.len() - k,
        {
            let ep = eps[k];
            let dci: usize = ep.dci() as usize;
            assert(eps@.take(k + 1).drop_last() =~= eps@.take(k as int));
            assert(fresh@.take(k + 1).drop_last() =~= fresh@.take(k as int));
            let ghost prefix_eps = eps@.take(k + 1);
            let ghost prefix_fresh = fresh@.take(k + 1);
            let refusal: Option<ContextError> = match entries {
                None => Some(ContextError::NoSuchSlot),
                Some(n) => {
                    if dci < 1 || dci >= n {
                        Some(ContextError::BadIndex)
                    } else if self.has_transfer_ring(slot, dci) {
                        None
                    } else if !Ring::is_placeable(fresh[k], self.ring_len) {
                        Some(ContextError::BadMemory)
                    } else {
                        None
                    }
                },
            };
            match refusal {
                Some(e) => {
                    proof {
                        lemma_fit_prefix(*self, slot, eps@, fresh@, k as int + 1);
                    }
                    return Err(e);
                },
                None => {},
            }
            k = k + 1;
        }
        assert(eps@.take(k as int) =~= eps@);
        assert(fresh@.take(k as int) =~= fresh@);
        Ok(())
    }

    /// Sets up the endpoints `eps` of `slot` in order, the `k`-th with the memory at
    /// `fresh[k]` for its ring where it has none yet; see `setup_endpoint`. The caller
    /// has made sure that they all can be set up.
    pub fn setup_endpoints(&mut self, slot: u8, eps: &Vec<EndpointInfo>, fresh: &Vec<u64>)
        requires
            old(self).wf(),
            old(self).slots().contains_key(slot),
            fresh@.len() == eps@.len(),
            forall|k: int| 0 <= k < eps@.len() ==> EndpointContext::configurable(#[trigger] eps@[k]),
            old(self).spec_endpoints_fit(slot, eps@, fresh@).is_ok(),
        ensures
            final(self).wf(),
            final(self).only_slot_changed(*old(self), slot),
            final(self).slot_model(slot) == old(self).slot_model(slot).endpoints_set_up(
                eps@,
                fresh@,
                old(self).ring_len,
            ),
    {
        let mut k: usize = 0;
        assert(eps@.take(0) =~= Seq::<EndpointInfo>::empty());
        while k < eps.len()
            invariant
                k <= eps@.len(),
                fresh@.len() == eps@.len(),
                old(self).wf(),
                old(self).slots().contains_key(slot),
                old(self).spec_endpoints_fit(slot, eps@, fresh@).is_ok(),
                forall|j: int|
                    0 <= j < eps@.len() ==> EndpointContext::configurable(#[trigger] eps@[j]),
                self.wf(),
                self.only_slot_changed(*old(self), slot),
                forall|d: usize|
                    old(self).spec_has_transfer_ring(slot, d) ==> #[trigger] self.spec_has_transfer_ring(
                        slot,
                        d,
                    ),
                self.slot_model(slot) == old(self).slot_model(slot).endpoints_set_up(
                    eps@.take(k as int),
                    fresh@.take(k as int),
                    old(self).ring_len,
                ),
            decreases eps@.len() - k,
        {
            assert(eps@.take(k + 1).drop_last() =~= eps@.take(k as int));
            assert(fresh@.take(k + 1).drop_last() =~= fresh@.take(k as int));
            proof {
                lemma_fit_each(*old(self), slot, eps@, fresh@, k as int);
                let d = eps@[k as int].spec_dci() as usize;
                if old(self).spec_has_transfer_ring(slot, d) {
                    assert(self.spec_has_transfer_ring(slot, d));
                }
            }
            let ghost before = *self;
            let _ = self.setup_endpoint(eps[k], slot, fresh[k]);
            proof {
                assert forall|s: u8|
                    s != slot && old(self).slots().contains_key(s) implies #[trigger] self.slots()[s]
                    == old(self).slots()[s] by {
                    assert(before.slots()[s] == old(self).slots()[s]);
                }
                assert forall|d: usize| old(self).spec_has_transfer_ring(slot, d) implies #[trigger] self.spec_has_transfer_ring(
                    slot,
                    d,
                ) by {
                    assert(before.spec_has_transfer_ring(slot, d));
                }
            }
            k = k + 1;
        }
        assert(eps@.take(k as int) =~= eps@);
        assert(fresh@.take(k as int) =~= fresh@);
    }
}

/// Where a list of endpoints fits, every prefix of it fits; and where a prefix does not
/// fit, the whole list is refused as the prefix is.
pub proof fn lemma_fit_prefix(
    list: DeviceContextList,
    slot: u8,
    eps: Seq<EndpointInfo>,
    fresh: Seq<u64>,
    n: int,
)
    requires
        0 <= n <= eps.len(),
        fresh.len() == eps.len(),
    ensures
        list.spec_endpoints_fit(slot, eps, fresh).is_ok() ==> list.spec_endpoints_fit(
            slot,
            eps.take(n),
            fresh.take(n),
        ).is_ok(),
        list.spec_endpoints_fit(slot, eps.take(n), fresh.take(n)).is_err()
            ==> list.spec_endpoints_fit(slot, eps, fresh) == list.spec_endpoints_fit(
            slot,
            eps.take(n),
            fresh.take(n),
        ),
    decreases eps.len(),
{
    if n == eps.len() {
        assert(eps.take(n) =~= eps);
        assert(fresh.take(n) =~= fresh);
    } else {
        lemma_fit_prefix(list, slot, eps.drop_last(), fresh.drop_last(), n);
        assert(eps.drop_last().take(n) =~= eps.take(n));
        assert(fresh.drop_last().take(n) =~= fresh.take(n));
    }
}

/// Whether endpoints fit depends on the slot's size and rings and on the ring length
/// alone: two lists that agree in these answer alike.
pub proof fn lemma_fit_same(
    a: DeviceContextList,
    b: DeviceContextList,
    slot: u8,
    eps: Seq<EndpointInfo>,
    fresh: Seq<u64>,
)
    requires
        a.ring_len == b.ring_len,
        a.slots().contains_key(slot) == b.slots().contains_key(slot),
        a.slots().contains_key(slot) ==> a.slots()[slot].entries == b.slots()[slot].entries
            && a.slots()[slot].transfer_rings == b.slots()[slot].transfer_rings,
    ensures
        a.spec_endpoints_fit(slot, eps, fresh) == b.spec_endpoints_fit(slot, eps, fresh),
    decreases eps.len(),
{
    if eps.len() > 0 {
        lemma_fit_same(a, b, slot, eps.drop_last(), fresh.drop_last());
    }
}

/// Where a list of endpoints fits, each of them can be set up in the list as it stands.
pub proof fn lemma_fit_each(
    list: DeviceContextList,
    slot: u8,
    eps: Seq<EndpointInfo>,
    fresh: Seq<u64>,
    k: int,
)
    requires
        0 <= k < eps.len(),
        fresh.len() == eps.len(),
        list.spec_endpoints_fit(slot, eps, fresh).is_ok(),
    ensures
        list.spec_setup_endpoint(eps[k], slot, fresh[k]).is_ok(),
{
    lemma_fit_prefix(list, slot, eps, fresh, k + 1);
    assert(eps.take(k + 1).last() == eps[k]);
    assert(fresh.take(k + 1).last() == fresh[k]);
}

} // verus!
