//! Enumeration: the commands that take a device from a connected port to an addressed
//! slot with the right packet size, and from there to configured endpoints.
//!
//! The enumeration of a device runs in this order, and the stage of the device says how
//! far it has come: the enable-slot command; the address-device command; the read of
//! the first 8 bytes of the device descriptor; the evaluate-context command. A step
//! that posts returns at once. The caller waits for the completion and hands it to the
//! step that follows, which demands `Success` of it and moves the stage on; a step that
//! posts demands the stage that the completion before it has left. So nothing is posted
//! after a command or transfer that did not succeed, and every command of one
//! enumeration names the slot that the enable-slot command gave.

use crate::context::{EndpointContext, InputControl, SlotContext, CONTROL_DCI};
use crate::controller::{
    after_control, PostError, Posted, TableOp, XHCICompleteAction, XHCIController,
};
use crate::device::{get_descriptor, spec_get_descriptor, DeviceState, EnumerationStage, USBDevice};
use crate::device_context::{ContextError, DeviceContextList, SlotMemory};
use crate::event::CommandCompletion;
use crate::operations::{
    CallbackValue, CompleteAction, EndpointInfo, InterfaceInfo, RequestResult,
    DESCRIPTOR_TYPE_DEVICE,
};
use crate::ring::RingModel;
use crate::slot::{
    actual_max_packet_size, known_speed, spec_actual_max_packet_size,
    spec_default_max_packet_size, SlotModel,
};
use crate::trb::{
    address_device_trb, configure_endpoint_trb, enable_slot_trb, evaluate_context_trb,
    spec_enable_slot_trb, spec_slot_command_trb, Trb, TYPE_ADDRESS_DEVICE,
    TYPE_CONFIGURE_ENDPOINT, TYPE_EVALUATE_CONTEXT,
};
use vstd::prelude::*;

verus! {

broadcast use vstd::std_specs::btree::group_btree_axioms;

/// The number of contexts that a new slot gets room for.
pub const SLOT_CONTEXT_ENTRIES: usize = 32;

/// The length of the first read of the device descriptor, which reaches just far enough
/// to hold the packet size of the default control endpoint.
pub const DESCRIPTOR_HEAD_LEN: usize = 8;

/// Whether a command completed with `Success`.
pub open spec fn spec_command_succeeded(completion: CommandCompletion) -> bool {
    completion.completion_code == 1
}

/// Whether a command completed with `Success`.
pub fn command_succeeded(completion: &CommandCompletion) -> (b: bool)
    ensures
        b == spec_command_succeeded(*completion),
{
    completion.completion_code == 1
}

impl XHCIController {
    /// Whether `self` differs from `before` in nothing but what posting a command
    /// changes: the command ring holds `trb` as its newest block, and the in-flight
    /// table maps the address of that block to `waiter`.
    pub open spec fn command_posted(&self, before: Self, trb: Trb, waiter: CallbackValue) -> bool {
        &&& self.cmd@ == before.cmd@.enqueue(trb)
        &&& self.pending() == before.pending().insert(
            before.cmd@.next_addr() as u64,
            XHCICompleteAction::CommandCallback(waiter),
        )
        &&& self.history@ == before.history@.push(
            TableOp::Posted(before.cmd@.next_addr() as u64),
        )
        &&& self.extra_works == before.extra_works
        &&& self.event == before.event
        &&& self.max_slots == before.max_slots
        &&& self.max_ports == before.max_ports
        &&& self.max_irqs == before.max_irqs
    }

    /// What every step that posts a command returns: the address of the command's
    /// block, and the doorbell of the command ring.
    pub open spec fn spec_command_posted(&self) -> Posted {
        Posted { key: self.cmd@.next_addr() as u64, doorbell: Self::command_doorbell() }
    }

    /// First step: posts the enable-slot command, with slot type 0. Its completion
    /// names the slot that the controller gives the device.
    pub fn enable_slot(&mut self, waiter: CallbackValue) -> (p: Posted)
        requires
            old(self).wf(),
        ensures
            final(self).wf(),
            p == old(self).spec_command_posted(),
            final(self).command_posted(*old(self), spec_enable_slot_trb(0), waiter),
            final(self).dev_ctx == old(self).dev_ctx,
            final(self).devices == old(self).devices,
    {
        let trb = enable_slot_trb(0);
        self.post_command(trb, waiter)
    }

    /// How the device context list stands after a slot has been enabled and its input
    /// context filled for addressing, relative to `before`.
    ///
    /// The slot is new in the list, with room for 32 contexts, in the memory that
    /// `mem` names, and its entry of the base address array points at its output
    /// context. Its one ring is the fresh control ring. Its input context adds the slot
    /// and the default control endpoint and drops nothing; the slot context describes
    /// a device on a root hub port at the given speed with one context entry; and the
    /// context of the default control endpoint has the default packet size for the
    /// speed and the control ring with consumer cycle 1. Nothing else has changed.
    pub open spec fn slot_addressed(
        after: DeviceContextList,
        before: DeviceContextList,
        slot: u8,
        mem: SlotMemory,
        port_number: u8,
        port_speed: u8,
    ) -> bool {
        &&& after.slots().dom() == before.slots().dom().insert(slot)
        &&& forall|s: u8|
            s != slot && before.slots().contains_key(s) ==> #[trigger] after.slots()[s]
                == before.slots()[s]
        &&& after.dcbaa@ == before.dcbaa@.update(slot as int, mem.output_context)
        &&& after.dcbaa_addr == before.dcbaa_addr
        &&& after.ring_len == before.ring_len
        &&& after.scratchpad == before.scratchpad
        &&& after.slots()[slot].out_ctx == mem.output_context
        &&& after.slots()[slot].entries == SLOT_CONTEXT_ENTRIES
        &&& after.slots()[slot].in_ctx.spec_addr() == mem.input_context
        &&& after.slots()[slot].transfer_rings@.dom() == set![CONTROL_DCI]
        &&& after.ring(slot, CONTROL_DCI) == RingModel::fresh(mem.control_ring, before.ring_len)
        &&& after.slots()[slot].in_ctx.control == (InputControl {
            drop_flags: 0,
            add_flags: 3,
            configuration_value: 0,
            interface_number: 0,
            alternate_setting: 0,
        })
        &&& after.slots()[slot].in_ctx.slot == SlotContext::spec_for_root_port(
            port_number,
            port_speed,
            1,
        )
        &&& after.slots()[slot].in_ctx.spec_endpoint(1) == EndpointContext::spec_control(
            spec_default_max_packet_size(port_speed),
            mem.control_ring,
            true,
        )
        &&& forall|dci: int|
            2 <= dci <= 31 ==> #[trigger] after.slots()[slot].in_ctx.spec_endpoint(dci)
                == EndpointContext::spec_disabled()
    }

    /// What `assign_address_device` answers.
    pub open spec fn spec_assign_address_device(&self, enabled: CommandCompletion, mem: SlotMemory) -> Result<
        Posted,
        ContextError,
    > {
        match self.dev_ctx.spec_new_slot(enabled.slot_id, SLOT_CONTEXT_ENTRIES, mem) {
            Ok(_) => Ok(self.spec_command_posted()),
            Err(e) => Err(e),
        }
    }

    /// Second step, after the enable-slot command has completed with `Success`:
    /// enables the slot that the completion names in the device context list, with the
    /// memory that `mem` names, fills its input context for a device on the root hub
    /// port of device number `device` at speed `port_speed`, and posts the
    /// address-device command for it. The device is now being addressed on that slot;
    /// its slot id is not set before the command has succeeded.
    ///
    /// Refused, with nothing changed, where the slot cannot be enabled: see
    /// `DeviceContextList::new_slot`. A completion that names slot 0 is refused there.
    pub fn assign_address_device(
        &mut self,
        device: usize,
        enabled: CommandCompletion,
        mem: SlotMemory,
        port_speed: u8,
        waiter: CallbackValue,
    ) -> (r: Result<Posted, ContextError>)
        requires
            old(self).wf(),
            device < old(self).devices@.len(),
            known_speed(port_speed),
            spec_command_succeeded(enabled),
        ensures
            final(self).wf(),
            r == old(self).spec_assign_address_device(enabled, mem),
            r.is_err() ==> *final(self) == *old(self),
            r.is_ok() ==> {
                &&& final(self).command_posted(
                    *old(self),
                    spec_slot_command_trb(
                        TYPE_ADDRESS_DEVICE,
                        enabled.slot_id,
                        mem.input_context,
                    ),
                    waiter,
                )
                &&& Self::slot_addressed(
                    final(self).dev_ctx,
                    old(self).dev_ctx,
                    enabled.slot_id,
                    mem,
                    old(self).devices@[device as int].topology_path.port_number,
                    port_speed,
                )
                &&& final(self).devices@ == old(self).devices@.update(
                    device as int,
                    (USBDevice {
                        enumeration: EnumerationStage::Addressing(enabled.slot_id),
                        ..old(self).devices@[device as int]
                    }),
                )
                &&& final(self).devices@[device as int].slot_id == old(self).devices@[device as int].slot_id
            },
    {
        let slot_id: u8 = enabled.slot_id;
        match self.dev_ctx.new_slot(slot_id, SLOT_CONTEXT_ENTRIES, mem) {
            Ok(_) => {},
            Err(e) => {
                return Err(e);
            },
        }
        let ghost enabled_list = self.dev_ctx;
        let mut record = self.devices[device];
        record.enumeration = EnumerationStage::Addressing(slot_id);
        self.devices.set(device, record);
        let context_addr = self.dev_ctx.prepare_address_device(
            slot_id,
            record.topology_path,
            port_speed,
        ).unwrap();
        proof {
            let after = self.dev_ctx;
            assert(0u32 | 3 == 3 && 0u32 & 3 == 0) by (bit_vector);
            assert forall|dci: int| 2 <= dci <= 31 implies #[trigger] after.slots()[slot_id].in_ctx.spec_endpoint(
                dci,
            ) == EndpointContext::spec_disabled() by {
                assert(enabled_list.slots()[slot_id].in_ctx.spec_endpoint(dci)
                    == EndpointContext::spec_disabled());
            }
            assert forall|s: u8|
                s != slot_id && old(self).dev_ctx.slots().contains_key(s) implies #[trigger] after.slots()[s]
                == old(self).dev_ctx.slots()[s] by {
                assert(enabled_list.slots()[s] == old(self).dev_ctx.slots()[s]);
            }
        }
        let trb = address_device_trb(slot_id, context_addr);
        Ok(self.post_command(trb, waiter))
    }

    /// The stage of the enumeration of device number `device`.
    pub open spec fn stage_of(&self, device: int) -> EnumerationStage {
        self.devices@[device].enumeration
    }

    /// Whether `self` differs from `before` in nothing but the record of device number
    /// `device`.
    pub open spec fn only_device_changed(&self, before: Self, device: int) -> bool {
        &&& self.devices@.len() == before.devices@.len()
        &&& forall|k: int|
            0 <= k < before.devices@.len() && k != device ==> #[trigger] self.devices@[k]
                == before.devices@[k]
        &&& self.dev_ctx == before.dev_ctx
        &&& self.cmd == before.cmd
        &&& self.event == before.event
        &&& self.finish_jobs == before.finish_jobs
        &&& self.extra_works == before.extra_works
        &&& self.history == before.history
        &&& self.max_slots == before.max_slots
        &&& self.max_ports == before.max_ports
        &&& self.max_irqs == before.max_irqs
    }

    /// Takes the completion of the address-device command that was posted for device
    /// number `device` on `slot`, which must be `Success`: the device has its slot now.
    /// The slot id of the device is set to `slot`, unless it was set before: it is set
    /// once. Nothing is posted.
    pub fn address_device_completed(&mut self, device: usize, slot: u8, addressed: CommandCompletion)
        requires
            old(self).wf(),
            device < old(self).devices@.len(),
            old(self).stage_of(device as int) == EnumerationStage::Addressing(slot),
            old(self).dev_ctx.slots().contains_key(slot),
            spec_command_succeeded(addressed),
        ensures
            final(self).wf(),
            final(self).only_device_changed(*old(self), device as int),
            final(self).devices@ == old(self).devices@.update(
                device as int,
                (USBDevice {
                    slot_id: if old(self).devices@[device as int].slot_id.is_some() {
                        old(self).devices@[device as int].slot_id
                    } else {
                        Some(slot)
                    },
                    enumeration: EnumerationStage::Addressed(slot),
                    ..old(self).devices@[device as int]
                }),
            ),
    {
        let _ = addressed;
        let mut record = self.devices[device];
        record.set_slot_id(slot);
        record.enumeration = EnumerationStage::Addressed(slot);
        self.devices.set(device, record);
    }

    /// What `request_max_packet_size` answers for a device that is addressed on `slot`.
    pub open spec fn spec_request_max_packet_size(&self, slot: u8, buffer: usize) -> Result<
        Posted,
        PostError,
    > {
        self.spec_control_transfer(
            slot,
            spec_get_descriptor(DESCRIPTOR_TYPE_DEVICE, 0, (buffer, DESCRIPTOR_HEAD_LEN)),
        )
    }

    /// Third step, for a device whose address-device command has succeeded: posts the
    /// control transfer that reads the first 8 bytes of the device descriptor into the
    /// memory at `buffer`, on the control ring of the slot that the device was
    /// addressed on, with the result going to `waiter`. The device is now reading its
    /// packet size.
    ///
    /// Refused, with nothing changed, where `control_transfer` refuses.
    pub fn request_max_packet_size(&mut self, device: usize, buffer: usize, waiter: CallbackValue) -> (r:
        Result<Posted, PostError>)
        requires
            old(self).wf(),
            device < old(self).devices@.len(),
            old(self).stage_of(device as int) is Addressed,
        ensures
            final(self).wf(),
            r == old(self).spec_request_max_packet_size(
                old(self).stage_of(device as int)->Addressed_0,
                buffer,
            ),
            r.is_err() ==> *final(self) == *old(self),
            r matches Ok(p) ==> {
                let slot = old(self).stage_of(device as int)->Addressed_0;
                let transfer = spec_get_descriptor(
                    DESCRIPTOR_TYPE_DEVICE,
                    0,
                    (buffer, DESCRIPTOR_HEAD_LEN),
                );
                &&& final(self).max_slots == old(self).max_slots
                &&& final(self).max_ports == old(self).max_ports
                &&& final(self).max_irqs == old(self).max_irqs
                &&& final(self).cmd == old(self).cmd
                &&& final(self).event == old(self).event
                &&& final(self).devices@ == old(self).devices@.update(
                    device as int,
                    (USBDevice {
                        enumeration: EnumerationStage::ReadingPacketSize(slot),
                        ..old(self).devices@[device as int]
                    }),
                )
                &&& final(self).pending() == old(self).pending().insert(
                    p.key,
                    XHCICompleteAction::STANDARD(CompleteAction::SimpleResponse(waiter)),
                )
                &&& final(self).history@ == old(self).history@.push(TableOp::Posted(p.key))
                &&& final(self).extra_works == old(self).extra_works
                &&& final(self).dev_ctx.only_ring_changed(old(self).dev_ctx, slot, CONTROL_DCI)
                &&& final(self).dev_ctx.ring(slot, CONTROL_DCI) == after_control(
                    old(self).dev_ctx.ring(slot, CONTROL_DCI),
                    transfer,
                )
            },
    {
        let slot: u8 = self.devices[device].enumeration.slot().unwrap();
        let transfer = get_descriptor(DESCRIPTOR_TYPE_DEVICE, 0, (buffer, DESCRIPTOR_HEAD_LEN));
        let posted = match self.post_control_transfer(
            transfer,
            CompleteAction::SimpleResponse(waiter),
            slot,
        ) {
            Ok(p) => p,
            Err(e) => {
                return Err(e);
            },
        };
        let mut record = self.devices[device];
        record.enumeration = EnumerationStage::ReadingPacketSize(slot);
        self.devices.set(device, record);
        Ok(posted)
    }

    /// Whether the read of the descriptor ended with `Success`.
    pub open spec fn spec_read_succeeded(read: Result<RequestResult, u8>) -> bool {
        read == Ok::<RequestResult, u8>(RequestResult::Success)
    }

    /// Tells whether the read of the descriptor ended with `Success`.
    pub fn read_succeeded(read: &Result<RequestResult, u8>) -> (b: bool)
        ensures
            b == Self::spec_read_succeeded(*read),
    {
        match read {
            Ok(RequestResult::Success) => true,
            _ => false,
        }
    }

    /// Takes the result of the first read of the device descriptor of device number
    /// `device`, which must be `Success`: the packet size can be read out of the
    /// buffer now. Nothing is posted.
    pub fn max_packet_size_read(&mut self, device: usize, read: Result<RequestResult, u8>)
        requires
            old(self).wf(),
            device < old(self).devices@.len(),
            old(self).stage_of(device as int) is ReadingPacketSize,
            Self::spec_read_succeeded(read),
        ensures
            final(self).wf(),
            final(self).only_device_changed(*old(self), device as int),
            final(self).devices@ == old(self).devices@.update(
                device as int,
                (USBDevice {
                    enumeration: EnumerationStage::PacketSizeRead(
                        old(self).stage_of(device as int)->ReadingPacketSize_0,
                    ),
                    ..old(self).devices@[device as int]
                }),
            ),
    {
        let _ = read;
        let mut record = self.devices[device];
        let slot: u8 = record.enumeration.slot().unwrap();
        record.enumeration = EnumerationStage::PacketSizeRead(slot);
        self.devices.set(device, record);
    }

    /// Fourth step, for a device whose first 8 bytes of the device descriptor have
    /// arrived with `Success`: reads the packet size of the default control endpoint
    /// out of them (byte 7, where 0 stands for 8), puts it into the endpoint's context
    /// on the slot that the device was addressed on, and posts the evaluate-context
    /// command for that slot. The device is now evaluating.
    ///
    /// Returns `None`, with nothing changed, exactly when that slot is not enabled.
    pub fn evaluate_max_packet_size(
        &mut self,
        device: usize,
        descriptor: &[u8],
        waiter: CallbackValue,
    ) -> (r: Option<Posted>)
        requires
            old(self).wf(),
            device < old(self).devices@.len(),
            old(self).stage_of(device as int) is PacketSizeRead,
            descriptor@.len() >= DESCRIPTOR_HEAD_LEN,
        ensures
            final(self).wf(),
            r.is_some() <==> old(self).dev_ctx.slots().contains_key(
                old(self).stage_of(device as int)->PacketSizeRead_0,
            ),
            r.is_none() ==> *final(self) == *old(self),
            r matches Some(p) ==> {
                let slot = old(self).stage_of(device as int)->PacketSizeRead_0;
                let before = old(self).dev_ctx.slots()[slot].in_ctx;
                let after = final(self).dev_ctx.slots()[slot].in_ctx;
                &&& p == old(self).spec_command_posted()
                &&& final(self).command_posted(
                    *old(self),
                    spec_slot_command_trb(TYPE_EVALUATE_CONTEXT, slot, before.spec_addr()),
                    waiter,
                )
                &&& final(self).devices@ == old(self).devices@.update(
                    device as int,
                    (USBDevice {
                        enumeration: EnumerationStage::Evaluating(slot),
                        ..old(self).devices@[device as int]
                    }),
                )
                &&& final(self).dev_ctx.same_but_input_context(old(self).dev_ctx, slot)
                &&& after.spec_addr() == before.spec_addr()
                &&& after.control == before.control
                &&& after.slot == before.slot
                &&& after.endpoints() == before.endpoints().update(
                    0,
                    (EndpointContext {
                        max_packet_size: spec_actual_max_packet_size(descriptor@) as u16,
                        ..before.spec_endpoint(1)
                    }),
                )
            },
    {
        let slot: u8 = self.devices[device].enumeration.slot().unwrap();
        let actual = actual_max_packet_size(descriptor);
        let context_addr = match self.dev_ctx.prepare_evaluate_context(slot, actual) {
            Some(addr) => addr,
            None => {
                return None;
            },
        };
        let mut record = self.devices[device];
        record.enumeration = EnumerationStage::Evaluating(slot);
        self.devices.set(device, record);
        let trb = evaluate_context_trb(slot, context_addr);
        Some(self.post_command(trb, waiter))
    }

    /// Takes the completion of the evaluate-context command that was posted for device
    /// number `device`, which must be `Success`: the enumeration is through. A probed
    /// device becomes assigned. Nothing is posted.
    pub fn evaluate_context_completed(&mut self, device: usize, evaluated: CommandCompletion)
        requires
            old(self).wf(),
            device < old(self).devices@.len(),
            old(self).stage_of(device as int) is Evaluating,
            spec_command_succeeded(evaluated),
        ensures
            final(self).wf(),
            final(self).only_device_changed(*old(self), device as int),
            final(self).devices@ == old(self).devices@.update(
                device as int,
                (USBDevice {
                    state: if old(self).devices@[device as int].state == DeviceState::Probed {
                        DeviceState::Assigned
                    } else {
                        old(self).devices@[device as int].state
                    },
                    enumeration: EnumerationStage::Done,
                    ..old(self).devices@[device as int]
                }),
            ),
            old(self).devices@[device as int].state == DeviceState::Probed ==> final(self).devices@[device as int].state == DeviceState::Assigned,
    {
        let _ = evaluated;
        let mut record = self.devices[device];
        record.mark_assigned();
        record.enumeration = EnumerationStage::Done;
        self.devices.set(device, record);
    }

    /// What `enable_function` answers: `NoSuchSlot` for a slot that is not enabled;
    /// else the refusal of the first endpoint, in order, whose ring can be neither
    /// found in the slot as it stands nor made in its memory; else the command posted.
    pub open spec fn spec_enable_function(
        &self,
        slot: u8,
        endpoints: Seq<EndpointInfo>,
        fresh: Seq<u64>,
    ) -> Result<Posted, ContextError> {
        if !self.dev_ctx.slots().contains_key(slot) {
            Err(ContextError::NoSuchSlot)
        } else {
            match self.dev_ctx.spec_endpoints_fit(slot, endpoints, fresh) {
                Ok(_) => Ok(self.spec_command_posted()),
                Err(e) => Err(e),
            }
        }
    }

    /// Configures one interface of the device in `slot`: fills the control part of the
    /// input context for configuration `config` and the interface, sets up each
    /// endpoint of the interface in order, the `k`-th with the memory at
    /// `fresh_rings[k]` for its ring where it has none yet, and posts the
    /// configure-endpoint command. The slot then stands as
    /// `SlotModel::function_selected` followed by `SlotModel::endpoints_set_up` say.
    ///
    /// Refused, with nothing changed, as `spec_enable_function` says.
    pub fn enable_function(
        &mut self,
        slot: u8,
        config: u8,
        interface: &InterfaceInfo,
        fresh_rings: &Vec<u64>,
        waiter: CallbackValue,
    ) -> (r: Result<Posted, ContextError>)
        requires
            old(self).wf(),
            fresh_rings@.len() == interface.endpoints@.len(),
            forall|k: int|
                0 <= k < interface.endpoints@.len() ==> EndpointContext::configurable(
                    #[trigger] interface.endpoints@[k],
                ),
        ensures
            final(self).wf(),
            r == old(self).spec_enable_function(slot, interface.endpoints@, fresh_rings@),
            r.is_err() ==> *final(self) == *old(self),
            r.is_ok() ==> {
                &&& final(self).command_posted(
                    *old(self),
                    spec_slot_command_trb(
                        TYPE_CONFIGURE_ENDPOINT,
                        slot,
                        old(self).dev_ctx.slots()[slot].in_ctx.spec_addr(),
                    ),
                    waiter,
                )
                &&& final(self).devices == old(self).devices
                &&& final(self).dev_ctx.only_slot_changed(old(self).dev_ctx, slot)
                &&& final(self).dev_ctx.slot_model(slot) == old(self).dev_ctx.slot_model(
                    slot,
                ).function_selected(config, *interface).endpoints_set_up(
                    interface.endpoints@,
                    fresh_rings@,
                    old(self).dev_ctx.ring_len,
                )
            },
    {
        if !self.dev_ctx.has_slot(slot) {
            return Err(ContextError::NoSuchSlot);
        }
        match self.dev_ctx.endpoints_fit(slot, &interface.endpoints, fresh_rings) {
            Ok(_) => {},
            Err(e) => {
                return Err(e);
            },
        }
        let input_addr = self.dev_ctx.prepare_enable_function(slot, config, interface).unwrap();
        let ghost selected = self.dev_ctx;
        proof {
            crate::slot::lemma_fit_same(
                old(self).dev_ctx,
                self.dev_ctx,
                slot,
                interface.endpoints@,
                fresh_rings@,
            );
        }
        self.dev_ctx.setup_endpoints(slot, &interface.endpoints, fresh_rings);
        proof {
            assert forall|s: u8|
                s != slot && old(self).dev_ctx.slots().contains_key(s) implies #[trigger] self.dev_ctx.slots()[s]
                == old(self).dev_ctx.slots()[s] by {
                assert(selected.slots()[s] == old(self).dev_ctx.slots()[s]);
            }
        }
        let trb = configure_endpoint_trb(slot, input_addr);
        Ok(self.post_command(trb, waiter))
    }
}

} // verus!
