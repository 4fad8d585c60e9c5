use usb_host::context::{EndpointContext, SlotContext};
use usb_host::controller::{
    Completion, ControllerMemory, Dispatch, Doorbell, EventOutcome, PostError,
    XHCICompleteAction, XHCIController,
};
use usb_host::device::{DeviceState, EnumerationStage};
use usb_host::device_context::{ContextError, SlotMemory};
use usb_host::enumeration::command_succeeded;
use usb_host::event::{CommandCompletion, Event};
use usb_host::operations::{
    CompleteAction, ConfigureSemaphore, EndpointInfo, EndpointType, ExtraAction, InterfaceInfo,
    InterruptTransfer, RequestResult, RequestedOperation, TopologyRoute, USBRequest,
};
use usb_host::trb::Trb;

const CMD: u64 = 0x2000;
const EVT: u64 = 0x3000;

fn controller(transfer_ring_len: usize) -> XHCIController {
    XHCIController::new(
        ControllerMemory {
            dcbaa: 0x1000,
            command_ring: CMD,
            command_ring_len: 256,
            event_ring: EVT,
            event_ring_len: 64,
            event_ring_segment_table: 0x3800,
            transfer_ring_len,
        },
        32,
        8,
        4,
    )
    .unwrap()
}

fn slot_memory() -> SlotMemory {
    SlotMemory { input_context: 0x10_0000, output_context: 0x10_1000, control_ring: 0x10_2000 }
}

/// The block that the controller would write for the completion of a command.
fn completion_block(command: u64, code: u8, slot_id: u8) -> Trb {
    Trb::new(
        command as u32,
        (command >> 32) as u32,
        (code as u32) << 24,
        0x0000_8401 | (slot_id as u32) << 24,
    )
}

/// The block that the controller would write for the completion of a transfer.
fn transfer_block(trb: u64, code: u8, slot_id: u8, endpoint: u8) -> Trb {
    Trb::new(
        trb as u32,
        (trb >> 32) as u32,
        (code as u32) << 24,
        0x0000_8001 | (endpoint as u32) << 16 | (slot_id as u32) << 24,
    )
}

/// Feeds one block through the event ring and the event loop.
fn deliver(c: &mut XHCIController, raw: Trb) -> EventOutcome {
    let (event, _) = c.next_event(raw).expect("the block is an event of the current cycle");
    assert!(c.check_event(&event));
    c.on_event_arrived(event)
}

fn command_done(c: &mut XHCIController, raw: Trb) -> (Option<u64>, CommandCompletion) {
    match deliver(c, raw) {
        EventOutcome::Command { waiter, completion } => (waiter, completion),
        other => panic!("{:?}", other),
    }
}

/// Runs the enumeration of device 0 up to the evaluated context; the device descriptor
/// reports `packet_size` in byte 7.
fn enumerate(c: &mut XHCIController, speed: u8, packet_size: u8) -> u8 {
    let posted = c.enable_slot(1);
    let (waiter, enabled) = command_done(c, completion_block(posted.key, 1, 1));
    assert_eq!(waiter, Some(1));
    assert!(command_succeeded(&enabled));
    let posted = c.assign_address_device(0, enabled, slot_memory(), speed, 2).unwrap();
    let (waiter, addressed) = command_done(c, completion_block(posted.key, 1, 1));
    assert_eq!(waiter, Some(2));
    assert!(command_succeeded(&addressed));
    c.address_device_completed(0, enabled.slot_id, addressed);
    let posted = c.request_max_packet_size(0, 0x9000, 3).unwrap();
    let read = match deliver(c, transfer_block(posted.key, 1, 1, 1)) {
        EventOutcome::Transfer { completion, refill } => {
            assert!(refill.is_none());
            match completion {
                Completion::Respond { waiter, result } => {
                    assert_eq!(waiter, 3);
                    result
                }
                other => panic!("{:?}", other),
            }
        }
        other => panic!("{:?}", other),
    };
    assert!(XHCIController::read_succeeded(&read));
    c.max_packet_size_read(0, read);
    let descriptor = [18, 1, 0, 2, 0, 0, 0, packet_size];
    let posted = c.evaluate_max_packet_size(0, &descriptor, 4).unwrap();
    let (waiter, evaluated) = command_done(c, completion_block(posted.key, 1, 1));
    assert_eq!(waiter, Some(4));
    assert!(command_succeeded(&evaluated));
    c.evaluate_context_completed(0, evaluated);
    enabled.slot_id
}

#[test]
fn scenario_enumeration_of_full_speed_device_on_port_3() {
    let mut c = controller(16);
    assert_eq!(c.initial_probe(&vec![false, false, true, false]), 1);
    assert_eq!(c.devices[0].topology_path, TopologyRoute::on_root_port(2));
    assert_eq!(c.devices[0].slot_id, None);

    // enable slot
    let posted = c.enable_slot(1);
    assert_eq!(posted.key, CMD);
    assert_eq!(posted.doorbell, Doorbell { slot: 0, stream: Some(0), target: Some(0) });
    assert_eq!(c.cmd.get(CMD), Some(Trb::new(0, 0, 0, 0x0000_2401)));
    assert_eq!(c.cmd.get(CMD).unwrap().trb_type(), 9);
    let (waiter, enabled) = command_done(&mut c, completion_block(CMD, 1, 1));
    assert_eq!(waiter, Some(1));
    assert_eq!(enabled.slot_id, 1);

    // address device: speed code 2 gives packet size 8
    let posted = c.assign_address_device(0, enabled, slot_memory(), 2, 2).unwrap();
    assert_eq!(posted.key, CMD + 16);
    assert_eq!(c.cmd.get(CMD + 16), Some(Trb::new(0x10_0000, 0, 0, 0x0100_2c01)));
    assert_eq!(c.cmd.get(CMD + 16).unwrap().trb_type(), 11);
    assert_eq!(c.cmd.get(CMD + 16).unwrap().pointer(), 0x10_0000);
    // the slot id is not set before the command has succeeded
    assert_eq!(c.devices[0].slot_id, None);
    assert_eq!(c.devices[0].enumeration, EnumerationStage::Addressing(1));
    assert_eq!(c.dev_ctx.dcbaa[1], 0x10_1000);
    {
        let input = c.dev_ctx.input_context(1).unwrap();
        assert_eq!(input.addr(), 0x10_0000);
        assert_eq!(input.control.add_flags, 3);
        assert_eq!(input.control.drop_flags, 0);
        assert_eq!(input.slot, SlotContext {
            route_string: 0,
            speed: 2,
            context_entries: 1,
            max_exit_latency: 0,
            root_hub_port_number: 3,
            number_of_ports: 0,
            parent_hub_slot_id: 0,
            tt_think_time: 0,
            interrupter_target: 0,
        });
        assert_eq!(input.endpoint(1), EndpointContext::control(8, 0x10_2000, true));
        assert_eq!(input.endpoint(1).endpoint_type, EndpointType::Control);
        assert_eq!(input.endpoint(1).error_count, 3);
    }
    let (waiter, addressed) = command_done(&mut c, completion_block(CMD + 16, 1, 1));
    assert_eq!(waiter, Some(2));
    assert!(command_succeeded(&addressed));
    c.address_device_completed(0, 1, addressed);
    assert_eq!(c.devices[0].slot_id, Some(1));
    assert_eq!(c.devices[0].enumeration, EnumerationStage::Addressed(1));
    assert_eq!(c.devices[0].state, DeviceState::Probed);

    // the first 8 bytes of the device descriptor
    let posted = c.request_max_packet_size(0, 0x9000, 3).unwrap();
    assert_eq!(c.devices[0].enumeration, EnumerationStage::ReadingPacketSize(1));
    assert_eq!(posted.key, 0x10_2020);
    assert_eq!(posted.doorbell, Doorbell { slot: 1, stream: None, target: Some(1) });
    {
        let ring = c.dev_ctx.read_transfer_ring(1, 1).unwrap();
        assert_eq!(ring.entry(0), Trb::new(0x0100_0680, 0x0008_0000, 8, 0x0003_0841));
        assert_eq!(ring.entry(1), Trb::new(0x9000, 0, 8, 0x0001_0c01));
        assert_eq!(ring.entry(2), Trb::new(0, 0, 0, 0x0000_1021));
    }
    assert_eq!(
        c.finish_jobs.get(&0x10_2020),
        Some(&XHCICompleteAction::STANDARD(CompleteAction::SimpleResponse(3)))
    );
    match deliver(&mut c, transfer_block(0x10_2020, 1, 1, 1)) {
        EventOutcome::Transfer { completion, .. } => assert!(matches!(
            completion,
            Completion::Respond { waiter: 3, result: Ok(RequestResult::Success) }
        )),
        other => panic!("{:?}", other),
    }
    c.max_packet_size_read(0, Ok(RequestResult::Success));
    assert_eq!(c.devices[0].enumeration, EnumerationStage::PacketSizeRead(1));

    // evaluate context with the packet size that byte 7 reports
    let posted = c.evaluate_max_packet_size(0, &[18, 1, 0, 2, 0, 0, 0, 64], 4).unwrap();
    assert_eq!(c.devices[0].enumeration, EnumerationStage::Evaluating(1));
    assert_eq!(posted.key, CMD + 32);
    assert_eq!(c.cmd.get(CMD + 32), Some(Trb::new(0x10_0000, 0, 0, 0x0100_3401)));
    assert_eq!(c.cmd.get(CMD + 32).unwrap().trb_type(), 13);
    assert_eq!(
        c.dev_ctx.input_context(1).unwrap().endpoint(1),
        EndpointContext::control(64, 0x10_2000, true)
    );
    let (waiter, evaluated) = command_done(&mut c, completion_block(CMD + 32, 1, 1));
    assert_eq!(waiter, Some(4));
    assert!(command_succeeded(&evaluated));
    assert_eq!(c.devices[0].state, DeviceState::Probed);
    c.evaluate_context_completed(0, evaluated);
    assert_eq!(c.devices[0].enumeration, EnumerationStage::Done);
    assert!(c.finish_jobs.is_empty());
    // four events consumed: the register gets the address of the fourth
    assert_eq!(c.update_erdp(), EVT + 48);
    assert_eq!(c.event.dequeue_pointer(), EVT + 64);

    assert_eq!(c.devices[0].state, DeviceState::Assigned);
    assert_eq!(c.devices[0].slot_id, Some(1));
}

#[test]
fn scenario_reported_packet_size_zero_is_eight() {
    let mut c = controller(16);
    c.initial_probe(&vec![true]);
    enumerate(&mut c, 3, 0);
    let input = c.dev_ctx.input_context(1).unwrap();
    assert_eq!(input.endpoint(1).max_packet_size, 8);
    assert_eq!(input.slot.speed, 3);
    assert_eq!(input.slot.root_hub_port_number, 1);
}

#[test]
fn scenario_failed_address_device_leaves_the_slot_id_unset() {
    let mut c = controller(16);
    c.initial_probe(&vec![true]);
    assert_eq!(c.devices[0].enumeration, EnumerationStage::NotStarted);
    let posted = c.enable_slot(1);
    let (_, enabled) = command_done(&mut c, completion_block(posted.key, 1, 4));
    let posted = c.assign_address_device(0, enabled, slot_memory(), 2, 2).unwrap();
    // the controller answers the address-device command with an error
    let (waiter, addressed) = command_done(&mut c, completion_block(posted.key, 4, 4));
    assert_eq!(waiter, Some(2));
    assert_eq!(addressed.completion_code, 4);
    // the enumeration must stop here: the device has no slot id, and nothing more is
    // posted for it
    assert!(!command_succeeded(&addressed));
    assert_eq!(c.devices[0].slot_id, None);
    assert_eq!(c.devices[0].state, DeviceState::Probed);
    assert_eq!(c.devices[0].enumeration, EnumerationStage::Addressing(4));
    assert_eq!(c.cmd.enqueue_index(), 2);
    assert_eq!(c.dev_ctx.read_transfer_ring(4, 1).unwrap().enqueue_index(), 0);
    assert!(c.finish_jobs.is_empty());
}

#[test]
fn scenario_slot_id_is_set_once() {
    let mut c = controller(16);
    c.initial_probe(&vec![true]);
    c.devices[0].set_slot_id(9);
    let posted = c.enable_slot(1);
    let (_, enabled) = command_done(&mut c, completion_block(posted.key, 1, 4));
    let posted = c.assign_address_device(0, enabled, slot_memory(), 2, 2).unwrap();
    assert_eq!(c.devices[0].slot_id, Some(9));
    let (_, addressed) = command_done(&mut c, completion_block(posted.key, 1, 4));
    c.address_device_completed(0, 4, addressed);
    // the cell keeps what it had; the enumeration goes on with the slot that the
    // enable-slot command gave
    assert_eq!(c.devices[0].slot_id, Some(9));
    assert_eq!(c.devices[0].enumeration, EnumerationStage::Addressed(4));
    let posted = c.request_max_packet_size(0, 0x9000, 3).unwrap();
    assert_eq!(posted.doorbell, Doorbell { slot: 4, stream: None, target: Some(1) });
    c.max_packet_size_read(0, Ok(RequestResult::Success));
    let posted = c.evaluate_max_packet_size(0, &[18, 1, 0, 2, 0, 0, 0, 32], 4).unwrap();
    assert_eq!(c.cmd.get(posted.key), Some(Trb::new(0x10_0000, 0, 0, 0x0400_3401)));
    assert_eq!(c.dev_ctx.input_context(4).unwrap().endpoint(1).max_packet_size, 32);
}

#[test]
fn scenario_descriptor_read_must_succeed() {
    assert!(XHCIController::read_succeeded(&Ok(RequestResult::Success)));
    assert!(!XHCIController::read_succeeded(&Ok(RequestResult::ShortPacket)));
    assert!(!XHCIController::read_succeeded(&Ok(RequestResult::StallError)));
    assert!(!XHCIController::read_succeeded(&Err(30)));
}

#[test]
fn scenario_evaluate_needs_the_slot_enabled() {
    let mut c = controller(16);
    c.initial_probe(&vec![true]);
    // a device that stands as addressed on a slot that the list does not know
    c.devices[0].enumeration = EnumerationStage::Addressed(5);
    assert_eq!(c.request_max_packet_size(0, 0x9000, 3), Err(PostError::NoSuchRing));
    assert_eq!(c.devices[0].enumeration, EnumerationStage::Addressed(5));
    c.devices[0].enumeration = EnumerationStage::PacketSizeRead(5);
    assert_eq!(c.evaluate_max_packet_size(0, &[0; 8], 4), None);
    assert_eq!(c.devices[0].enumeration, EnumerationStage::PacketSizeRead(5));
    assert!(c.finish_jobs.is_empty());
    assert_eq!(c.cmd.enqueue_index(), 0);
}

#[test]
fn scenario_command_error_no_slots_available() {
    let mut c = controller(16);
    c.initial_probe(&vec![true]);
    let posted = c.enable_slot(1);
    let (waiter, completion) = command_done(&mut c, completion_block(posted.key, 9, 0));
    // the waiter gets the completion with the code that the controller reported
    assert_eq!(waiter, Some(1));
    assert_eq!(completion.completion_code, 9);
    assert_eq!(
        RequestResult::from_code(completion.completion_code),
        Some(RequestResult::NoSlotsAvailableError)
    );
    assert_eq!(completion.slot_id, 0);
    // the enumeration must stop here
    assert!(!command_succeeded(&completion));
    assert!(c.finish_jobs.is_empty());
    assert_eq!(c.devices[0].slot_id, None);
    assert!(!c.dev_ctx.has_slot(0));
}

#[test]
fn scenario_slot_zero_is_never_addressed() {
    let mut c = controller(16);
    c.initial_probe(&vec![true]);
    let posted = c.enable_slot(1);
    // a controller that reports success without naming a slot
    let (_, completion) = command_done(&mut c, completion_block(posted.key, 1, 0));
    assert!(command_succeeded(&completion));
    assert_eq!(
        c.assign_address_device(0, completion, slot_memory(), 2, 2),
        Err(ContextError::ReservedSlot)
    );
    assert_eq!(c.devices[0].slot_id, None);
    assert!(c.dev_ctx.device_ctx_inners.is_empty());
    assert!(c.dev_ctx.dcbaa.iter().all(|e| *e == 0));
    assert_eq!(c.cmd.enqueue_index(), 1);
    assert!(c.finish_jobs.is_empty());
}

#[test]
fn scenario_address_device_refuses_bad_memory() {
    let mut c = controller(16);
    c.initial_probe(&vec![true]);
    let posted = c.enable_slot(1);
    let (_, completion) = command_done(&mut c, completion_block(posted.key, 1, 1));
    let mut mem = slot_memory();
    mem.control_ring += 16;
    assert_eq!(c.assign_address_device(0, completion, mem, 2, 2), Err(ContextError::BadMemory));
    assert_eq!(c.devices[0].slot_id, None);
    assert!(!c.dev_ctx.has_slot(1));
}

fn mouse() -> InterfaceInfo {
    InterfaceInfo {
        interface_number: 0,
        alternate_setting: 0,
        endpoints: vec![EndpointInfo {
            endpoint_address: 0x81,
            attributes: 3,
            max_packet_size: 8,
            interval: 10,
        }],
    }
}

#[test]
fn scenario_hid_mouse_configure() {
    let mut c = controller(16);
    c.initial_probe(&vec![false, false, true]);
    let slot = enumerate(&mut c, 2, 8);
    let interface = mouse();
    // the dispatcher hands the function back to be run
    let request = USBRequest {
        extra_action: ExtraAction::NOOP,
        operation: RequestedOperation::EnableFunction(1, interface.clone()),
        complete_action: CompleteAction::DropSem(ConfigureSemaphore(0)),
    };
    let release = match c.post_transfer(request, Some(slot)) {
        Ok(Dispatch::EnableFunction { slot: s, config, release, .. }) => {
            assert_eq!(s, slot);
            assert_eq!(config, 1);
            release
        }
        other => panic!("{:?}", other),
    };
    assert_eq!(release, Some(ConfigureSemaphore(0)));

    let before = c.cmd.enqueue_index();
    let posted = c.enable_function(slot, 1, &interface, &vec![0x7000], 9).unwrap();
    assert_eq!(posted.key, CMD + 16 * before as u64);
    let command = c.cmd.get(posted.key).unwrap();
    assert_eq!(command, Trb::new(0x10_0000, 0, 0, 0x0100_3001));
    assert_eq!(command.trb_type(), 12);

    // a transfer ring exists at 2 * number + direction
    let dci = 2 * 1 + 1;
    assert!(c.dev_ctx.has_transfer_ring(slot, dci));
    assert_eq!(c.dev_ctx.read_transfer_ring(slot, dci).unwrap().register(), 0x7000);
    let input = c.dev_ctx.input_context(slot).unwrap();
    assert_eq!(input.control.add_flags, 0b1011);
    assert_eq!(input.control.configuration_value, 1);
    assert_eq!(input.control.interface_number, 0);
    assert_eq!(input.control.alternate_setting, 0);
    assert_eq!(input.slot.context_entries, 3);
    let ep = input.endpoint(dci);
    assert_eq!(ep.endpoint_type, EndpointType::InterruptIn);
    assert_eq!(ep.max_packet_size, 8);
    assert_eq!(ep.max_burst_size, 0);
    assert_eq!(ep.error_count, 3);
    assert_eq!(ep.interval, 1);
    assert_eq!(ep.max_endpoint_service_time_interval_payload_low, 4);
    assert_eq!(ep.tr_dequeue_pointer, 0x7000);
    assert!(ep.dequeue_cycle_state);

    let (waiter, configured) = command_done(&mut c, completion_block(posted.key, 1, slot));
    assert_eq!(waiter, Some(9));
    assert!(command_succeeded(&configured));
    assert_eq!(c.devices[0].state, DeviceState::Assigned);
    c.devices[0].mark_configured();
    assert_eq!(c.devices[0].state, DeviceState::Configured);
}

#[test]
fn scenario_enable_function_with_several_endpoints() {
    let mut c = controller(16);
    c.initial_probe(&vec![true]);
    let slot = enumerate(&mut c, 3, 64);
    let bulk_out =
        EndpointInfo { endpoint_address: 0x02, attributes: 2, max_packet_size: 512, interval: 1 };
    let bulk_in =
        EndpointInfo { endpoint_address: 0x82, attributes: 2, max_packet_size: 512, interval: 1 };
    let interface = InterfaceInfo {
        interface_number: 1,
        alternate_setting: 2,
        endpoints: vec![bulk_in, bulk_out],
    };
    c.enable_function(slot, 3, &interface, &vec![0x7000, 0x8000], 9).unwrap();
    assert_eq!(c.dev_ctx.read_transfer_ring(slot, 5).unwrap().register(), 0x7000);
    assert_eq!(c.dev_ctx.read_transfer_ring(slot, 4).unwrap().register(), 0x8000);
    let input = c.dev_ctx.input_context(slot).unwrap();
    assert_eq!(input.control.add_flags, 0b11_0011);
    assert_eq!(input.control.configuration_value, 3);
    assert_eq!(input.control.interface_number, 1);
    assert_eq!(input.control.alternate_setting, 2);
    assert_eq!(input.slot.context_entries, 5);
    assert_eq!(input.endpoint(5), EndpointContext::for_endpoint(bulk_in, 0x7000, true));
    assert_eq!(input.endpoint(4), EndpointContext::for_endpoint(bulk_out, 0x8000, true));
    // configuring again finds the rings: the memory offered is not used
    c.enable_function(slot, 3, &interface, &vec![0, 0], 10).unwrap();
    assert_eq!(c.dev_ctx.read_transfer_ring(slot, 5).unwrap().register(), 0x7000);
    assert_eq!(c.dev_ctx.input_context(slot).unwrap().control.add_flags, 0b11_0011);
}

#[test]
fn scenario_enable_function_refusals_change_nothing() {
    let mut c = controller(16);
    c.initial_probe(&vec![true]);
    let slot = enumerate(&mut c, 2, 8);
    let commands = c.cmd.enqueue_index();
    let flags = c.dev_ctx.input_context(slot).unwrap().control.add_flags;
    assert_eq!(
        c.enable_function(slot + 1, 1, &mouse(), &vec![0x7000], 9),
        Err(ContextError::NoSuchSlot)
    );
    assert_eq!(
        c.enable_function(slot, 1, &mouse(), &vec![0x7008], 9),
        Err(ContextError::BadMemory)
    );
    let mut low = mouse();
    low.endpoints[0].endpoint_address = 0x00;
    assert_eq!(c.enable_function(slot, 1, &low, &vec![0x7000], 9), Err(ContextError::BadIndex));
    assert_eq!(c.cmd.enqueue_index(), commands);
    assert!(!c.dev_ctx.has_transfer_ring(slot, 3));
    let input = c.dev_ctx.input_context(slot).unwrap();
    assert_eq!(input.control.add_flags, flags);
    assert_eq!(input.control.configuration_value, 0);
    assert!(c.finish_jobs.is_empty());
}

#[test]
fn scenario_interrupt_polling_keeps_the_ring_filled() {
    let mut c = controller(16);
    c.initial_probe(&vec![true]);
    let slot = enumerate(&mut c, 2, 8);
    c.enable_function(slot, 1, &mouse(), &vec![0x7000], 9).unwrap();
    let configure = CMD + 16 * (c.cmd.enqueue_index() as u64 - 1);
    command_done(&mut c, completion_block(configure, 1, slot));
    assert!(c.finish_jobs.is_empty());

    let request = USBRequest {
        extra_action: ExtraAction::KeepFill(0),
        operation: RequestedOperation::Interrupt(InterruptTransfer {
            endpoint_id: 3,
            buffer_addr_len: (0x9000, 8),
            short_packet_ok: true,
        }),
        complete_action: CompleteAction::SimpleResponse(77),
    };
    let mut key = match c.post_transfer(request, Some(slot)) {
        Ok(Dispatch::Posted(p)) => {
            assert_eq!(p.doorbell, Doorbell { slot, stream: None, target: Some(3) });
            p.key
        }
        other => panic!("{:?}", other),
    };
    assert_eq!(key, 0x7000);
    assert!(c.finish_jobs.is_empty());
    assert_eq!(c.extra_works.len(), 1);

    for round in 1..=3u64 {
        // whatever the code, nobody is answered and the transfer is posted again
        let code = if round == 2 { 13 } else { 1 };
        match deliver(&mut c, transfer_block(key, code, slot, 3)) {
            EventOutcome::Transfer { completion, refill } => {
                assert!(matches!(completion, Completion::Nothing));
                let posted = refill.unwrap().unwrap();
                assert_eq!(posted.key, 0x7000 + 16 * round);
                assert_eq!(posted.doorbell, Doorbell { slot, stream: None, target: Some(3) });
                key = posted.key;
            }
            other => panic!("{:?}", other),
        }
        assert!(c.finish_jobs.is_empty());
        assert_eq!(c.extra_works.len(), 1);
        assert!(c.extra_works.contains_key(&key));
        let ring = c.dev_ctx.read_transfer_ring(slot, 3).unwrap();
        assert_eq!(ring.enqueue_index() as u64, round + 1);
    }

    // one block from the request and one for each of the three completions
    let ring = c.dev_ctx.read_transfer_ring(slot, 3).unwrap();
    for k in 0..4 {
        let trb = ring.entry(k);
        assert_eq!(trb, Trb::new(0x9000, 0, 8, 0x0000_0425));
        assert_eq!(trb.trb_type(), 1);
        assert!(trb.interrupt_on_completion());
        assert!(trb.interrupt_on_short_packet());
    }
    for k in 4..15 {
        assert_eq!(ring.entry(k), Trb::zeroed());
    }
    let (stored_slot, stored) = c.extra_works.get(&key).unwrap();
    assert_eq!(*stored_slot, slot);
    assert_eq!(stored.complete_action, CompleteAction::NOOP);
    assert_eq!(stored.extra_action, ExtraAction::KeepFill(0));
}

#[test]
fn scenario_keep_fill_error_code_is_suppressed() {
    let mut c = controller(16);
    c.initial_probe(&vec![true]);
    let slot = enumerate(&mut c, 2, 8);
    c.dev_ctx.write_transfer_ring(slot, 3, 0x7000).unwrap();
    let t = InterruptTransfer { endpoint_id: 3, buffer_addr_len: (0x9000, 8), short_packet_ok: true };
    let posted = c.post_keep_fill(t, ExtraAction::KeepFill(2), slot).unwrap();
    let (completion, refill) = c.mark_transfer_completed(6, posted.key);
    assert!(matches!(completion, Completion::Nothing));
    assert_eq!(refill.unwrap().unwrap().key, posted.key + 16);
    assert!(c.finish_jobs.is_empty());
    assert_eq!(c.extra_works.len(), 1);
}

#[test]
fn scenario_wraparound_on_an_endpoint_ring() {
    let capacity = 8usize;
    let mut c = controller(capacity);
    c.initial_probe(&vec![true]);
    let slot = enumerate(&mut c, 2, 8);
    c.dev_ctx.write_transfer_ring(slot, 3, 0x7000).unwrap();
    let t = InterruptTransfer { endpoint_id: 3, buffer_addr_len: (0x9000, 8), short_packet_ok: true };
    for k in 0..capacity - 1 {
        let posted = c.interrupt_transfer(slot, &t).unwrap();
        assert_eq!(posted.key, 0x7000 + 16 * k as u64);
    }
    {
        let ring = c.dev_ctx.read_transfer_ring(slot, 3).unwrap();
        assert_eq!(ring.enqueue_index(), 0);
        assert!(!ring.cycle());
        let link = ring.entry(capacity - 1);
        assert_eq!(link.trb_type(), 6);
        assert!(link.toggle_cycle());
        assert!(link.cycle_bit());
        assert_eq!(link.pointer(), 0x7000);
    }
    let posted = c.interrupt_transfer(slot, &t).unwrap();
    assert_eq!(posted.key, 0x7000);
    let ring = c.dev_ctx.read_transfer_ring(slot, 3).unwrap();
    assert_eq!(ring.entry(0), Trb::new(0x9000, 0, 8, 0x0000_0424));
    assert_eq!(ring.entry(1), Trb::new(0x9000, 0, 8, 0x0000_0425));
    assert_eq!(ring.enqueue_index(), 1);
}

#[test]
fn scenario_event_ring_consumes_in_order() {
    let mut c = controller(16);
    let a = c.post_command(Trb::new(0, 0, 0, 0x0000_5c00), 1);
    let b = c.post_command(Trb::new(0, 0, 0, 0x0000_5c00), 2);
    assert_eq!(c.update_erdp(), EVT);
    let (waiter, _) = command_done(&mut c, completion_block(b.key, 1, 0));
    assert_eq!(waiter, Some(2));
    assert_eq!(c.update_erdp(), EVT);
    let (waiter, _) = command_done(&mut c, completion_block(a.key, 1, 0));
    assert_eq!(waiter, Some(1));
    assert_eq!(c.update_erdp(), EVT + 16);
    assert_eq!(c.event.dequeue_pointer(), EVT + 32);
    // nothing new in memory: the next entry is still zero
    assert_eq!(c.next_event(Trb::zeroed()), None);
    assert_eq!(c.update_erdp(), EVT + 16);
}
