use usb_host::context::{EndpointContext, InputContext, InputControl, SlotContext};
use usb_host::device_context::{ContextError, DeviceContextList, RingInfo, SlotMemory};
use usb_host::operations::{EndpointInfo, EndpointType, InterfaceInfo, TopologyRoute};
use usb_host::trb::Trb;
use xhci::context::{
    DeviceHandler, EndpointHandler, Input32Byte, InputControlHandler, InputHandler, SlotHandler,
};

fn memory(n: u64) -> SlotMemory {
    SlotMemory {
        input_context: 0x10_0000 * n,
        output_context: 0x10_0000 * n + 0x1000,
        control_ring: 0x10_0000 * n + 0x2000,
    }
}

#[test]
fn input_control_flags() {
    let mut c = InputControl::new();
    assert_eq!(c.add_flags, 0);
    assert_eq!(c.drop_flags, 0);
    c.set_add_context_flag(0);
    c.set_add_context_flag(1);
    assert_eq!(c.add_flags, 3);
    c.set_add_context_flag(3);
    c.set_add_context_flag(31);
    assert_eq!(c.add_flags, 0x8000_000b);
    c.set_add_context_flag(3);
    assert_eq!(c.add_flags, 0x8000_000b);
    c.clear_all_nonep0_add_flag();
    assert_eq!(c.add_flags, 3);
    c.drop_flags = 0xffff_ffff;
    c.clear_drop_context_flags();
    assert_eq!(c.drop_flags, 3);
    assert_eq!(c.add_flags, 3);
}

#[test]
fn fresh_input_context_is_empty() {
    assert!(InputContext::new(0x5008).is_none());
    let c = InputContext::new(0x5000).unwrap();
    assert_eq!(c.addr(), 0x5000);
    assert_eq!(c.control, InputControl::new());
    assert_eq!(c.slot, SlotContext::new());
    assert_eq!(c.endpoints.len(), 31);
    for dci in 1..=31 {
        assert_eq!(c.endpoint(dci), EndpointContext::disabled());
    }
}

#[test]
fn set_endpoint_replaces_one_context() {
    let mut c = InputContext::new(0x5000).unwrap();
    let ep0 = EndpointContext::control(64, 0x4000, true);
    c.set_endpoint(1, ep0);
    c.set_endpoint(31, EndpointContext::control(8, 0x8000, false));
    assert_eq!(c.endpoint(1), ep0);
    assert_eq!(c.endpoint(31).max_packet_size, 8);
    for dci in 2..=30 {
        assert_eq!(c.endpoint(dci), EndpointContext::disabled());
    }
}

#[test]
fn control_endpoint_context() {
    let c = EndpointContext::control(64, 0x4000, true);
    assert_eq!(c.endpoint_type, EndpointType::Control);
    assert_eq!(c.max_packet_size, 64);
    assert_eq!(c.max_burst_size, 0);
    assert_eq!(c.error_count, 3);
    assert_eq!(c.tr_dequeue_pointer, 0x4000);
    assert!(c.dequeue_cycle_state);
    assert_eq!(c.interval, 0);
    assert_eq!(c.max_primary_streams, 0);
    assert_eq!(c.mult, 0);
}

#[test]
fn interrupt_endpoint_context() {
    let ep =
        EndpointInfo { endpoint_address: 0x81, attributes: 3, max_packet_size: 0x1008, interval: 10 };
    let c = EndpointContext::for_endpoint(ep, 0x6000, true);
    assert_eq!(c.endpoint_type, EndpointType::InterruptIn);
    assert_eq!(c.max_packet_size, 8);
    assert_eq!(c.max_burst_size, 2);
    assert_eq!(c.mult, 0);
    assert_eq!(c.error_count, 3);
    assert_eq!(c.max_endpoint_service_time_interval_payload_low, 4);
    assert_eq!(c.interval, 1);
    assert_eq!(c.tr_dequeue_pointer, 0x6000);
    assert!(c.dequeue_cycle_state);
}

#[test]
fn isochronous_endpoint_context_has_no_retries() {
    let ep =
        EndpointInfo { endpoint_address: 0x02, attributes: 1, max_packet_size: 0x1bff, interval: 1 };
    let c = EndpointContext::for_endpoint(ep, 0x6000, false);
    assert_eq!(c.endpoint_type, EndpointType::IsochOut);
    assert_eq!(c.error_count, 0);
    assert_eq!(c.max_packet_size, 0x3ff);
    assert_eq!(c.max_burst_size, 3);
    assert_eq!(c.interval, 1);
    assert_eq!(c.max_endpoint_service_time_interval_payload_low, 4);
    assert!(!c.dequeue_cycle_state);
}

#[test]
fn bulk_endpoint_context() {
    let ep =
        EndpointInfo { endpoint_address: 0x82, attributes: 2, max_packet_size: 512, interval: 1 };
    let c = EndpointContext::for_endpoint(ep, 0x6000, true);
    assert_eq!(c.endpoint_type, EndpointType::BulkIn);
    assert_eq!(c.max_packet_size, 512);
    assert_eq!(c.max_burst_size, 0);
    assert_eq!(c.max_primary_streams, 0);
    assert_eq!(c.error_count, 3);
    assert_eq!(c.interval, 0);
    assert_eq!(c.max_endpoint_service_time_interval_payload_low, 0);
    let slow =
        EndpointInfo { endpoint_address: 0x02, attributes: 2, max_packet_size: 64, interval: 7 };
    assert_eq!(EndpointContext::for_endpoint(slow, 0x6000, true).interval, 6);
}

#[test]
fn list_placement() {
    assert!(DeviceContextList::new(0x1000, 16).is_some());
    assert!(DeviceContextList::new(0x1000, 2).is_some());
    assert!(DeviceContextList::new(0x1000, 1).is_none());
    assert!(DeviceContextList::new(0x1001, 16).is_none());
    assert!(DeviceContextList::new(0x1020, 16).is_none());
}

#[test]
fn fresh_list_has_zeroed_base_address_array() {
    let list = DeviceContextList::new(0x1000, 16).unwrap();
    assert_eq!(list.dcbaap(), 0x1000);
    assert_eq!(list.dcbaa.len(), 256);
    assert!(list.dcbaa.iter().all(|e| *e == 0));
    assert!(list.scratchpad.is_none());
    assert!(!list.has_slot(1));
    assert!(!list.has_transfer_ring(1, 1));
    assert!(list.read_transfer_ring(1, 1).is_none());
    assert!(list.input_context(1).is_none());
}

#[test]
fn new_slot_points_base_address_array_at_output_context() {
    let mut list = DeviceContextList::new(0x1000, 16).unwrap();
    assert_eq!(list.new_slot(1, 32, memory(1)), Ok(()));
    assert_eq!(list.new_slot(7, 32, memory(2)), Ok(()));
    assert_eq!(list.new_slot(255, 2, memory(3)), Ok(()));
    assert_eq!(list.dcbaa[1], memory(1).output_context);
    assert_eq!(list.dcbaa[7], memory(2).output_context);
    assert_eq!(list.dcbaa[255], memory(3).output_context);
    for slot in 0..256usize {
        if slot != 1 && slot != 7 && slot != 255 {
            assert_eq!(list.dcbaa[slot], 0);
            assert!(!list.has_slot(slot as u8));
        }
    }
    for (slot, inner) in list.device_ctx_inners.iter() {
        assert_eq!(list.dcbaa[*slot as usize], inner.out_ctx);
    }
    assert!(list.has_slot(1));
    assert_eq!(list.input_context(7).unwrap().addr(), memory(2).input_context);
    let ring = list.read_transfer_ring(1, 1).unwrap();
    assert_eq!(ring.register(), memory(1).control_ring);
    assert_eq!(ring.len(), 16);
    assert!(ring.cycle());
    assert!(!list.has_transfer_ring(1, 2));
}

#[test]
fn new_slot_refusals_change_nothing() {
    let mut list = DeviceContextList::new(0x1000, 16).unwrap();
    assert_eq!(list.new_slot(0, 32, memory(1)), Err(ContextError::ReservedSlot));
    assert_eq!(list.new_slot(1, 1, memory(1)), Err(ContextError::BadIndex));
    assert_eq!(list.new_slot(1, 33, memory(1)), Err(ContextError::BadIndex));
    let mut bad = memory(1);
    bad.input_context += 8;
    assert_eq!(list.new_slot(1, 32, bad), Err(ContextError::BadMemory));
    let mut bad = memory(1);
    bad.output_context += 32;
    assert_eq!(list.new_slot(1, 32, bad), Err(ContextError::BadMemory));
    let mut bad = memory(1);
    bad.control_ring = 0xffff_ffff_ffff_ffc0;
    assert_eq!(list.new_slot(1, 32, bad), Err(ContextError::BadMemory));
    // slot 0 wins over every other refusal
    assert_eq!(list.new_slot(0, 99, bad), Err(ContextError::ReservedSlot));
    assert!(list.dcbaa.iter().all(|e| *e == 0));
    assert!(list.device_ctx_inners.is_empty());
}

#[test]
fn scratchpads_go_into_entry_zero() {
    let mut list = DeviceContextList::new(0x1000, 16).unwrap();
    assert!(!list.setup_scratchpads(vec![], 0x9000, 4096));
    assert!(!list.setup_scratchpads(vec![0xa000], 0, 4096));
    assert!(!list.setup_scratchpads(vec![0xa000], 0x9010, 4096));
    assert!(!list.setup_scratchpads(vec![0xa000, 0xb800], 0x9000, 4096));
    assert!(!list.setup_scratchpads(vec![0xa000], 0x9000, 0));
    assert_eq!(list.dcbaa[0], 0);
    assert!(list.scratchpad.is_none());
    assert!(list.setup_scratchpads(vec![0xa000, 0xb000, 0xc000], 0x9000, 4096));
    assert_eq!(list.dcbaa[0], 0x9000);
    let s = list.scratchpad.as_ref().unwrap();
    assert_eq!(s.register(), 0x9000);
    assert_eq!(s.entries, vec![0xa000, 0xb000, 0xc000]);
    // device slots are untouched, and enabling one leaves entry 0 alone
    assert_eq!(list.new_slot(1, 32, memory(1)), Ok(()));
    assert_eq!(list.dcbaa[0], 0x9000);
    assert_eq!(list.dcbaa[1], memory(1).output_context);
}

#[test]
fn transfer_ring_is_made_on_first_access() {
    let mut list = DeviceContextList::new(0x1000, 16).unwrap();
    list.new_slot(1, 32, memory(1)).unwrap();
    assert_eq!(list.write_transfer_ring(2, 3, 0x7000), Err(ContextError::NoSuchSlot));
    assert_eq!(list.write_transfer_ring(1, 0, 0x7000), Err(ContextError::BadIndex));
    assert_eq!(list.write_transfer_ring(1, 32, 0x7000), Err(ContextError::BadIndex));
    assert_eq!(list.write_transfer_ring(1, 3, 0x7004), Err(ContextError::BadMemory));
    assert!(!list.has_transfer_ring(1, 3));
    assert_eq!(
        list.write_transfer_ring(1, 3, 0x7000),
        Ok(RingInfo { register: 0x7000, cycle: true })
    );
    assert!(list.has_transfer_ring(1, 3));
    // the second access finds the ring; the memory offered is not used, whatever it is
    assert_eq!(
        list.write_transfer_ring(1, 3, 0x8000),
        Ok(RingInfo { register: 0x7000, cycle: true })
    );
    assert_eq!(
        list.write_transfer_ring(1, 3, 0x8004),
        Ok(RingInfo { register: 0x7000, cycle: true })
    );
    // the control ring was made with the slot
    assert_eq!(
        list.write_transfer_ring(1, 1, 0x8000),
        Ok(RingInfo { register: memory(1).control_ring, cycle: true })
    );
    assert_eq!(list.read_transfer_ring(1, 3).unwrap().register(), 0x7000);
}

#[test]
fn small_slot_has_few_indices() {
    let mut list = DeviceContextList::new(0x1000, 16).unwrap();
    list.new_slot(1, 4, memory(1)).unwrap();
    assert!(list.write_transfer_ring(1, 3, 0x7000).is_ok());
    assert_eq!(list.write_transfer_ring(1, 4, 0x8000), Err(ContextError::BadIndex));
}

#[test]
fn enqueue_on_endpoint_ring() {
    let mut list = DeviceContextList::new(0x1000, 4).unwrap();
    list.new_slot(1, 32, memory(1)).unwrap();
    list.new_slot(2, 32, memory(2)).unwrap();
    assert_eq!(list.enqueue_transfer(1, 3, Trb::zeroed()), None);
    assert_eq!(list.enqueue_transfer(3, 1, Trb::zeroed()), None);
    let trb = Trb::new(0x1000, 0, 8, 0x0000_0424);
    assert_eq!(list.enqueue_transfer(1, 1, trb), Some(memory(1).control_ring));
    assert_eq!(list.enqueue_transfer(1, 1, trb), Some(memory(1).control_ring + 16));
    assert_eq!(list.enqueue_transfer(2, 1, trb), Some(memory(2).control_ring));
    let ring = list.read_transfer_ring(1, 1).unwrap();
    assert_eq!(ring.enqueue_index(), 2);
    assert_eq!(ring.get(memory(1).control_ring), Some(trb.with_cycle(true)));
    assert_eq!(list.read_transfer_ring(2, 1).unwrap().enqueue_index(), 1);
}

#[test]
fn address_device_input_context() {
    let mut list = DeviceContextList::new(0x1000, 16).unwrap();
    list.new_slot(4, 32, memory(1)).unwrap();
    let route = TopologyRoute::on_root_port(2);
    assert_eq!(list.prepare_address_device(5, route, 2), None);
    assert_eq!(list.prepare_address_device(4, route, 2), Some(memory(1).input_context));
    let c = list.input_context(4).unwrap();
    assert_eq!(c.control.add_flags, 3);
    assert_eq!(c.control.drop_flags, 0);
    assert_eq!(c.slot, SlotContext {
        route_string: 0,
        speed: 2,
        context_entries: 1,
        max_exit_latency: 0,
        root_hub_port_number: 3,
        number_of_ports: 0,
        parent_hub_slot_id: 0,
        tt_think_time: 0,
        interrupter_target: 0,
    });
    assert_eq!(c.endpoint(1), EndpointContext::control(8, memory(1).control_ring, true));
    for dci in 2..=31 {
        assert_eq!(c.endpoint(dci), EndpointContext::disabled());
    }
}

#[test]
fn address_device_packet_size_follows_speed() {
    for (speed, size) in [(1u8, 64u16), (2, 8), (3, 64), (4, 512)] {
        let mut list = DeviceContextList::new(0x1000, 16).unwrap();
        list.new_slot(1, 32, memory(1)).unwrap();
        list.prepare_address_device(1, TopologyRoute::on_root_port(0), speed).unwrap();
        let c = list.input_context(1).unwrap();
        assert_eq!(c.endpoint(1).max_packet_size, size);
        assert_eq!(c.slot.speed, speed);
        assert_eq!(c.slot.root_hub_port_number, 1);
    }
}

#[test]
fn evaluate_context_changes_only_packet_size() {
    let mut list = DeviceContextList::new(0x1000, 16).unwrap();
    list.new_slot(1, 32, memory(1)).unwrap();
    list.prepare_address_device(1, TopologyRoute::on_root_port(2), 2).unwrap();
    let before = list.input_context(1).unwrap().clone();
    assert_eq!(list.prepare_evaluate_context(9, 64), None);
    assert_eq!(list.prepare_evaluate_context(1, 64), Some(memory(1).input_context));
    let after = list.input_context(1).unwrap();
    assert_eq!(after.control, before.control);
    assert_eq!(after.slot, before.slot);
    let mut expected = before.endpoint(1);
    expected.max_packet_size = 64;
    assert_eq!(after.endpoint(1), expected);
    assert_eq!(after.endpoint(1), EndpointContext::control(64, memory(1).control_ring, true));
}

fn mouse() -> InterfaceInfo {
    InterfaceInfo {
        interface_number: 0,
        alternate_setting: 0,
        endpoints: vec![EndpointInfo {
            endpoint_address: 0x81,
            attributes: 3,
            max_packet_size: 8,
            interval: 10,
        }],
    }
}

#[test]
fn enable_function_control_block() {
    let mut list = DeviceContextList::new(0x1000, 16).unwrap();
    list.new_slot(1, 32, memory(1)).unwrap();
    list.prepare_address_device(1, TopologyRoute::on_root_port(2), 2).unwrap();
    {
        let inner = list.device_ctx_inners.get_mut(&1).unwrap();
        inner.in_ctx.control.set_add_context_flag(9);
    }
    let mut interface = mouse();
    interface.interface_number = 2;
    interface.alternate_setting = 1;
    assert_eq!(list.prepare_enable_function(3, 1, &interface), None);
    assert_eq!(list.prepare_enable_function(1, 5, &interface), Some(memory(1).input_context));
    let c = list.input_context(1).unwrap();
    assert_eq!(c.control.add_flags, 3);
    assert_eq!(c.control.configuration_value, 5);
    assert_eq!(c.control.interface_number, 2);
    assert_eq!(c.control.alternate_setting, 1);
    assert_eq!(c.slot.context_entries, 3);
    assert_eq!(c.slot.speed, 2);
    assert_eq!(c.endpoint(3), EndpointContext::disabled());
}

#[test]
fn setup_endpoint_makes_ring_and_context() {
    let mut list = DeviceContextList::new(0x1000, 16).unwrap();
    list.new_slot(1, 32, memory(1)).unwrap();
    list.prepare_address_device(1, TopologyRoute::on_root_port(2), 2).unwrap();
    let ep = mouse().endpoints[0];
    assert_eq!(list.setup_endpoint(ep, 2, 0x7000), Err(ContextError::NoSuchSlot));
    assert_eq!(list.setup_endpoint(ep, 1, 0x7001), Err(ContextError::BadMemory));
    assert!(!list.has_transfer_ring(1, 3));
    assert_eq!(list.setup_endpoint(ep, 1, 0x7000), Ok(()));
    assert!(list.has_transfer_ring(1, 3));
    let c = list.input_context(1).unwrap();
    assert_eq!(c.control.add_flags, 0b1011);
    assert_eq!(c.slot.context_entries, 3);
    assert_eq!(c.endpoint(3), EndpointContext::for_endpoint(ep, 0x7000, true));
    assert_eq!(c.endpoint(3).endpoint_type, EndpointType::InterruptIn);
    assert_eq!(c.endpoint(3).tr_dequeue_pointer, 0x7000);
    assert_eq!(c.endpoint(1), EndpointContext::control(8, memory(1).control_ring, true));
}

#[test]
fn setup_endpoint_takes_cycle_from_a_used_ring() {
    let mut list = DeviceContextList::new(0x1000, 2).unwrap();
    list.new_slot(1, 32, memory(1)).unwrap();
    list.write_transfer_ring(1, 3, 0x7000).unwrap();
    // one enqueue on a ring of one usable entry wraps it: producer cycle 0
    list.enqueue_transfer(1, 3, Trb::zeroed()).unwrap();
    let ep = mouse().endpoints[0];
    assert_eq!(list.setup_endpoint(ep, 1, 0x8000), Ok(()));
    let c = list.input_context(1).unwrap();
    assert!(!c.endpoint(3).dequeue_cycle_state);
    assert_eq!(c.endpoint(3).tr_dequeue_pointer, 0x7000);
}

#[test]
fn setup_endpoint_does_not_lower_context_entries() {
    let mut list = DeviceContextList::new(0x1000, 16).unwrap();
    list.new_slot(1, 32, memory(1)).unwrap();
    let high =
        EndpointInfo { endpoint_address: 0x85, attributes: 2, max_packet_size: 64, interval: 1 };
    let low =
        EndpointInfo { endpoint_address: 0x02, attributes: 2, max_packet_size: 64, interval: 1 };
    list.setup_endpoint(high, 1, 0x7000).unwrap();
    assert_eq!(list.input_context(1).unwrap().slot.context_entries, 11);
    list.setup_endpoint(low, 1, 0x8000).unwrap();
    let c = list.input_context(1).unwrap();
    assert_eq!(c.slot.context_entries, 11);
    assert_eq!(c.control.add_flags, (1 << 11) | (1 << 4));
}

#[test]
fn endpoints_fit_reports_first_refusal() {
    let mut list = DeviceContextList::new(0x1000, 16).unwrap();
    list.new_slot(1, 8, memory(1)).unwrap();
    let a = EndpointInfo { endpoint_address: 0x81, attributes: 3, max_packet_size: 8, interval: 1 };
    let b = EndpointInfo { endpoint_address: 0x02, attributes: 2, max_packet_size: 8, interval: 1 };
    let far = EndpointInfo { endpoint_address: 0x84, attributes: 2, max_packet_size: 8, interval: 1 };
    assert_eq!(list.endpoints_fit(1, &vec![], &vec![]), Ok(()));
    assert_eq!(list.endpoints_fit(1, &vec![a, b], &vec![0x7000, 0x8000]), Ok(()));
    assert_eq!(
        list.endpoints_fit(1, &vec![a, b], &vec![0x7000, 0x8008]),
        Err(ContextError::BadMemory)
    );
    assert_eq!(
        list.endpoints_fit(1, &vec![a, far, b], &vec![0x7000, 0x8000, 0x9001]),
        Err(ContextError::BadIndex)
    );
    assert_eq!(
        list.endpoints_fit(1, &vec![a, b, far], &vec![0x7000, 0x8001, 0x9000]),
        Err(ContextError::BadMemory)
    );
    assert_eq!(list.endpoints_fit(2, &vec![a], &vec![0x7000]), Err(ContextError::NoSuchSlot));
    assert_eq!(list.endpoints_fit(2, &vec![], &vec![]), Ok(()));
    assert!(!list.has_transfer_ring(1, 3));
}

#[test]
fn endpoint_context_words() {
    let control = EndpointContext::control(64, 0x0000_0012_0010_2000, true);
    assert_eq!(
        control.words(),
        vec![0, 0x0040_0026, 0x0010_2001, 0x0000_0012, 0, 0, 0, 0]
    );
    let ep =
        EndpointInfo { endpoint_address: 0x81, attributes: 3, max_packet_size: 0x1008, interval: 10 };
    let interrupt = EndpointContext::for_endpoint(ep, 0x7000, false);
    // interval 1; error count 3, type 7, burst 2, packet size 8; payload 4
    assert_eq!(
        interrupt.words(),
        vec![0x0001_0000, 0x0008_023e, 0x0000_7000, 0, 0x0004_0000, 0, 0, 0]
    );
    assert_eq!(EndpointContext::disabled().words(), vec![0; 8]);
    let full = EndpointContext {
        mult: 3,
        max_primary_streams: 31,
        interval: 255,
        error_count: 3,
        endpoint_type: EndpointType::IsochIn,
        max_burst_size: 255,
        max_packet_size: 0xffff,
        dequeue_cycle_state: true,
        tr_dequeue_pointer: 0xffff_ffff_ffff_ffc0,
        max_endpoint_service_time_interval_payload_low: 0xffff,
    };
    assert_eq!(
        full.words(),
        vec![0x00ff_7f00, 0xffff_ff2e, 0xffff_ffc1, 0xffff_ffff, 0xffff_0000, 0, 0, 0]
    );
}

#[test]
fn input_context_image_of_an_addressed_device() {
    let mut list = DeviceContextList::new(0x1000, 16).unwrap();
    list.new_slot(1, 32, memory(1)).unwrap();
    list.prepare_address_device(1, TopologyRoute::on_root_port(2), 2).unwrap();
    let image = list.input_context(1).unwrap().image();
    assert_eq!(image.len(), 264);
    // control context: drop nothing, add the slot and the control endpoint
    assert_eq!(&image[0..8], &[0, 3, 0, 0, 0, 0, 0, 0]);
    // slot context: speed 2, one context entry, root hub port 3
    assert_eq!(&image[8..16], &[0x0820_0000, 0x0003_0000, 0, 0, 0, 0, 0, 0]);
    // control endpoint: error count 3, type 4, packet size 8, ring with cycle 1
    assert_eq!(&image[16..24], &[0, 0x0008_0026, 0x0010_2001, 0, 0, 0, 0, 0]);
    assert!(image[24..].iter().all(|w| *w == 0));
}

#[test]
fn input_context_image_of_a_configured_function() {
    let mut list = DeviceContextList::new(0x1000, 16).unwrap();
    list.new_slot(1, 32, memory(1)).unwrap();
    list.prepare_address_device(1, TopologyRoute::on_root_port(0), 3).unwrap();
    let mut interface = mouse();
    interface.interface_number = 2;
    interface.alternate_setting = 1;
    list.prepare_enable_function(1, 5, &interface).unwrap();
    list.setup_endpoint(interface.endpoints[0], 1, 0x7000).unwrap();
    let image = list.input_context(1).unwrap().image();
    assert_eq!(&image[0..8], &[0, 0b1011, 0, 0, 0, 0, 0, 0x0001_0205]);
    assert_eq!(&image[8..16], &[0x1830_0000, 0x0001_0000, 0, 0, 0, 0, 0, 0]);
    // device context index 3 lies behind the control block, the slot and two endpoints
    let at = 8 * (2 + 2);
    assert_eq!(
        &image[at..at + 8],
        &[0x0001_0000, 0x0008_003e, 0x0000_7001, 0, 0x0004_0000, 0, 0, 0]
    );
}

/// The words of an input context that is filled through the handlers of the register
/// crate, as a driver would fill it in place.
fn words_of(input: &Input32Byte) -> Vec<u32> {
    let mut words: Vec<u32> = input.control().as_ref().to_vec();
    words.extend_from_slice(input.device().slot().as_ref());
    for dci in 1..=31 {
        words.extend_from_slice(input.device().endpoint(dci).as_ref());
    }
    words
}

#[test]
fn input_context_image_matches_contexts_filled_in_place() {
    let mut list = DeviceContextList::new(0x1000, 16).unwrap();
    list.new_slot(1, 32, memory(1)).unwrap();
    list.prepare_address_device(1, TopologyRoute::on_root_port(4), 4).unwrap();
    list.prepare_evaluate_context(1, 9).unwrap();
    let bulk =
        EndpointInfo { endpoint_address: 0x02, attributes: 2, max_packet_size: 512, interval: 3 };
    let interface = InterfaceInfo {
        interface_number: 1,
        alternate_setting: 0,
        endpoints: vec![bulk, mouse().endpoints[0]],
    };
    list.prepare_enable_function(1, 7, &interface).unwrap();
    list.setup_endpoint(bulk, 1, 0x8000).unwrap();
    list.setup_endpoint(mouse().endpoints[0], 1, 0x7000).unwrap();

    let mut input = Input32Byte::new_32byte();
    {
        let control = input.control_mut();
        control.set_add_context_flag(0);
        control.set_add_context_flag(1);
        control.set_add_context_flag(3);
        control.set_add_context_flag(4);
        control.set_configuration_value(7);
        control.set_interface_number(1);
        control.set_alternate_setting(0);
    }
    {
        let slot = input.device_mut().slot_mut();
        slot.set_context_entries(4);
        slot.set_root_hub_port_number(5);
        slot.set_speed(4);
    }
    {
        let ep0 = input.device_mut().endpoint_mut(1);
        ep0.set_endpoint_type(xhci::context::EndpointType::Control);
        ep0.set_max_packet_size(9);
        ep0.set_error_count(3);
        ep0.set_tr_dequeue_pointer(memory(1).control_ring);
        ep0.set_dequeue_cycle_state();
    }
    {
        let out = input.device_mut().endpoint_mut(4);
        out.set_interval(2);
        out.set_endpoint_type(xhci::context::EndpointType::BulkOut);
        out.set_tr_dequeue_pointer(0x8000);
        out.set_dequeue_cycle_state();
        out.set_max_packet_size(512);
        out.set_error_count(3);
    }
    {
        let int = input.device_mut().endpoint_mut(3);
        int.set_interval(1);
        int.set_endpoint_type(xhci::context::EndpointType::InterruptIn);
        int.set_tr_dequeue_pointer(0x7000);
        int.set_dequeue_cycle_state();
        int.set_max_packet_size(8);
        int.set_error_count(3);
        int.set_max_endpoint_service_time_interval_payload_low(4);
    }
    assert_eq!(list.input_context(1).unwrap().image(), words_of(&input));
}

#[test]
fn context_validity_checks() {
    assert!(SlotContext::new().is_wf());
    let mut slot = SlotContext::new();
    slot.speed = 16;
    assert!(!slot.is_wf());
    slot.speed = 15;
    slot.context_entries = 32;
    assert!(!slot.is_wf());
    slot.context_entries = 31;
    slot.route_string = 0x10_0000;
    assert!(!slot.is_wf());
    slot.route_string = 0xf_ffff;
    slot.tt_think_time = 4;
    assert!(!slot.is_wf());
    slot.tt_think_time = 3;
    slot.interrupter_target = 0x400;
    assert!(!slot.is_wf());
    slot.interrupter_target = 0x3ff;
    assert!(slot.is_wf());

    assert!(EndpointContext::disabled().is_wf());
    assert!(EndpointContext::control(64, 0x4000, true).is_wf());
    assert!(!EndpointContext::control(64, 0x4010, true).is_wf());
    let mut ep = EndpointContext::disabled();
    ep.mult = 4;
    assert!(!ep.is_wf());
    ep.mult = 3;
    ep.max_primary_streams = 32;
    assert!(!ep.is_wf());
    ep.max_primary_streams = 31;
    ep.error_count = 4;
    assert!(!ep.is_wf());
    ep.error_count = 3;
    assert!(ep.is_wf());

    let mut input = InputContext::new(0x5000).unwrap();
    assert!(input.is_wf());
    input.endpoints[30].error_count = 4;
    assert!(!input.is_wf());
    input.endpoints[30].error_count = 0;
    input.slot.speed = 99;
    assert!(!input.is_wf());
    input.slot.speed = 0;
    input.endpoints.pop();
    assert!(!input.is_wf());
    input.endpoints.push(EndpointContext::disabled());
    input.addr = 0x5004;
    assert!(!input.is_wf());
    input.addr = 0x5040;
    assert!(input.is_wf());
}
