use usb_host::ring::Ring;
use usb_host::trb::Trb;

#[test]
fn ring_placement() {
    assert!(Ring::new(0x4000, 16).is_some());
    assert!(Ring::new(0x4000, 2).is_some());
    assert!(Ring::new(0x4000, 1).is_none());
    assert!(Ring::new(0x4000, 0).is_none());
    assert!(Ring::new(0x4010, 16).is_none());
    assert!(Ring::new(0x4020, 16).is_none());
    assert!(Ring::new(0xffff_ffff_ffff_ffc0, 4).is_none());
    assert!(Ring::new(0xffff_ffff_ffff_ff80, 4).is_some());
    assert!(Ring::is_placeable(0x4000, 16));
    assert!(!Ring::is_placeable(0x4001, 16));
    assert!(!Ring::is_placeable(0x4000, 1));
    assert!(!Ring::is_placeable(0xffff_ffff_ffff_ffc0, 4));
    assert!(Ring::is_placeable(0xffff_ffff_ffff_ff80, 4));
}

#[test]
fn fresh_ring_is_zeroed_with_link_in_place() {
    let ring = Ring::new(0x4000, 4).unwrap();
    assert_eq!(ring.len(), 4);
    assert_eq!(ring.register(), 0x4000);
    assert_eq!(ring.enqueue_index(), 0);
    assert!(ring.cycle());
    for k in 0..3 {
        assert_eq!(ring.entry(k), Trb::zeroed());
    }
    // link block: pointer to entry 0, type 6, toggle cycle, not yet handed over
    let link = ring.entry(3);
    assert_eq!(link, Trb::new(0x4000, 0, 0, 0x0000_1802));
    assert_eq!(link.trb_type(), 6);
    assert!(link.toggle_cycle());
    assert!(!link.cycle_bit());
    assert_eq!(link.pointer(), 0x4000);
}

#[test]
fn link_block_holds_a_wide_base() {
    let ring = Ring::new(0x0000_0012_3456_7840, 2).unwrap();
    assert_eq!(ring.entry(1), Trb::new(0x3456_7840, 0x0000_0012, 0, 0x0000_1802));
    assert_eq!(ring.entry(1).pointer(), 0x0000_0012_3456_7840);
}

#[test]
fn enqueue_writes_with_cycle_and_returns_address() {
    let mut ring = Ring::new(0x4000, 8).unwrap();
    let a = ring.enqueue_transfer(Trb::new(0x1000, 0, 8, 0x0000_0424));
    assert_eq!(a, 0x4000);
    assert_eq!(ring.entry(0), Trb::new(0x1000, 0, 8, 0x0000_0425));
    let b = ring.enqueue_transfer(Trb::new(0x2000, 0, 8, 0x0000_0425));
    assert_eq!(b, 0x4010);
    assert_eq!(ring.entry(1), Trb::new(0x2000, 0, 8, 0x0000_0425));
    let c = ring.enqueue_command(Trb::new(0, 0, 0, 0x0000_2400));
    assert_eq!(c, 0x4020);
    assert_eq!(ring.entry(2), Trb::new(0, 0, 0, 0x0000_2401));
    assert_eq!(ring.enqueue_index(), 3);
    assert!(ring.cycle());
}

#[test]
fn enqueue_then_read_back_returns_the_block() {
    let mut ring = Ring::new(0x4000, 4).unwrap();
    for k in 0..10u32 {
        let cycle = ring.cycle();
        let trb = Trb::new(k, k + 1, k + 2, 0x0000_0424);
        let addr = ring.enqueue_transfer(trb);
        assert_eq!(ring.get(addr), Some(trb.with_cycle(cycle)));
        assert_eq!(ring.get(addr).unwrap().w0, k);
    }
}

#[test]
fn get_finds_only_entry_addresses() {
    let ring = Ring::new(0x4000, 4).unwrap();
    assert_eq!(ring.get(0x4000), Some(Trb::zeroed()));
    assert_eq!(ring.get(0x4030), Some(Trb::new(0x4000, 0, 0, 0x0000_1802)));
    assert_eq!(ring.get(0x3ff0), None);
    assert_eq!(ring.get(0x4008), None);
    assert_eq!(ring.get(0x4040), None);
    assert_eq!(ring.get(0), None);
    assert_eq!(ring.addr_of(0), 0x4000);
    assert_eq!(ring.addr_of(3), 0x4030);
}

#[test]
fn wraparound_lands_at_index_zero_with_cycle_toggled() {
    let capacity = 8;
    let mut ring = Ring::new(0x4000, capacity).unwrap();
    let normal = Trb::new(0x1000, 0, 8, 0x0000_0424);
    for k in 0..capacity - 2 {
        let addr = ring.enqueue_transfer(normal);
        assert_eq!(addr, 0x4000 + 16 * k as u64);
        assert!(ring.cycle());
        assert_eq!(ring.enqueue_index(), k + 1);
        assert_eq!(ring.entry(capacity - 1), Trb::new(0x4000, 0, 0, 0x0000_1802));
    }
    // the enqueue at the last usable index goes through the link
    let last = ring.enqueue_transfer(normal);
    assert_eq!(last, 0x4000 + 16 * (capacity as u64 - 2));
    assert_eq!(ring.enqueue_index(), 0);
    assert!(!ring.cycle());
    let link = ring.entry(capacity - 1);
    assert_eq!(link, Trb::new(0x4000, 0, 0, 0x0000_1803));
    assert!(link.toggle_cycle());
    assert!(link.cycle_bit());
    // the next enqueue lands at index 0 with the toggled cycle bit
    let next = ring.enqueue_transfer(normal);
    assert_eq!(next, 0x4000);
    assert_eq!(ring.entry(0), Trb::new(0x1000, 0, 8, 0x0000_0424));
    assert!(!ring.entry(0).cycle_bit());
    assert!(ring.entry(1).cycle_bit());
}

#[test]
fn producer_cycle_is_initial_cycle_xor_wraps() {
    for len in 2..7usize {
        let mut ring = Ring::new(0x4000, len).unwrap();
        let usable = len - 1;
        for k in 0..40usize {
            let wraps = k / usable;
            assert_eq!(ring.cycle(), wraps % 2 == 0);
            assert_eq!(ring.enqueue_index(), k % usable);
            let link = ring.entry(len - 1);
            assert_eq!(link.cycle_bit(), !ring.cycle());
            assert!(link.toggle_cycle());
            ring.enqueue_transfer(Trb::zeroed());
        }
    }
}

#[test]
fn addresses_are_distinct_within_a_pass() {
    let len = 6usize;
    let mut ring = Ring::new(0x4000, len).unwrap();
    for _pass in 0..3 {
        let mut seen: Vec<u64> = Vec::new();
        for _ in 0..len - 1 {
            let addr = ring.enqueue_transfer(Trb::zeroed());
            assert!(!seen.contains(&addr));
            assert!(addr >= 0x4000 && addr < 0x4000 + 16 * (len as u64 - 1));
            assert_eq!(addr % 16, 0);
            seen.push(addr);
        }
        assert_eq!(ring.enqueue_index(), 0);
    }
}

#[test]
fn entries_of_the_current_pass_carry_the_producer_cycle() {
    let len = 5usize;
    let mut ring = Ring::new(0x4000, len).unwrap();
    for _ in 0..23 {
        ring.enqueue_transfer(Trb::new(7, 7, 7, 0x0000_0420));
        let i = ring.enqueue_index();
        for k in 0..len - 1 {
            assert_eq!(ring.entry(k).cycle_bit() == ring.cycle(), k < i);
        }
    }
}

#[test]
fn smallest_ring_wraps_on_every_enqueue() {
    let mut ring = Ring::new(0x4000, 2).unwrap();
    for k in 0..6 {
        let cycle = ring.cycle();
        assert_eq!(cycle, k % 2 == 0);
        assert_eq!(ring.enqueue_transfer(Trb::zeroed()), 0x4000);
        assert_eq!(ring.enqueue_index(), 0);
        assert_eq!(ring.entry(0).cycle_bit(), cycle);
        assert_eq!(ring.entry(1).cycle_bit(), cycle);
    }
}
