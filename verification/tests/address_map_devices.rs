use crossbar::AddrRange;
use crossbar::AddressMap;
use crossbar::MapEntry;
use crossbar::Resource;
use crossbar::devices::IrqLatch;
use crossbar::devices::Ram;
use crossbar::device::Device;
use crossbar::device::IrqController;

fn entry(start: u32, end: u32, resource: Option<Resource>) -> MapEntry<Resource> {
    MapEntry { range: AddrRange { start, end }, resource }
}

#[test]
fn map_accepts_a_total_partition() {
    let m = AddressMap::new(vec![
        entry(0, 0xFFF, Some(Resource::Dram)),
        entry(0x1000, u32::MAX, None),
    ]);
    assert!(m.is_some());
}

#[test]
fn map_rejects_empty_entry_list() {
    assert!(AddressMap::<Resource>::new(vec![]).is_none());
}

#[test]
fn map_rejects_partition_not_starting_at_zero() {
    let m = AddressMap::new(vec![entry(1, u32::MAX, Some(Resource::Dram))]);
    assert!(m.is_none());
}

#[test]
fn map_rejects_partition_not_ending_at_top() {
    let m = AddressMap::new(vec![entry(0, 0xFFFF_FFFE, Some(Resource::Dram))]);
    assert!(m.is_none());
}

#[test]
fn map_rejects_gap_between_ranges() {
    let m = AddressMap::new(vec![
        entry(0, 0xFFF, Some(Resource::Dram)),
        entry(0x1001, u32::MAX, None),
    ]);
    assert!(m.is_none());
}

#[test]
fn map_rejects_overlapping_ranges() {
    let m = AddressMap::new(vec![
        entry(0, 0xFFF, Some(Resource::Dram)),
        entry(0xFFF, u32::MAX, None),
    ]);
    assert!(m.is_none());
}

#[test]
fn map_rejects_inverted_range() {
    let m = AddressMap::new(vec![
        entry(0, 0xFFF, Some(Resource::Dram)),
        entry(0x1000, 0x100, None),
    ]);
    assert!(m.is_none());
}

#[test]
fn range_value_finds_the_covering_entry() {
    let m = AddressMap::new(vec![
        entry(0, 0xFFF, Some(Resource::Mrom)),
        entry(0x1000, 0x1FFF, None),
        entry(0x2000, u32::MAX, Some(Resource::Dram)),
    ])
    .expect("well-formed");
    let (range, value) = m.range_value(0);
    assert_eq!((range.start, range.end, value), (0, 0xFFF, Some(Resource::Mrom)));
    let (range, value) = m.range_value(0x17FF);
    assert_eq!((range.start, range.end, value), (0x1000, 0x1FFF, None));
    let (range, value) = m.range_value(u32::MAX);
    assert_eq!((range.start, range.end, value), (0x2000, u32::MAX, Some(Resource::Dram)));
}

#[test]
fn ram_starts_zeroed() {
    let ram = Ram::new(8);
    assert_eq!(ram.bytes, vec![0u8; 8]);
}

#[test]
fn ram_reads_zeroes_past_the_end_of_its_store() {
    let mut ram = Ram::new(4);
    let mut alloc = ();
    Device::<()>::write(&mut ram, &mut alloc, 0, &vec![1, 2, 3, 4]);
    let mut buf = vec![0xFFu8; 6];
    Device::<()>::read(&mut ram, &mut buf, &mut alloc, 2);
    assert_eq!(buf, vec![3, 4, 0, 0, 0, 0]);
}

#[test]
fn ram_drops_writes_past_the_end_of_its_store() {
    let mut ram = Ram::new(4);
    let mut alloc = ();
    Device::<()>::write(&mut ram, &mut alloc, 2, &vec![7, 8, 9, 10]);
    assert_eq!(ram.bytes, vec![0, 0, 7, 8]);
    Device::<()>::write(&mut ram, &mut alloc, 100, &vec![1]);
    assert_eq!(ram.bytes, vec![0, 0, 7, 8]);
}

#[test]
fn irq_latch_tracks_raise_and_lower() {
    let mut latch = IrqLatch::new();
    let mut alloc = ();
    for index in 1..=52u8 {
        assert!(!latch.is_pending(index));
    }
    IrqController::<()>::raise(&mut latch, &mut alloc, 3);
    assert!(latch.is_pending(3));
    assert!(!latch.is_pending(4));
    IrqController::<()>::lower(&mut latch, &mut alloc, 3);
    assert!(!latch.is_pending(3));
    // Out-of-range queries are simply false.
    assert!(!latch.is_pending(200));
}
