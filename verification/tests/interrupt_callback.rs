use core::marker::PhantomData;

use crossbar::AddrRange;
use crossbar::AddressMap;
use crossbar::BusOwner;
use crossbar::MapEntry;
use crossbar::Resource;
use crossbar::SystemBus;
use crossbar::devices::InertDevice;
use crossbar::devices::IrqLatch;
use crossbar::devices::Ram;

type TestBus = SystemBus<(), Ram, InertDevice, IrqLatch, InertDevice, Ram, InertDevice>;

fn build_bus() -> TestBus {
    let entries = vec![
        MapEntry { range: AddrRange { start: 0x0000, end: 0x3FFF }, resource: Some(Resource::Plic) },
        MapEntry { range: AddrRange { start: 0x4000, end: u32::MAX }, resource: None },
    ];
    SystemBus {
        memory_map: AddressMap::new(entries).expect("the test map is well-formed"),
        mrom: Ram::new(16),
        clint: InertDevice,
        plic: IrqLatch::new(),
        uart0: InertDevice,
        flash: Ram::new(16),
        dram: Ram::new(16),
        power_down: InertDevice,
        allocator: PhantomData,
    }
}

#[test]
fn callback_factory_accepts_boundary_channels() {
    let owner = BusOwner::new(build_bus());
    let low = TestBus::get_plic_irq_callback(&owner, 1);
    let high = TestBus::get_plic_irq_callback(&owner, 52);
    let mut owner = owner;
    let mut alloc = ();
    low.raise(&mut owner, &mut alloc);
    high.raise(&mut owner, &mut alloc);
    let bus = owner.release_bus().expect("the bus is still owned");
    assert!(bus.plic.is_pending(1));
    assert!(bus.plic.is_pending(52));
    bus.drop(&mut alloc);
}

#[test]
fn callback_factory_rejects_invalid_channels() {
    let owner = BusOwner::new(build_bus());
    // Channels 0 and 53 are configuration defects: the checked constructor
    // refuses them, while 1 and 52 succeed.
    assert!(TestBus::try_get_plic_irq_callback(&owner, 0).is_none());
    assert!(TestBus::try_get_plic_irq_callback(&owner, 53).is_none());
    assert!(TestBus::try_get_plic_irq_callback(&owner, 1).is_some());
    assert!(TestBus::try_get_plic_irq_callback(&owner, 52).is_some());
    assert!(TestBus::try_get_plic_irq_callback(&owner, 255).is_none());
}

#[test]
fn raise_and_lower_reach_the_interrupt_controller() {
    let mut owner = BusOwner::new(build_bus());
    let mut alloc = ();
    let cb = TestBus::get_plic_irq_callback(&owner, 7);
    cb.raise(&mut owner, &mut alloc);
    {
        let bus = owner.bus.as_ref().expect("the bus is still owned");
        assert!(bus.plic.is_pending(7));
        assert!(!bus.plic.is_pending(6));
    }
    cb.lower(&mut owner, &mut alloc);
    let bus = owner.bus.as_ref().expect("the bus is still owned");
    assert!(!bus.plic.is_pending(7));
}

#[test]
fn callback_outlives_the_bus_safely() {
    let mut owner = BusOwner::new(build_bus());
    let mut alloc = ();
    let cb = TestBus::get_plic_irq_callback(&owner, 9);
    cb.raise(&mut owner, &mut alloc);

    // The last strong owner gives the bus up and tears it down.
    let bus = owner.release_bus().expect("the bus is still owned");
    assert!(bus.plic.is_pending(9));
    bus.drop(&mut alloc);

    // Raising or lowering through the stale callback completes without
    // failure and has no observable effect.
    cb.raise(&mut owner, &mut alloc);
    cb.lower(&mut owner, &mut alloc);
    assert!(owner.bus.is_none());
    assert_eq!(owner.generation, 0);
}

#[test]
fn callback_for_an_earlier_bus_cannot_reach_a_later_one() {
    let mut owner = BusOwner::new(build_bus());
    let mut alloc = ();
    let stale = TestBus::get_plic_irq_callback(&owner, 12);

    let bus = owner.release_bus().expect("the bus is still owned");
    bus.drop(&mut alloc);
    owner.install(build_bus());

    stale.raise(&mut owner, &mut alloc);
    let fresh_bus = owner.bus.as_ref().expect("a bus is installed");
    assert!(
        !fresh_bus.plic.is_pending(12),
        "a stale callback must be inert against a newer bus"
    );

    let live = TestBus::get_plic_irq_callback(&owner, 12);
    live.raise(&mut owner, &mut alloc);
    assert!(owner.bus.as_ref().unwrap().plic.is_pending(12));
}
