//! Address-decoding and dispatch core of a simulated 32-bit machine.

pub mod address_map;
pub mod device;
pub mod devices;
pub mod interrupt;
pub mod system_bus;

pub use address_map::AddrRange;
pub use address_map::AddressMap;
pub use address_map::MapEntry;
pub use device::Device;
pub use device::IrqController;
pub use interrupt::BusOwner;
pub use interrupt::PlicIrqCallback;
pub use system_bus::AccessType;
pub use system_bus::Resource;
pub use system_bus::SystemBus;
