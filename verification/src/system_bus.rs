//! The system bus: a crossbar exposing one master interface for the entire
//! 32-bit physical address space and delegating each access to the slave
//! interface of the device its address maps to.
//!
//! Accesses are `(address, size)` pairs. An access is forwarded to the device
//! whose range holds `address` if and only if the whole of
//! `address ..= address + size - 1` lies inside that range; otherwise it does
//! nothing at all. Vacant ranges are allowed, and accessing them is likewise
//! inert.

use core::marker::PhantomData;
use vstd::prelude::*;
use crate::address_map::AddressMap;
use crate::device::Device;

verus! {

/// Identifies each device attached to the bus as a slave.
#[derive(Debug, Clone, Copy, PartialEq, Eq, Hash, Structural)]
pub enum Resource {
    Mrom,
    Clint,
    Plic,
    Uart0,
    Flash,
    Dram,
    PowerDown,
}

/// Direction of a bus access.
#[derive(Debug, Clone, Copy, PartialEq, Eq, Structural)]
pub enum AccessType {
    Read,
    Write,
}

/// The per-device admissibility table: the `(size, direction)` pairs each
/// device accepts.
pub open spec fn policy_allows(resource: Resource, size: nat, access_type: AccessType) -> bool {
    match resource {
        Resource::Mrom => access_type != AccessType::Write,
        Resource::Clint => size == 4 || size == 8,
        Resource::Plic => size == 4,
        Resource::Uart0 => true,
        Resource::Flash => access_type != AccessType::Write,
        Resource::Dram => true,
        Resource::PowerDown => access_type == AccessType::Write,
    }
}

/// The main bus connecting every device to the core.
///
/// It owns the address map and one instance of every device named by
/// [`Resource`]: `R` backs the boot ROM and the flash, `C` the core-local
/// interruptor (timer), `P` the platform interrupt controller, `U` the UART,
/// `D` the RAM and `W` the power-down register. Every tag the map can produce
/// therefore resolves to a live device.
#[derive(Debug)]
pub struct SystemBus<A, R, C, P, U, D, W> {
    pub memory_map: AddressMap<Resource>,
    pub mrom: R,
    pub clint: C,
    pub plic: P,
    pub uart0: U,
    pub flash: R,
    pub dram: D,
    pub power_down: W,
    /// Marker tying the bus to the allocator capability its devices use.
    pub allocator: PhantomData<A>,
}

impl<A, R, C, P, U, D, W> SystemBus<A, R, C, P, U, D, W> {
    /// The bus is usable whenever its address map partitions the whole
    /// address domain.
    pub open spec fn wf(self) -> bool {
        self.memory_map.wf()
    }

    /// The validation every access goes through: `Some((resource, offset))`
    /// when the covering range is mapped to `resource`, the size is not zero,
    /// and the whole access lies inside the range; `None` otherwise. `offset`
    /// is the address translated to the start of the range, the form the
    /// device itself understands.
    pub open spec fn spec_check_access(self, address: u32, size: nat) -> Option<(Resource, u32)> {
        let e = self.memory_map.lookup(address);
        match e.resource {
            None => None,
            Some(resource) => if size == 0 || address + size - 1 > e.range.end {
                None
            } else {
                Some((resource, (address - e.range.start) as u32))
            },
        }
    }

    /// Whether the bus guarantees an access of this shape reaches its device:
    /// the access must be contained in a mapped range and satisfy the
    /// device's admissibility table.
    pub open spec fn spec_accepts(self, address: u32, size: nat, access_type: AccessType) -> bool {
        match self.spec_check_access(address, size) {
            None => false,
            Some(ro) => policy_allows(ro.0, size, access_type),
        }
    }

    /// Everything except the device tagged `resource` — the other devices and
    /// the address map — is the same in `post` as in `pre`.
    pub open spec fn unchanged_except(pre: Self, post: Self, resource: Resource) -> bool {
        &&& post.memory_map == pre.memory_map
        &&& resource != Resource::Mrom ==> post.mrom == pre.mrom
        &&& resource != Resource::Clint ==> post.clint == pre.clint
        &&& resource != Resource::Plic ==> post.plic == pre.plic
        &&& resource != Resource::Uart0 ==> post.uart0 == pre.uart0
        &&& resource != Resource::Flash ==> post.flash == pre.flash
        &&& resource != Resource::Dram ==> post.dram == pre.dram
        &&& resource != Resource::PowerDown ==> post.power_down == pre.power_down
    }

    /// Validates the `(address, size)` pair, returning
    /// `Some((resource, translated_address))` if the access is accepted and
    /// `None` otherwise.
    pub fn check_access(&self, address: u32, size: usize) -> (r: Option<(Resource, u32)>)
        requires
            self.wf(),
        ensures
            r == self.spec_check_access(address, size as nat),
    {
        let (range, value) = self.memory_map.range_value(address);
        let resource: Resource = match value {
            Some(resource) => resource,
            None => {
                return None;
            },
        };
        if size == 0 {
            return None;
        }
        let delta: usize = size - 1;
        if delta > (u32::MAX as usize) {
            // The access would wrap around the whole address domain.
            return None;
        }
        if range.end - address < delta as u32 {
            return None;
        }
        Some((resource, address - range.start))
    }

    /// Whether the bus guarantees an access of this shape reaches its device.
    /// Side-effect free; agrees exactly with what `read` and `write` do.
    pub fn accepts(&self, address: u32, size: usize, access_type: AccessType) -> (r: bool)
        requires
            self.wf(),
        ensures
            r == self.spec_accepts(address, size as nat, access_type),
    {
        let checked = self.check_access(address, size);
        match checked {
            None => false,
            Some((resource, _)) => match resource {
                Resource::Mrom => !matches!(access_type, AccessType::Write),
                Resource::Clint => size == 4 || size == 8,
                Resource::Plic => size == 4,
                Resource::Uart0 => true,
                Resource::Flash => !matches!(access_type, AccessType::Write),
                Resource::Dram => true,
                Resource::PowerDown => matches!(access_type, AccessType::Write),
            },
        }
    }
}

impl<A, R, C, P, U, D, W> SystemBus<A, R, C, P, U, D, W> where
    R: Device<A>,
    C: Device<A>,
    P: Device<A>,
    U: Device<A>,
    D: Device<A>,
    W: Device<A>,
 {
    /// The device tagged `resource` performed a read of `len` bytes at
    /// `offset` that produced `data`, per its own `read_ok` relation.
    pub open spec fn read_reaches(
        pre: Self,
        pre_a: A,
        offset: u32,
        len: nat,
        post: Self,
        post_a: A,
        resource: Resource,
        data: Seq<u8>,
    ) -> bool {
        match resource {
            Resource::Mrom => R::read_ok(pre.mrom, pre_a, offset, len, post.mrom, post_a, data),
            Resource::Clint => C::read_ok(pre.clint, pre_a, offset, len, post.clint, post_a, data),
            Resource::Plic => P::read_ok(pre.plic, pre_a, offset, len, post.plic, post_a, data),
            Resource::Uart0 => U::read_ok(pre.uart0, pre_a, offset, len, post.uart0, post_a, data),
            Resource::Flash => R::read_ok(pre.flash, pre_a, offset, len, post.flash, post_a, data),
            Resource::Dram => D::read_ok(pre.dram, pre_a, offset, len, post.dram, post_a, data),
            Resource::PowerDown => W::read_ok(
                pre.power_down,
                pre_a,
                offset,
                len,
                post.power_down,
                post_a,
                data,
            ),
        }
    }

    /// The device tagged `resource` answered a debug read of `len` bytes at
    /// `offset` with `data`, per its own `debug_ok` relation.
    pub open spec fn debug_reaches(
        self,
        a: A,
        offset: u32,
        len: nat,
        resource: Resource,
        data: Seq<u8>,
    ) -> bool {
        match resource {
            Resource::Mrom => self.mrom.debug_ok(a, offset, len, data),
            Resource::Clint => self.clint.debug_ok(a, offset, len, data),
            Resource::Plic => self.plic.debug_ok(a, offset, len, data),
            Resource::Uart0 => self.uart0.debug_ok(a, offset, len, data),
            Resource::Flash => self.flash.debug_ok(a, offset, len, data),
            Resource::Dram => self.dram.debug_ok(a, offset, len, data),
            Resource::PowerDown => self.power_down.debug_ok(a, offset, len, data),
        }
    }

    /// The device tagged `resource` performed a write of `data` at `offset`,
    /// per its own `write_ok` relation.
    pub open spec fn write_reaches(
        pre: Self,
        pre_a: A,
        offset: u32,
        data: Seq<u8>,
        post: Self,
        post_a: A,
        resource: Resource,
    ) -> bool {
        match resource {
            Resource::Mrom => R::write_ok(pre.mrom, pre_a, offset, data, post.mrom, post_a),
            Resource::Clint => C::write_ok(pre.clint, pre_a, offset, data, post.clint, post_a),
            Resource::Plic => P::write_ok(pre.plic, pre_a, offset, data, post.plic, post_a),
            Resource::Uart0 => U::write_ok(pre.uart0, pre_a, offset, data, post.uart0, post_a),
            Resource::Flash => R::write_ok(pre.flash, pre_a, offset, data, post.flash, post_a),
            Resource::Dram => D::write_ok(pre.dram, pre_a, offset, data, post.dram, post_a),
            Resource::PowerDown => W::write_ok(
                pre.power_down,
                pre_a,
                offset,
                data,
                post.power_down,
                post_a,
            ),
        }
    }

    /// Every device that holds allocator-managed backing storage released it,
    /// each exactly once, in the fixed bus order. The power-down register
    /// holds no such storage and is excluded.
    pub open spec fn released_all(self, a0: A, a6: A) -> bool {
        exists|a1: A, a2: A, a3: A, a4: A, a5: A|
            #![trigger
                R::release_ok(self.mrom, a0, a1),
                C::release_ok(self.clint, a1, a2),
                P::release_ok(self.plic, a2, a3),
                U::release_ok(self.uart0, a3, a4),
                R::release_ok(self.flash, a4, a5)
            ]
            {
                &&& R::release_ok(self.mrom, a0, a1)
                &&& C::release_ok(self.clint, a1, a2)
                &&& P::release_ok(self.plic, a2, a3)
                &&& U::release_ok(self.uart0, a3, a4)
                &&& R::release_ok(self.flash, a4, a5)
                &&& D::release_ok(self.dram, a5, a6)
            }
    }

    /// Reads `buf.len()` bytes at `address` into `buf`. If no mapped range
    /// fully contains the access, nothing happens at all: no device is
    /// touched and the prior contents of `buf` persist.
    pub fn read(&mut self, buf: &mut Vec<u8>, allocator: &mut A, address: u32)
        requires
            old(self).wf(),
        ensures
            final(self).wf(),
            final(self).memory_map == old(self).memory_map,
            final(buf)@.len() == old(buf)@.len(),
            (match old(self).spec_check_access(address, old(buf)@.len()) {
                None => {
                    &&& *final(self) == *old(self)
                    &&& *final(allocator) == *old(allocator)
                    &&& final(buf)@ == old(buf)@
                },
                Some((resource, offset)) => {
                    &&& Self::unchanged_except(*old(self), *final(self), resource)
                    &&& Self::read_reaches(
                        *old(self),
                        *old(allocator),
                        offset,
                        old(buf)@.len(),
                        *final(self),
                        *final(allocator),
                        resource,
                        final(buf)@,
                    )
                },
            }),
    {
        if let Some((resource, mapped_address)) = self.check_access(address, buf.len()) {
            match resource {
                Resource::Mrom => self.mrom.read(buf, allocator, mapped_address),
                Resource::Clint => self.clint.read(buf, allocator, mapped_address),
                Resource::Plic => self.plic.read(buf, allocator, mapped_address),
                Resource::Uart0 => self.uart0.read(buf, allocator, mapped_address),
                Resource::Flash => self.flash.read(buf, allocator, mapped_address),
                Resource::Dram => self.dram.read(buf, allocator, mapped_address),
                Resource::PowerDown => self.power_down.read(buf, allocator, mapped_address),
            }
        }
    }

    /// Like `read`, but through read-only views of the bus and the allocator:
    /// it cannot trigger any device side effect and is safe to call at
    /// arbitrary times without perturbing machine state.
    pub fn read_debug(&self, buf: &mut Vec<u8>, allocator: &A, address: u32)
        requires
            self.wf(),
        ensures
            final(buf)@.len() == old(buf)@.len(),
            (match self.spec_check_access(address, old(buf)@.len()) {
                None => final(buf)@ == old(buf)@,
                Some((resource, offset)) => self.debug_reaches(
                    *allocator,
                    offset,
                    old(buf)@.len(),
                    resource,
                    final(buf)@,
                ),
            }),
    {
        if let Some((resource, mapped_address)) = self.check_access(address, buf.len()) {
            match resource {
                Resource::Mrom => self.mrom.read_debug(buf, allocator, mapped_address),
                Resource::Clint => self.clint.read_debug(buf, allocator, mapped_address),
                Resource::Plic => self.plic.read_debug(buf, allocator, mapped_address),
                Resource::Uart0 => self.uart0.read_debug(buf, allocator, mapped_address),
                Resource::Flash => self.flash.read_debug(buf, allocator, mapped_address),
                Resource::Dram => self.dram.read_debug(buf, allocator, mapped_address),
                Resource::PowerDown => self.power_down.read_debug(buf, allocator, mapped_address),
            }
        }
    }

    /// Writes `data` at `address`. If no mapped range fully contains the
    /// access, nothing happens at all: no device state changes.
    pub fn write(&mut self, allocator: &mut A, address: u32, data: &Vec<u8>)
        requires
            old(self).wf(),
        ensures
            final(self).wf(),
            final(self).memory_map == old(self).memory_map,
            (match old(self).spec_check_access(address, data@.len()) {
                None => {
                    &&& *final(self) == *old(self)
                    &&& *final(allocator) == *old(allocator)
                },
                Some((resource, offset)) => {
                    &&& Self::unchanged_except(*old(self), *final(self), resource)
                    &&& Self::write_reaches(
                        *old(self),
                        *old(allocator),
                        offset,
                        data@,
                        *final(self),
                        *final(allocator),
                        resource,
                    )
                },
            }),
    {
        if let Some((resource, mapped_address)) = self.check_access(address, data.len()) {
            match resource {
                Resource::Mrom => self.mrom.write(allocator, mapped_address, data),
                Resource::Clint => self.clint.write(allocator, mapped_address, data),
                Resource::Plic => self.plic.write(allocator, mapped_address, data),
                Resource::Uart0 => self.uart0.write(allocator, mapped_address, data),
                Resource::Flash => self.flash.write(allocator, mapped_address, data),
                Resource::Dram => self.dram.write(allocator, mapped_address, data),
                Resource::PowerDown => self.power_down.write(allocator, mapped_address, data),
            }
        }
    }

    /// Explicit teardown: instructs every device that holds allocator-managed
    /// backing storage to release it, consuming the bus. Must run before the
    /// allocator itself is finalized, or the allocator's accounting leaks.
    pub fn drop(self, allocator: &mut A)
        ensures
            self.released_all(*old(allocator), *final(allocator)),
    {
        self.mrom.release(allocator);
        self.clint.release(allocator);
        self.plic.release(allocator);
        self.uart0.release(allocator);
        self.flash.release(allocator);
        self.dram.release(allocator);
    }
}

/// Law: an access that lands in a vacant region is never accepted, for any
/// size and direction, and is never dispatched to a device.
pub proof fn lemma_vacant_inert<A, R, C, P, U, D, W>(
    bus: SystemBus<A, R, C, P, U, D, W>,
    address: u32,
    size: nat,
    access_type: AccessType,
)
    requires
        bus.wf(),
        bus.memory_map.lookup(address).resource is None,
    ensures
        bus.spec_check_access(address, size) is None,
        !bus.spec_accepts(address, size, access_type),
{
}

/// Law: an access whose last byte lies past the end of the covering range is
/// never accepted and never dispatched, even though its first address is
/// inside a mapped region.
pub proof fn lemma_overrun_inert<A, R, C, P, U, D, W>(
    bus: SystemBus<A, R, C, P, U, D, W>,
    address: u32,
    size: nat,
    access_type: AccessType,
)
    requires
        bus.wf(),
        size >= 1,
        address + size - 1 > bus.memory_map.lookup(address).range.end,
    ensures
        bus.spec_check_access(address, size) is None,
        !bus.spec_accepts(address, size, access_type),
{
}

/// Law: a zero-sized access is always rejected, whatever its address and
/// direction.
pub proof fn lemma_zero_size_inert<A, R, C, P, U, D, W>(
    bus: SystemBus<A, R, C, P, U, D, W>,
    address: u32,
    access_type: AccessType,
)
    requires
        bus.wf(),
    ensures
        bus.spec_check_access(address, 0) is None,
        !bus.spec_accepts(address, 0, access_type),
{
}

/// Law: once range containment holds, acceptance is exactly the per-device
/// admissibility table.
pub proof fn lemma_accepts_is_policy<A, R, C, P, U, D, W>(
    bus: SystemBus<A, R, C, P, U, D, W>,
    address: u32,
    size: nat,
    access_type: AccessType,
    resource: Resource,
    offset: u32,
)
    requires
        bus.wf(),
        bus.spec_check_access(address, size) == Some((resource, offset)),
    ensures
        bus.spec_accepts(address, size, access_type) == policy_allows(resource, size, access_type),
{
}

/// Law: an accepted access is always dispatched — `read` and `write` forward
/// it to the device the address maps to.
pub proof fn lemma_accepted_is_dispatched<A, R, C, P, U, D, W>(
    bus: SystemBus<A, R, C, P, U, D, W>,
    address: u32,
    size: nat,
    access_type: AccessType,
)
    requires
        bus.wf(),
        bus.spec_accepts(address, size, access_type),
    ensures
        bus.spec_check_access(address, size) is Some,
{
}

/// Law: when an access is rejected for any reason other than the
/// admissibility table — a vacant region, a zero size, a range overrun — it
/// is not dispatched at all. (A contained access that merely violates the
/// table is still forwarded; the table is advisory for `read` and `write`.)
pub proof fn lemma_rejected_without_policy_is_inert<A, R, C, P, U, D, W>(
    bus: SystemBus<A, R, C, P, U, D, W>,
    address: u32,
    size: nat,
    access_type: AccessType,
)
    requires
        bus.wf(),
        !bus.spec_accepts(address, size, access_type),
        bus.memory_map.lookup(address).resource matches Some(resource) ==> policy_allows(
            resource,
            size,
            access_type,
        ),
    ensures
        bus.spec_check_access(address, size) is None,
{
}

} // verus!
