//! The capability every peripheral on the bus implements.
//!
//! The bus hands a device accesses in its own zero-based address space, after
//! translating the bus-level address, together with an opaque allocator handle
//! `A` through which a device may manage whatever backing storage it needs.
//! Each implementation describes its behaviour through the `*_ok` relations;
//! the bus's own contracts forward those relations verbatim, so a caller that
//! knows the concrete device types knows exactly what an access did.

use vstd::prelude::*;

verus! {

/// Uniform read/write/debug-read/release interface of a peripheral, generic
/// over the allocator capability `A` that backs its storage.
pub trait Device<A>: Sized {
    /// Relates the device and allocator before a read of `len` bytes at
    /// `offset` to the device and allocator after it and the bytes produced.
    /// A read may have side effects (consuming a FIFO element, clearing a
    /// pending flag), which is why it takes the device mutably.
    spec fn read_ok(pre: Self, pre_a: A, offset: u32, len: nat, post: Self, post_a: A, data: Seq<u8>) -> bool;

    /// The bytes a side-effect-free debug read of `len` bytes at `offset`
    /// produces.
    spec fn debug_ok(self, a: A, offset: u32, len: nat, data: Seq<u8>) -> bool;

    /// Relates the device and allocator before a write of `data` at `offset`
    /// to the device and allocator after it.
    spec fn write_ok(pre: Self, pre_a: A, offset: u32, data: Seq<u8>, post: Self, post_a: A) -> bool;

    /// Relates the allocator before the device releases its backing storage
    /// to the allocator after it.
    spec fn release_ok(self, pre_a: A, post_a: A) -> bool;

    /// Fills `buf` with bytes read at device-local `offset`.
    fn read(&mut self, buf: &mut Vec<u8>, allocator: &mut A, offset: u32)
        ensures
            final(buf)@.len() == old(buf)@.len(),
            Self::read_ok(
                *old(self),
                *old(allocator),
                offset,
                old(buf)@.len(),
                *final(self),
                *final(allocator),
                final(buf)@,
            ),
    ;

    /// Fills `buf` like `read`, but from a read-only view of the device and
    /// the allocator: introspection that cannot perturb machine state.
    fn read_debug(&self, buf: &mut Vec<u8>, allocator: &A, offset: u32)
        ensures
            final(buf)@.len() == old(buf)@.len(),
            self.debug_ok(*allocator, offset, old(buf)@.len(), final(buf)@),
    ;

    /// Writes `data` at device-local `offset`.
    fn write(&mut self, allocator: &mut A, offset: u32, data: &Vec<u8>)
        ensures
            Self::write_ok(*old(self), *old(allocator), offset, data@, *final(self), *final(allocator)),
    ;

    /// Hands the device's allocator-managed backing storage back, consuming
    /// the device.
    fn release(self, allocator: &mut A)
        ensures
            self.release_ok(*old(allocator), *final(allocator)),
    ;
}

/// A platform interrupt controller: a [`Device`] that additionally accepts
/// raise/lower requests on its interrupt channels, numbered 1 through 52.
pub trait IrqController<A>: Device<A> {
    /// Relates controller and allocator before raising channel `index` to
    /// controller and allocator after it.
    spec fn raise_ok(pre: Self, pre_a: A, index: u8, post: Self, post_a: A) -> bool;

    /// Relates controller and allocator before lowering channel `index` to
    /// controller and allocator after it.
    spec fn lower_ok(pre: Self, pre_a: A, index: u8, post: Self, post_a: A) -> bool;

    /// Raises interrupt channel `index`.
    fn raise(&mut self, allocator: &mut A, index: u8)
        requires
            1 <= index <= 52,
        ensures
            Self::raise_ok(*old(self), *old(allocator), index, *final(self), *final(allocator)),
    ;

    /// Lowers interrupt channel `index`.
    fn lower(&mut self, allocator: &mut A, index: u8)
        requires
            1 <= index <= 52,
        ensures
            Self::lower_ok(*old(self), *old(allocator), index, *final(self), *final(allocator)),
    ;
}

} // verus!
