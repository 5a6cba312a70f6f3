//! Reference peripherals: small, fully specified implementations of the
//! [`Device`](crate::device::Device) capability. They keep their state in
//! ordinary owned memory and therefore work with any allocator capability.

use vstd::prelude::*;
use vstd::pervasive::VecAdditionalExecFns;
use crate::device::Device;
use crate::device::IrqController;
use crate::system_bus::Resource;
use crate::system_bus::SystemBus;

verus! {

/// The bytes a read of `len` bytes at `offset` out of `bytes` produces:
/// stored bytes inside the backing store, zeroes past its end.
pub open spec fn bytes_read(bytes: Seq<u8>, offset: u32, len: nat) -> Seq<u8> {
    Seq::new(
        len,
        |i: int|
            if offset + i < bytes.len() {
                bytes[offset + i]
            } else {
                0u8
            },
    )
}

/// The backing store after writing `data` at `offset` into `bytes`: bytes
/// the access covers are replaced, everything else (including any part of
/// the access past the end of the store) is untouched.
pub open spec fn bytes_written(bytes: Seq<u8>, offset: u32, data: Seq<u8>) -> Seq<u8> {
    Seq::new(
        bytes.len(),
        |j: int|
            if offset <= j < offset + data.len() {
                data[j - offset]
            } else {
                bytes[j]
            },
    )
}

/// Law: bytes written within the backing store are read back unchanged by a
/// read of the same size at the same offset.
pub proof fn lemma_bytes_round_trip(bytes: Seq<u8>, offset: u32, data: Seq<u8>)
    requires
        offset + data.len() <= bytes.len(),
    ensures
        bytes_read(bytes_written(bytes, offset, data), offset, data.len()) == data,
{
    assert(bytes_read(bytes_written(bytes, offset, data), offset, data.len()) =~= data);
}

/// Law: a write leaves every byte of the backing store outside the written
/// window exactly as it was.
pub proof fn lemma_write_frames(bytes: Seq<u8>, offset: u32, data: Seq<u8>, j: int)
    requires
        0 <= j < bytes.len(),
        !(offset <= j < offset + data.len()),
    ensures
        bytes_written(bytes, offset, data)[j] == bytes[j],
{
}

/// Law: on a bus whose RAM slot is a [`Ram`], performing an accepted write
/// to the RAM and then a read of the same size at the same address returns
/// exactly the bytes written, provided the access lies within the RAM's
/// backing store. The hypotheses are precisely the relations the bus's
/// `write` and `read` contracts establish for an access that its validation
/// maps to the RAM; the validation outcome itself is unchanged by the write,
/// so the read is dispatched the same way.
pub proof fn lemma_ram_round_trip<A, R, C, P, U, W>(
    pre: SystemBus<A, R, C, P, U, Ram, W>,
    pre_a: A,
    mid: SystemBus<A, R, C, P, U, Ram, W>,
    mid_a: A,
    post: SystemBus<A, R, C, P, U, Ram, W>,
    post_a: A,
    address: u32,
    offset: u32,
    data: Seq<u8>,
    out: Seq<u8>,
) where
    R: Device<A>,
    C: Device<A>,
    P: Device<A>,
    U: Device<A>,
    W: Device<A>,

    requires
        pre.wf(),
        pre.spec_check_access(address, data.len()) == Some((Resource::Dram, offset)),
        offset + data.len() <= pre.dram.bytes@.len(),
        SystemBus::unchanged_except(pre, mid, Resource::Dram),
        SystemBus::write_reaches(pre, pre_a, offset, data, mid, mid_a, Resource::Dram),
        SystemBus::unchanged_except(mid, post, Resource::Dram),
        SystemBus::read_reaches(mid, mid_a, offset, data.len(), post, post_a, Resource::Dram, out),
    ensures
        mid.spec_check_access(address, data.len()) == Some((Resource::Dram, offset)),
        out == data,
{
    lemma_bytes_round_trip(pre.dram.bytes@, offset, data);
}

/// Random-access memory: a plain byte store. Reads have no side effects;
/// reads past the end of the store yield zeroes and writes past it are
/// dropped, so every device-local offset is handled.
#[derive(Debug)]
pub struct Ram {
    pub bytes: Vec<u8>,
}

impl Ram {
    /// A zero-filled store of `size` bytes.
    pub fn new(size: usize) -> (r: Ram)
        ensures
            r.bytes@.len() == size,
            forall|i: int| 0 <= i < size ==> r.bytes@[i] == 0u8,
    {
        let mut bytes: Vec<u8> = Vec::new();
        let mut i: usize = 0;
        while i < size
            invariant
                i <= size,
                bytes@.len() == i,
                forall|j: int| 0 <= j < i ==> bytes@[j] == 0u8,
            decreases size - i,
        {
            bytes.push(0u8);
            i += 1;
        }
        Ram { bytes }
    }
}

impl<A> Device<A> for Ram {
    open spec fn read_ok(pre: Self, pre_a: A, offset: u32, len: nat, post: Self, post_a: A, data: Seq<u8>) -> bool {
        &&& post == pre
        &&& post_a == pre_a
        &&& data == bytes_read(pre.bytes@, offset, len)
    }

    open spec fn debug_ok(self, a: A, offset: u32, len: nat, data: Seq<u8>) -> bool {
        data == bytes_read(self.bytes@, offset, len)
    }

    open spec fn write_ok(pre: Self, pre_a: A, offset: u32, data: Seq<u8>, post: Self, post_a: A) -> bool {
        &&& post.bytes@ == bytes_written(pre.bytes@, offset, data)
        &&& post_a == pre_a
    }

    open spec fn release_ok(self, pre_a: A, post_a: A) -> bool {
        post_a == pre_a
    }

    fn read(&mut self, buf: &mut Vec<u8>, allocator: &mut A, offset: u32) {
        read_bytes_into(&self.bytes, buf, offset);
    }

    fn read_debug(&self, buf: &mut Vec<u8>, allocator: &A, offset: u32) {
        read_bytes_into(&self.bytes, buf, offset);
    }

    fn write(&mut self, allocator: &mut A, offset: u32, data: &Vec<u8>) {
        let o: usize = offset as usize;
        let n: usize = data.len();
        let mut i: usize = 0;
        while i < n
            invariant
                i <= n,
                n == data@.len(),
                o == offset,
                self.bytes@.len() == old(self).bytes@.len(),
                forall|j: int|
                    0 <= j < self.bytes@.len() ==> self.bytes@[j] == (if offset <= j < offset + i {
                        data@[j - offset]
                    } else {
                        old(self).bytes@[j]
                    }),
            decreases n - i,
        {
            if o < self.bytes.len() && i < self.bytes.len() - o {
                let v: u8 = data[i];
                self.bytes.set(o + i, v);
            }
            i += 1;
        }
        proof {
            assert(self.bytes@ =~= bytes_written(old(self).bytes@, offset, data@));
        }
    }

    fn release(self, allocator: &mut A) {
    }
}

/// Copies bytes at `offset` out of `bytes` into the whole of `buf`,
/// zero-filling whatever lies past the end of `bytes`.
fn read_bytes_into(bytes: &Vec<u8>, buf: &mut Vec<u8>, offset: u32)
    ensures
        final(buf)@.len() == old(buf)@.len(),
        final(buf)@ == bytes_read(bytes@, offset, old(buf)@.len()),
{
    let o: usize = offset as usize;
    let n: usize = buf.len();
    let mut i: usize = 0;
    while i < n
        invariant
            i <= n,
            n == buf@.len(),
            o == offset,
            forall|j: int|
                0 <= j < i ==> buf@[j] == (if offset + j < bytes@.len() {
                    bytes@[offset + j]
                } else {
                    0u8
                }),
        decreases n - i,
    {
        if o < bytes.len() && i < bytes.len() - o {
            let v: u8 = bytes[o + i];
            buf.set(i, v);
        } else {
            buf.set(i, 0u8);
        }
        i += 1;
    }
    proof {
        assert(buf@ =~= bytes_read(bytes@, offset, n as nat));
    }
}

/// A device with no state at all: reads yield zeroes, writes are dropped,
/// and there is no backing storage to release. Useful for bus slots whose
/// peripheral is irrelevant to the machine being assembled.
#[derive(Debug, Clone, Copy, PartialEq, Eq, Structural)]
pub struct InertDevice;

impl<A> Device<A> for InertDevice {
    open spec fn read_ok(pre: Self, pre_a: A, offset: u32, len: nat, post: Self, post_a: A, data: Seq<u8>) -> bool {
        &&& post == pre
        &&& post_a == pre_a
        &&& data == Seq::new(len, |i: int| 0u8)
    }

    open spec fn debug_ok(self, a: A, offset: u32, len: nat, data: Seq<u8>) -> bool {
        data == Seq::new(len, |i: int| 0u8)
    }

    open spec fn write_ok(pre: Self, pre_a: A, offset: u32, data: Seq<u8>, post: Self, post_a: A) -> bool {
        &&& post == pre
        &&& post_a == pre_a
    }

    open spec fn release_ok(self, pre_a: A, post_a: A) -> bool {
        post_a == pre_a
    }

    fn read(&mut self, buf: &mut Vec<u8>, allocator: &mut A, offset: u32) {
        zero_fill(buf);
    }

    fn read_debug(&self, buf: &mut Vec<u8>, allocator: &A, offset: u32) {
        zero_fill(buf);
    }

    fn write(&mut self, allocator: &mut A, offset: u32, data: &Vec<u8>) {
    }

    fn release(self, allocator: &mut A) {
    }
}

/// Overwrites the whole of `buf` with zeroes.
fn zero_fill(buf: &mut Vec<u8>)
    ensures
        final(buf)@.len() == old(buf)@.len(),
        final(buf)@ == Seq::new(old(buf)@.len(), |i: int| 0u8),
{
    let n: usize = buf.len();
    let mut i: usize = 0;
    while i < n
        invariant
            i <= n,
            n == buf@.len(),
            forall|j: int| 0 <= j < i ==> buf@[j] == 0u8,
        decreases n - i,
    {
        buf.set(i, 0u8);
        i += 1;
    }
    proof {
        assert(buf@ =~= Seq::new(n as nat, |i: int| 0u8));
    }
}

/// A minimal platform interrupt controller: it latches which of its 52
/// channels are raised. Register reads and writes are out of scope for the
/// bus model, so its memory-mapped face behaves like [`InertDevice`].
#[derive(Debug)]
pub struct IrqLatch {
    pub lines: Vec<bool>,
}

/// Number of latch slots: one per channel 1..=52, plus the unused slot 0.
pub const IRQ_LINES: usize = 53;

impl IrqLatch {
    /// A latch with every channel lowered.
    pub fn new() -> (r: IrqLatch)
        ensures
            r.lines@.len() == IRQ_LINES,
            forall|i: int| 0 <= i < IRQ_LINES ==> !r.lines@[i],
    {
        let mut lines: Vec<bool> = Vec::new();
        let mut i: usize = 0;
        while i < IRQ_LINES
            invariant
                i <= IRQ_LINES,
                lines@.len() == i,
                forall|j: int| 0 <= j < i ==> !lines@[j],
            decreases IRQ_LINES - i,
        {
            lines.push(false);
            i += 1;
        }
        IrqLatch { lines }
    }

    /// Whether channel `index` is currently raised.
    pub open spec fn line(self, index: u8) -> bool {
        index < self.lines@.len() && self.lines@[index as int]
    }

    /// Reports whether channel `index` is currently raised.
    pub fn is_pending(&self, index: u8) -> (r: bool)
        ensures
            r == self.line(index),
    {
        (index as usize) < self.lines.len() && self.lines[index as usize]
    }
}

impl<A> Device<A> for IrqLatch {
    open spec fn read_ok(pre: Self, pre_a: A, offset: u32, len: nat, post: Self, post_a: A, data: Seq<u8>) -> bool {
        &&& post == pre
        &&& post_a == pre_a
        &&& data == Seq::new(len, |i: int| 0u8)
    }

    open spec fn debug_ok(self, a: A, offset: u32, len: nat, data: Seq<u8>) -> bool {
        data == Seq::new(len, |i: int| 0u8)
    }

    open spec fn write_ok(pre: Self, pre_a: A, offset: u32, data: Seq<u8>, post: Self, post_a: A) -> bool {
        &&& post == pre
        &&& post_a == pre_a
    }

    open spec fn release_ok(self, pre_a: A, post_a: A) -> bool {
        post_a == pre_a
    }

    fn read(&mut self, buf: &mut Vec<u8>, allocator: &mut A, offset: u32) {
        zero_fill(buf);
    }

    fn read_debug(&self, buf: &mut Vec<u8>, allocator: &A, offset: u32) {
        zero_fill(buf);
    }

    fn write(&mut self, allocator: &mut A, offset: u32, data: &Vec<u8>) {
    }

    fn release(self, allocator: &mut A) {
    }
}

impl<A> IrqController<A> for IrqLatch {
    open spec fn raise_ok(pre: Self, pre_a: A, index: u8, post: Self, post_a: A) -> bool {
        &&& post_a == pre_a
        &&& post.lines@ == (if index < pre.lines@.len() {
            pre.lines@.update(index as int, true)
        } else {
            pre.lines@
        })
    }

    open spec fn lower_ok(pre: Self, pre_a: A, index: u8, post: Self, post_a: A) -> bool {
        &&& post_a == pre_a
        &&& post.lines@ == (if index < pre.lines@.len() {
            pre.lines@.update(index as int, false)
        } else {
            pre.lines@
        })
    }

    fn raise(&mut self, allocator: &mut A, index: u8) {
        if (index as usize) < self.lines.len() {
            self.lines.set(index as usize, true);
        }
    }

    fn lower(&mut self, allocator: &mut A, index: u8) {
        if (index as usize) < self.lines.len() {
            self.lines.set(index as usize, false);
        }
    }
}

} // verus!
