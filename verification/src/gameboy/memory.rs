use byteorder::{ByteOrder, LittleEndian};
use vstd::prelude::*;

verus! {

/// The little-endian value of the two bytes `lo`, `hi`.
pub open spec fn le16(lo: u8, hi: u8) -> u16 {
    (lo as int + 256 * hi as int) as u16
}

/// `LittleEndian::read_u16` of the byteorder crate, on `buf[at..]`: its documentation
/// says that it reads the first two bytes of the slice as a little-endian `u16`
/// and panics when fewer than two bytes are there.
#[verifier::external_body]
pub(crate) fn le_read_u16(buf: &[u8], at: usize) -> (r: u16)
    requires
        at + 2 <= buf@.len(),
    ensures
        r == le16(buf@[at as int], buf@[at + 1]),
{
    LittleEndian::read_u16(&buf[at..])
}

/// `LittleEndian::write_u16` of the byteorder crate, on `buf[at..]`: its documentation
/// says that it stores `n` in the first two bytes of the slice, low byte first,
/// and panics when fewer than two bytes are there.
#[verifier::external_body]
fn le_write_u16(buf: &mut [u8], at: usize, n: u16)
    requires
        at + 2 <= old(buf)@.len(),
    ensures
        final(buf)@ == old(buf)@.update(at as int, (n % 256) as u8).update(at + 1, (n / 256) as u8),
{
    LittleEndian::write_u16(&mut buf[at..], n)
}

/// A block of byte-addressed memory of fixed size.
pub struct Memory {
    ram: Vec<u8>,
}

impl View for Memory {
    type V = Seq<u8>;

    closed spec fn view(&self) -> Seq<u8> {
        self.ram@
    }
}

impl Memory {
    /// A block of `capacity` zero bytes.
    pub fn new(capacity: usize) -> (m: Memory)
        ensures
            m@ == Seq::new(capacity as nat, |i: int| 0u8),
    {
        let ram = vec![0x00u8; capacity];
        let m = Memory { ram };
        assert(m@ =~= Seq::new(capacity as nat, |i: int| 0u8));
        m
    }

    /// The number of bytes in the block.
    pub fn len(&self) -> (n: usize)
        ensures
            n == self@.len(),
    {
        self.ram.len()
    }

    /// The byte at `addr`.
    pub fn read_u8(&self, addr: u16) -> (b: u8)
        requires
            addr < self@.len(),
        ensures
            b == self@[addr as int],
    {
        self.ram[addr as usize]
    }

    /// The byte at index `idx`, for blocks larger than the 16-bit address space.
    pub fn byte_at(&self, idx: usize) -> (b: u8)
        requires
            idx < self@.len(),
        ensures
            b == self@[idx as int],
    {
        self.ram[idx]
    }

    /// The little-endian 16-bit value stored at `addr` and `addr + 1`.
    pub fn read_u16(&self, addr: u16) -> (v: u16)
        requires
            addr + 2 <= self@.len(),
        ensures
            v == le16(self@[addr as int], self@[addr + 1]),
    {
        le_read_u16(self.ram.as_slice(), addr as usize)
    }

    /// The bytes from `start` up to, not including, `end`.
    pub fn read_bytes(&self, start: u16, end: u16) -> (s: &[u8])
        requires
            start <= end,
            end <= self@.len(),
        ensures
            s@ == self@.subrange(start as int, end as int),
    {
        let v = self.ram.as_slice();
        let r = start as usize..end as usize;
        &v[r]
    }

    /// Stores `value` at `addr`.
    pub fn write_u8(&mut self, addr: u16, value: u8)
        requires
            addr < old(self)@.len(),
        ensures
            final(self)@ == old(self)@.update(addr as int, value),
    {
        self.ram.set(addr as usize, value);
    }

    /// Stores `value` at `addr` and `addr + 1`, low byte first.
    pub fn write_u16(&mut self, addr: u16, value: u16)
        requires
            addr + 2 <= old(self)@.len(),
        ensures
            final(self)@ == old(self)@.update(addr as int, (value % 256) as u8).update(
                addr + 1,
                (value / 256) as u8,
            ),
    {
        le_write_u16(self.ram.as_mut_slice(), addr as usize, value);
    }

    /// Copies `bytes` into the block starting at `addr`.
    pub fn write_bytes(&mut self, addr: u16, bytes: &[u8])
        requires
            addr + bytes@.len() <= old(self)@.len(),
        ensures
            final(self)@ == old(self)@.subrange(0, addr as int) + bytes@ + old(self)@.subrange(
                addr + bytes@.len(),
                old(self)@.len() as int,
            ),
    {
        let mut i: usize = 0;
        let start: usize = addr as usize;
        let n: usize = self.ram.len();
        while i < bytes.len()
            invariant
                start == addr,
                n == old(self)@.len(),
                i <= bytes@.len(),
                start + bytes@.len() <= old(self)@.len(),
                self@.len() == old(self)@.len(),
                forall|j: int| 0 <= j < start ==> self@[j] == old(self)@[j],
                forall|j: int| start <= j < start + i ==> self@[j] == bytes@[j - start],
                forall|j: int| start + i <= j < self@.len() ==> self@[j] == old(self)@[j],
            decreases bytes@.len() - i,
        {
            self.ram.set(start + i, bytes[i]);
            i = i + 1;
        }
        assert(self@ =~= old(self)@.subrange(0, addr as int) + bytes@ + old(self)@.subrange(
            addr + bytes@.len(),
            old(self)@.len() as int,
        ));
    }
}

} // verus!
