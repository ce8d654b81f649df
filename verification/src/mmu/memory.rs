use vstd::prelude::*;
use crate::instruction::{le_byte, u32_from_le, word_from_le, word_to_le};
use crate::mmu::MemError;
use crate::registers::BitSize;

verus! {

/// The number of bytes in a page.
pub const PAGE_SIZE: usize = 4096;

/// The number of pages in the address space.
pub const PAGE_COUNT: usize = 0x10_0000;

/// The number of bytes in the address space: 2^32.
pub open spec fn mem_size() -> int {
    0x1_0000_0000
}

/// `mem` with the bytes of `data` written over it from `addr` on.
pub open spec fn overwrite(mem: Seq<u8>, addr: int, data: Seq<u8>) -> Seq<u8> {
    Seq::new(
        mem.len(),
        |a: int|
            if addr <= a < addr + data.len() {
                data[a - addr]
            } else {
                mem[a]
            },
    )
}

/// Whether `len` bytes from `addr` on run past the last address.
pub open spec fn overflows(addr: BitSize, len: nat) -> bool {
    len > 0 && addr + len - 1 > BitSize::MAX
}

/// A value that is stored as a fixed number of little-endian bytes.
pub trait ToBytes: Sized {
    /// The number of bytes that a value takes.
    spec fn width() -> nat;

    /// The little-endian bytes of the value, lowest first.
    spec fn to_le_spec(self) -> Seq<u8>;

    /// The little-endian bytes of the value, lowest first.
    fn to_le_bytes(self) -> (buf: Vec<u8>)
        ensures
            buf@ == self.to_le_spec(),
            buf@.len() == Self::width(),
            1 <= Self::width() <= 16,
    ;
}

/// A value that is read from a fixed number of little-endian bytes.
pub trait FromBytes: Sized {
    /// The number of bytes that a value takes.
    spec fn width() -> nat;

    /// The value whose little-endian bytes are `bytes`.
    spec fn from_le_spec(bytes: Seq<u8>) -> Self;

    /// The number of bytes that a value takes.
    fn size() -> (n: BitSize)
        ensures
            n as nat == Self::width(),
            1 <= n <= 16,
    ;

    /// The value whose little-endian bytes are `buf`.
    fn from_le_bytes(buf: &Vec<u8>) -> (v: Self)
        requires
            buf@.len() == Self::width(),
        ensures
            v == Self::from_le_spec(buf@),
    ;
}

impl ToBytes for u8 {
    open spec fn width() -> nat {
        1
    }

    open spec fn to_le_spec(self) -> Seq<u8> {
        seq![self]
    }

    fn to_le_bytes(self) -> (buf: Vec<u8>) {
        let mut buf: Vec<u8> = Vec::new();
        buf.push(self);
        assert(buf@ =~= self.to_le_spec());
        buf
    }
}

impl ToBytes for u16 {
    open spec fn width() -> nat {
        2
    }

    open spec fn to_le_spec(self) -> Seq<u8> {
        seq![(self as int % 0x100) as u8, (self as int / 0x100) as u8]
    }

    fn to_le_bytes(self) -> (buf: Vec<u8>) {
        let mut buf: Vec<u8> = Vec::new();
        assert(self & 0xff == self % 0x100 && self >> 8 == self / 0x100 && (self >> 8) < 0x100)
            by (bit_vector);
        buf.push((self & 0xff) as u8);
        buf.push((self >> 8) as u8);
        assert(buf@ =~= self.to_le_spec());
        buf
    }
}

impl ToBytes for u32 {
    open spec fn width() -> nat {
        4
    }

    open spec fn to_le_spec(self) -> Seq<u8> {
        seq![le_byte(self, 0), le_byte(self, 1), le_byte(self, 2), le_byte(self, 3)]
    }

    fn to_le_bytes(self) -> (buf: Vec<u8>) {
        let le = word_to_le(self);
        let mut buf: Vec<u8> = Vec::new();
        buf.push(le[0]);
        buf.push(le[1]);
        buf.push(le[2]);
        buf.push(le[3]);
        assert(buf@ =~= self.to_le_spec());
        buf
    }
}

impl ToBytes for u64 {
    open spec fn width() -> nat {
        8
    }

    open spec fn to_le_spec(self) -> Seq<u8> {
        ((self % 0x1_0000_0000) as u32).to_le_spec() + ((self / 0x1_0000_0000) as u32).to_le_spec()
    }

    fn to_le_bytes(self) -> (buf: Vec<u8>) {
        assert(self & 0xffff_ffff == self % 0x1_0000_0000 && self >> 32 == self / 0x1_0000_0000
            && (self >> 32) <= 0xffff_ffff) by (bit_vector);
        let low = word_to_le((self & 0xffff_ffff) as u32);
        let high = word_to_le((self >> 32) as u32);
        let mut buf: Vec<u8> = Vec::new();
        buf.push(low[0]);
        buf.push(low[1]);
        buf.push(low[2]);
        buf.push(low[3]);
        buf.push(high[0]);
        buf.push(high[1]);
        buf.push(high[2]);
        buf.push(high[3]);
        assert(buf@ =~= self.to_le_spec());
        buf
    }
}

impl FromBytes for u8 {
    open spec fn width() -> nat {
        1
    }

    open spec fn from_le_spec(bytes: Seq<u8>) -> u8 {
        bytes[0]
    }

    fn size() -> (n: BitSize) {
        1
    }

    fn from_le_bytes(buf: &Vec<u8>) -> (v: u8) {
        buf[0]
    }
}

impl FromBytes for u16 {
    open spec fn width() -> nat {
        2
    }

    open spec fn from_le_spec(bytes: Seq<u8>) -> u16 {
        (bytes[0] as int + bytes[1] as int * 0x100) as u16
    }

    fn size() -> (n: BitSize) {
        2
    }

    fn from_le_bytes(buf: &Vec<u8>) -> (v: u16) {
        let b0: u8 = buf[0];
        let b1: u8 = buf[1];
        assert((b0 as u16) | ((b1 as u16) << 8) == b0 as u16 + b1 as u16 * 0x100) by (bit_vector);
        (b0 as u16) | ((b1 as u16) << 8)
    }
}

impl FromBytes for u32 {
    open spec fn width() -> nat {
        4
    }

    open spec fn from_le_spec(bytes: Seq<u8>) -> u32 {
        u32_from_le(bytes[0], bytes[1], bytes[2], bytes[3])
    }

    fn size() -> (n: BitSize) {
        4
    }

    fn from_le_bytes(buf: &Vec<u8>) -> (v: u32) {
        word_from_le(buf[0], buf[1], buf[2], buf[3])
    }
}

impl FromBytes for u64 {
    open spec fn width() -> nat {
        8
    }

    open spec fn from_le_spec(bytes: Seq<u8>) -> u64 {
        (u32_from_le(bytes[0], bytes[1], bytes[2], bytes[3]) + u32_from_le(
            bytes[4],
            bytes[5],
            bytes[6],
            bytes[7],
        ) * 0x1_0000_0000) as u64
    }

    fn size() -> (n: BitSize) {
        8
    }

    fn from_le_bytes(buf: &Vec<u8>) -> (v: u64) {
        let low = word_from_le(buf[0], buf[1], buf[2], buf[3]);
        let high = word_from_le(buf[4], buf[5], buf[6], buf[7]);
        assert((low as u64) | ((high as u64) << 32) == low as u64 + high as u64 * 0x1_0000_0000)
            by (bit_vector);
        (low as u64) | ((high as u64) << 32)
    }
}

/// The byte store of the machine: 2^32 bytes, all zero until written.
/// Pages that were never written take no room.
#[derive(Debug)]
pub struct Memory {
    pages: Vec<Vec<u8>>,
}

impl View for Memory {
    type V = Seq<u8>;

    /// The bytes of the store, by address.
    open spec fn view(&self) -> Seq<u8> {
        Seq::new(mem_size() as nat, |a: int| self.byte(a))
    }
}

impl Memory {
    /// The invariant of the store: one slot per page, each either empty
    /// (a page of zeros) or a full page of bytes.
    pub closed spec fn wf(&self) -> bool {
        &&& self.pages@.len() == PAGE_COUNT
        &&& forall|p: int|
            0 <= p < PAGE_COUNT ==> (#[trigger] self.pages@[p])@.len() == 0
                || self.pages@[p]@.len() == PAGE_SIZE
    }

    /// The byte at `addr`.
    pub closed spec fn byte(&self, addr: int) -> u8 {
        let page = self.pages@[addr / 4096]@;
        if page.len() == 0 {
            0
        } else {
            page[addr % 4096]
        }
    }

    /// A store of zeros.
    pub fn new() -> (mem: Memory)
        ensures
            mem.wf(),
            mem@ == Seq::new(mem_size() as nat, |a: int| 0u8),
    {
        let mut pages: Vec<Vec<u8>> = Vec::new();
        let mut i: usize = 0;
        while i < PAGE_COUNT
            invariant
                i <= PAGE_COUNT,
                pages@.len() == i,
                forall|p: int| 0 <= p < i ==> (#[trigger] pages@[p])@.len() == 0,
            decreases PAGE_COUNT - i,
        {
            pages.push(Vec::new());
            i += 1;
        }
        let mem = Memory { pages };
        assert(mem@ =~= Seq::new(mem_size() as nat, |a: int| 0u8));
        mem
    }

    /// The byte at `addr`.
    pub fn load(&self, addr: BitSize) -> (v: u8)
        requires
            self.wf(),
        ensures
            v == self@[addr as int],
    {
        let p: usize = (addr / 4096) as usize;
        let off: usize = (addr % 4096) as usize;
        let page = &self.pages[p];
        if page.len() == 0 {
            0
        } else {
            page[off]
        }
    }

    /// Sets the byte at `addr` to `v`.
    pub fn store(&mut self, addr: BitSize, v: u8)
        requires
            old(self).wf(),
        ensures
            final(self).wf(),
            final(self)@ == old(self)@.update(addr as int, v),
    {
        let p: usize = (addr / 4096) as usize;
        let off: usize = (addr % 4096) as usize;
        if self.pages[p].len() == 0 {
            let fresh: Vec<u8> = vec![0u8; PAGE_SIZE];
            self.pages[p] = fresh;
        }
        self.pages[p][off] = v;
        assert(final(self)@ =~= old(self)@.update(addr as int, v));
    }

    /// Reads the little-endian value at `addr`. Fails with `Overflow`
    /// where its last byte would lie past the last address.
    pub fn read<N: FromBytes>(&self, addr: BitSize) -> (r: Result<N, MemError>)
        requires
            self.wf(),
        ensures
            overflows(addr, N::width()) ==> r == Err::<N, MemError>(MemError::Overflow),
            !overflows(addr, N::width()) ==> r == Ok::<N, MemError>(
                N::from_le_spec(self@.subrange(addr as int, addr + N::width())),
            ),
    {
        let n = N::size();
        if addr.checked_add(n - 1).is_none() {
            return Err(MemError::Overflow);
        }
        let mut buf: Vec<u8> = Vec::new();
        let mut i: BitSize = 0;
        while i < n
            invariant
                self.wf(),
                i <= n,
                addr + n - 1 <= BitSize::MAX,
                buf@ == self@.subrange(addr as int, addr + i),
            decreases n - i,
        {
            buf.push(self.load(addr + i));
            i += 1;
            assert(buf@ =~= self@.subrange(addr as int, addr + i));
        }
        Ok(N::from_le_bytes(&buf))
    }

    /// Writes `val` at `addr`, little-endian. Fails with `Overflow`, and
    /// writes nothing, where its last byte would lie past the last address.
    pub fn write<N: ToBytes>(&mut self, addr: BitSize, val: N) -> (r: Result<(), MemError>)
        requires
            old(self).wf(),
        ensures
            final(self).wf(),
            overflows(addr, N::width()) ==> r == Err::<(), MemError>(MemError::Overflow)
                && final(self)@ == old(self)@,
            !overflows(addr, N::width()) ==> r == Ok::<(), MemError>(()) && final(self)@
                == overwrite(old(self)@, addr as int, val.to_le_spec()),
    {
        let buf = val.to_le_bytes();
        self.memwrite(addr, buf.as_slice())
    }

    /// Copies `buf.len()` bytes out of the store, from `addr` on. Fails
    /// with `Overflow`, and copies nothing, where the last of them would lie
    /// past the last address.
    pub fn memcpy(&self, addr: BitSize, buf: &mut Vec<u8>) -> (r: Result<(), MemError>)
        requires
            self.wf(),
        ensures
            final(buf)@.len() == old(buf)@.len(),
            overflows(addr, old(buf)@.len()) ==> r == Err::<(), MemError>(MemError::Overflow)
                && final(buf)@ == old(buf)@,
            !overflows(addr, old(buf)@.len()) ==> r == Ok::<(), MemError>(()) && final(buf)@
                == self@.subrange(addr as int, addr + old(buf)@.len()),
    {
        let len = buf.len();
        if len == 0 {
            assert(buf@ =~= self@.subrange(addr as int, addr as int));
            return Ok(());
        }
        if len - 1 > (BitSize::MAX - addr) as usize {
            return Err(MemError::Overflow);
        }
        let ghost len0 = buf@.len();
        let mut i: usize = 0;
        while i < len
            invariant
                self.wf(),
                i <= len,
                len == len0,
                buf@.len() == len0,
                addr + len - 1 <= BitSize::MAX,
                buf@.subrange(0, i as int) == self@.subrange(addr as int, addr + i),
            decreases len - i,
        {
            let v = self.load(addr + i as BitSize);
            buf[i] = v;
            i += 1;
            assert(buf@.subrange(0, i as int) =~= self@.subrange(addr as int, addr + i));
        }
        assert(buf@ =~= buf@.subrange(0, len as int));
        Ok(())
    }

    /// Copies the bytes of `buf` into the store, from `addr` on. Fails
    /// with `Overflow`, and writes nothing, where the last of them would lie
    /// past the last address.
    pub fn memwrite(&mut self, addr: BitSize, buf: &[u8]) -> (r: Result<(), MemError>)
        requires
            old(self).wf(),
        ensures
            final(self).wf(),
            overflows(addr, buf@.len()) ==> r == Err::<(), MemError>(MemError::Overflow)
                && final(self)@ == old(self)@,
            !overflows(addr, buf@.len()) ==> r == Ok::<(), MemError>(()) && final(self)@
                == overwrite(old(self)@, addr as int, buf@),
    {
        let len = buf.len();
        if len == 0 {
            assert(self@ =~= overwrite(self@, addr as int, buf@));
            return Ok(());
        }
        if len - 1 > (BitSize::MAX - addr) as usize {
            return Err(MemError::Overflow);
        }
        let ghost before = self@;
        let mut i: usize = 0;
        while i < len
            invariant
                self.wf(),
                i <= len,
                len == buf@.len(),
                addr + len - 1 <= BitSize::MAX,
                self@ == overwrite(before, addr as int, buf@.subrange(0, i as int)),
            decreases len - i,
        {
            self.store(addr + i as BitSize, buf[i]);
            i += 1;
            assert(self@ =~= overwrite(before, addr as int, buf@.subrange(0, i as int)));
        }
        assert(buf@.subrange(0, len as int) =~= buf@);
        Ok(())
    }

    /// Resets every byte to zero.
    pub fn zeroize(&mut self)
        ensures
            final(self).wf(),
            final(self)@ == Seq::new(mem_size() as nat, |a: int| 0u8),
    {
        *self = Memory::new();
    }
}

} // verus!
