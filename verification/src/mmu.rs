pub mod address_range;
pub mod memory;

use vstd::prelude::*;
use crate::mmu::address_range::AddressRange;
use crate::mmu::memory::{FromBytes, Memory, ToBytes, PAGE_COUNT, mem_size, overflows, overwrite};
use crate::registers::BitSize;

verus! {

/// One kind of access to a page.
#[derive(Copy, Clone, Debug, PartialEq, Eq, Structural)]
pub enum Prot {
    Read,
    Write,
    Execute,
}

/// A protection mask: a set of kinds of access.
#[derive(Copy, Clone, Debug, PartialEq, Eq, Structural)]
pub struct Protection {
    pub read: bool,
    pub write: bool,
    pub execute: bool,
}

/// Why a memory operation failed.
#[derive(Copy, Clone, Debug, PartialEq, Eq, Structural)]
pub enum MemError {
    /// A page lacks some access that was required; the mask holds the
    /// kinds of access that were required and are missing.
    PageFault(Protection),
    /// The last byte of the access would lie past the last address.
    Overflow,
}

impl Protection {
    /// Whether every kind of access in `req` is in this mask.
    pub open spec fn contains_spec(self, req: Protection) -> bool {
        &&& req.read ==> self.read
        &&& req.write ==> self.write
        &&& req.execute ==> self.execute
    }

    /// The kinds of access in `req` that this mask lacks.
    pub open spec fn missing_spec(self, req: Protection) -> Protection {
        Protection {
            read: req.read && !self.read,
            write: req.write && !self.write,
            execute: req.execute && !self.execute,
        }
    }

    /// The mask that holds exactly `p`.
    pub open spec fn of_spec(p: Prot) -> Protection {
        Protection { read: p == Prot::Read, write: p == Prot::Write, execute: p == Prot::Execute }
    }

    /// The mask that holds no access.
    pub fn empty() -> (r: Protection)
        ensures
            r == (Protection { read: false, write: false, execute: false }),
    {
        Protection { read: false, write: false, execute: false }
    }

    /// The mask that holds every access.
    pub fn all() -> (r: Protection)
        ensures
            r == (Protection { read: true, write: true, execute: true }),
    {
        Protection { read: true, write: true, execute: true }
    }

    /// The mask that holds exactly `p`.
    pub fn of(p: Prot) -> (r: Protection)
        ensures
            r == Protection::of_spec(p),
    {
        match p {
            Prot::Read => Protection { read: true, write: false, execute: false },
            Prot::Write => Protection { read: false, write: true, execute: false },
            Prot::Execute => Protection { read: false, write: false, execute: true },
        }
    }

    /// The mask that holds what either mask holds.
    pub fn union(self, other: Protection) -> (r: Protection)
        ensures
            r == (Protection {
                read: self.read || other.read,
                write: self.write || other.write,
                execute: self.execute || other.execute,
            }),
    {
        Protection {
            read: self.read || other.read,
            write: self.write || other.write,
            execute: self.execute || other.execute,
        }
    }

    /// This mask with `p` added.
    pub fn with(self, p: Prot) -> (r: Protection)
        ensures
            r == (Protection {
                read: self.read || p == Prot::Read,
                write: self.write || p == Prot::Write,
                execute: self.execute || p == Prot::Execute,
            }),
    {
        self.union(Protection::of(p))
    }

    /// Whether the mask holds no access.
    pub fn is_empty(self) -> (r: bool)
        ensures
            r == (!self.read && !self.write && !self.execute),
    {
        !self.read && !self.write && !self.execute
    }

    /// Whether every kind of access in `req` is in this mask.
    pub fn contains(self, req: Protection) -> (r: bool)
        ensures
            r == self.contains_spec(req),
    {
        (!req.read || self.read) && (!req.write || self.write) && (!req.execute || self.execute)
    }

    /// The kinds of access in `req` that this mask lacks.
    pub fn missing(self, req: Protection) -> (r: Protection)
        ensures
            r == self.missing_spec(req),
    {
        Protection {
            read: req.read && !self.read,
            write: req.write && !self.write,
            execute: req.execute && !self.execute,
        }
    }

    /// The mask as three bits: 1 for read, 2 for write, 4 for execute.
    pub fn bits(self) -> (r: u8)
        ensures
            r as int == (if self.read { 1int } else { 0 }) + (if self.write { 2int } else { 0 })
                + (if self.execute { 4int } else { 0 }),
    {
        let r: u8 = if self.read { 1 } else { 0 };
        let w: u8 = if self.write { 2 } else { 0 };
        let x: u8 = if self.execute { 4 } else { 0 };
        r + w + x
    }
}

/// The memory management unit: the byte store and, for each page, its
/// protection mask.
#[derive(Debug)]
pub struct Mmu {
    pages: Vec<Protection>,
    mem: Memory,
}

/// The state of a memory management unit: the bytes of its store, by
/// address, and the protection masks, by page.
pub struct MmuView {
    pub mem: Seq<u8>,
    pub prot: Seq<Protection>,
}

impl MmuView {
    /// The protection mask of page `page`.
    pub open spec fn page_prot(self, page: int) -> Protection {
        self.prot[page]
    }

    /// This state with `mem` as its store.
    pub open spec fn with_mem(self, mem: Seq<u8>) -> MmuView {
        MmuView { mem, ..self }
    }

    /// The first fault that a check for `req` meets on the pages from
    /// `page` to `last`: what `req` asks and the lowest page that lacks
    /// some of it does not give.
    pub open spec fn fault_from(self, page: int, last: int, req: Protection) -> Option<Protection>
        decreases last - page + 1,
    {
        if page > last {
            None
        } else if !self.page_prot(page).contains_spec(req) {
            Some(self.page_prot(page).missing_spec(req))
        } else if page == last {
            None
        } else {
            self.fault_from(page + 1, last, req)
        }
    }

    /// The first fault that a check of `range` for `req` meets, if any.
    pub open spec fn fault_in(self, range: AddressRange, req: Protection) -> Option<Protection> {
        if range.well_formed() {
            self.fault_from(range.first_page(), range.last_page(), req)
        } else {
            None
        }
    }

    /// What a checked access of `width` bytes at `addr` fails with, if it
    /// fails: a page fault where the page of `addr` lacks `req`, else an
    /// overflow where the access runs past the last address.
    pub open spec fn access_error(self, addr: BitSize, width: nat, req: Protection) -> Option<
        MemError,
    > {
        if !self.page_prot(addr as int / 4096).contains_spec(req) {
            Some(MemError::PageFault(self.page_prot(addr as int / 4096).missing_spec(req)))
        } else if overflows(addr, width) {
            Some(MemError::Overflow)
        } else {
            None
        }
    }
}

impl View for Mmu {
    type V = MmuView;

    closed spec fn view(&self) -> MmuView {
        MmuView { mem: self.mem@, prot: self.pages@ }
    }
}

impl Mmu {
    /// The invariant of the unit: 2^32 bytes, one mask per page, and a
    /// sound store.
    pub open spec fn wf(&self) -> bool {
        &&& self@.mem.len() == mem_size()
        &&& self@.prot.len() == PAGE_COUNT
        &&& self.store_wf()
    }

    /// The invariant of the store.
    pub closed spec fn store_wf(&self) -> bool {
        self.mem.wf()
    }

    /// The protection mask of page `page`.
    pub open spec fn page_prot(&self, page: int) -> Protection {
        self@.prot[page]
    }

    /// The bytes of the store, by address.
    pub open spec fn memory(&self) -> Seq<u8> {
        self@.mem
    }

    /// The first fault that a check of `range` for `req` meets, if any.
    pub open spec fn fault_in(&self, range: AddressRange, req: Protection) -> Option<Protection> {
        self@.fault_in(range, req)
    }

    /// What a checked access of `width` bytes at `addr` fails with, if it
    /// fails.
    pub open spec fn access_error(&self, addr: BitSize, width: nat, req: Protection) -> Option<
        MemError,
    > {
        self@.access_error(addr, width, req)
    }

    /// A unit with a store of zeros and no access to any page.
    pub fn new() -> (mmu: Mmu)
        ensures
            mmu.wf(),
            mmu@.mem == Seq::new(mem_size() as nat, |a: int| 0u8),
            mmu@.prot == Seq::new(
                PAGE_COUNT as nat,
                |p: int| (Protection { read: false, write: false, execute: false }),
            ),
    {
        let mut pages: Vec<Protection> = Vec::new();
        let mut i: usize = 0;
        while i < PAGE_COUNT
            invariant
                i <= PAGE_COUNT,
                pages@.len() == i,
                forall|p: int|
                    0 <= p < i ==> #[trigger] pages@[p] == (Protection {
                        read: false,
                        write: false,
                        execute: false,
                    }),
            decreases PAGE_COUNT - i,
        {
            pages.push(Protection::empty());
            i += 1;
        }
        let mmu = Mmu { pages, mem: Memory::new() };
        assert(mmu@.prot =~= Seq::new(
            PAGE_COUNT as nat,
            |p: int| (Protection { read: false, write: false, execute: false }),
        ));
        mmu
    }

    /// The protection mask of the page that holds `addr`.
    pub fn prot(&self, addr: BitSize) -> (r: Protection)
        requires
            self.wf(),
        ensures
            r == self.page_prot(addr as int / 4096),
    {
        let idx: usize = (addr / 4096) as usize;
        self.pages[idx]
    }

    /// Sets the mask of every page that holds an address of `range` to
    /// `prot`. The other pages and the store stay as they are.
    #[verifier::rlimit(30)]
    pub fn set_prot(&mut self, range: AddressRange, prot: Protection)
        requires
            old(self).wf(),
        ensures
            final(self).wf(),
            final(self)@.mem == old(self)@.mem,
            final(self)@.prot == Seq::new(
                PAGE_COUNT as nat,
                |p: int|
                    if range.covers_page(p) {
                        prot
                    } else {
                        old(self)@.prot[p]
                    },
            ),
    {
        if range.start > range.end {
            assert(self@.prot =~= Seq::new(
                PAGE_COUNT as nat,
                |p: int|
                    if range.covers_page(p) {
                        prot
                    } else {
                        old(self)@.prot[p]
                    },
            ));
            return ;
        }
        let first: usize = (range.start / 4096) as usize;
        let last: usize = (range.end / 4096) as usize;
        let mut p: usize = first;
        while p <= last
            invariant
                first <= p <= last + 1,
                last < PAGE_COUNT,
                self.pages@.len() == PAGE_COUNT,
                self.mem == old(self).mem,
                forall|q: int|
                    0 <= q < PAGE_COUNT ==> #[trigger] self.pages@[q] == if first <= q < p {
                        prot
                    } else {
                        old(self).pages@[q]
                    },
            decreases last + 1 - p,
        {
            self.pages[p] = prot;
            p += 1;
        }
        assert(self@.prot =~= Seq::new(
            PAGE_COUNT as nat,
            |p: int|
                if range.covers_page(p) {
                    prot
                } else {
                    old(self)@.prot[p]
                },
        ));
    }

    /// Checks that every page that holds an address of `range` gives all
    /// of `req`. Fails at the lowest page that does not, with the kinds of
    /// access that `req` asks and that page lacks.
    #[verifier::rlimit(30)]
    pub fn check_prot(&self, range: AddressRange, req: Protection) -> (r: Result<(), MemError>)
        requires
            self.wf(),
        ensures
            r == match self.fault_in(range, req) {
                None => Ok::<(), MemError>(()),
                Some(lack) => Err::<(), MemError>(MemError::PageFault(lack)),
            },
            r is Ok <==> forall|p: int|
                range.covers_page(p) ==> (#[trigger] self.page_prot(p)).contains_spec(req),
    {
        if range.start > range.end {
            return Ok(());
        }
        let first: usize = (range.start / 4096) as usize;
        let last: usize = (range.end / 4096) as usize;
        let mut p: usize = first;
        while p <= last
            invariant
                self.wf(),
                first <= p <= last + 1,
                last < PAGE_COUNT,
                range.well_formed(),
                first == range.first_page(),
                last == range.last_page(),
                self@.fault_from(first as int, last as int, req) == self@.fault_from(
                    p as int,
                    last as int,
                    req,
                ),
                forall|q: int| first <= q < p ==> (#[trigger] self.page_prot(q)).contains_spec(req),
            decreases last + 1 - p,
        {
            let record = self.pages[p];
            assert(record == self.page_prot(p as int));
            if !record.contains(req) {
                assert(range.covers_page(p as int));
                return Err(MemError::PageFault(record.missing(req)));
            }
            p += 1;
        }
        Ok(())
    }

    /// Copies `buf.len()` bytes out of the store, from `addr` on, with no
    /// protection check.
    pub fn memcpy(&self, addr: BitSize, buf: &mut Vec<u8>) -> (r: Result<(), MemError>)
        requires
            self.wf(),
        ensures
            final(buf)@.len() == old(buf)@.len(),
            overflows(addr, old(buf)@.len()) ==> r == Err::<(), MemError>(MemError::Overflow)
                && final(buf)@ == old(buf)@,
            !overflows(addr, old(buf)@.len()) ==> r == Ok::<(), MemError>(()) && final(buf)@
                == self.memory().subrange(addr as int, addr + old(buf)@.len()),
    {
        self.mem.memcpy(addr, buf)
    }

    /// Copies the bytes of `buf` into the store, from `addr` on, with no
    /// protection check.
    pub fn memwrite(&mut self, addr: BitSize, buf: &[u8]) -> (r: Result<(), MemError>)
        requires
            old(self).wf(),
        ensures
            final(self).wf(),
            final(self)@.prot == old(self)@.prot,
            overflows(addr, buf@.len()) ==> r == Err::<(), MemError>(MemError::Overflow)
                && final(self).memory() == old(self).memory(),
            !overflows(addr, buf@.len()) ==> r == Ok::<(), MemError>(()) && final(self).memory()
                == overwrite(old(self).memory(), addr as int, buf@),
    {
        self.mem.memwrite(addr, buf)
    }

    /// Reads the little-endian value at `addr`, with no protection check.
    pub fn read_unchecked<N: FromBytes>(&self, addr: BitSize) -> (r: Result<N, MemError>)
        requires
            self.wf(),
        ensures
            overflows(addr, N::width()) ==> r == Err::<N, MemError>(MemError::Overflow),
            !overflows(addr, N::width()) ==> r == Ok::<N, MemError>(
                N::from_le_spec(self.memory().subrange(addr as int, addr + N::width())),
            ),
    {
        self.mem.read(addr)
    }

    /// Writes `n` at `addr`, little-endian, with no protection check.
    pub fn write_unchecked<N: ToBytes>(&mut self, addr: BitSize, n: N) -> (r: Result<
        (),
        MemError,
    >)
        requires
            old(self).wf(),
        ensures
            final(self).wf(),
            final(self)@.prot == old(self)@.prot,
            overflows(addr, N::width()) ==> r == Err::<(), MemError>(MemError::Overflow)
                && final(self).memory() == old(self).memory(),
            !overflows(addr, N::width()) ==> r == Ok::<(), MemError>(()) && final(self).memory()
                == overwrite(old(self).memory(), addr as int, n.to_le_spec()),
    {
        self.mem.write(addr, n)
    }

    /// Reads the little-endian value at `addr`, where the page of `addr`
    /// can be read.
    pub fn read<N: FromBytes>(&self, addr: BitSize) -> (r: Result<N, MemError>)
        requires
            self.wf(),
        ensures
            r == match self.access_error(addr, N::width(), Protection::of_spec(Prot::Read)) {
                Some(e) => Err::<N, MemError>(e),
                None => Ok::<N, MemError>(
                    N::from_le_spec(self.memory().subrange(addr as int, addr + N::width())),
                ),
            },
    {
        let req = Protection::of(Prot::Read);
        let record = self.prot(addr);
        if !record.contains(req) {
            return Err(MemError::PageFault(record.missing(req)));
        }
        self.mem.read(addr)
    }

    /// Writes `n` at `addr`, little-endian, where the page of `addr` can
    /// be written. A failed write changes nothing.
    pub fn write<N: ToBytes>(&mut self, addr: BitSize, n: N) -> (r: Result<(), MemError>)
        requires
            old(self).wf(),
        ensures
            final(self).wf(),
            final(self)@.prot == old(self)@.prot,
            r == match old(self).access_error(addr, N::width(), Protection::of_spec(Prot::Write)) {
                Some(e) => Err::<(), MemError>(e),
                None => Ok::<(), MemError>(()),
            },
            r is Err ==> final(self).memory() == old(self).memory(),
            r is Ok ==> final(self).memory() == overwrite(
                old(self).memory(),
                addr as int,
                n.to_le_spec(),
            ),
    {
        let req = Protection::of(Prot::Write);
        let record = self.prot(addr);
        if !record.contains(req) {
            return Err(MemError::PageFault(record.missing(req)));
        }
        self.mem.write(addr, n)
    }

    /// Resets every byte of the store to zero. The masks stay.
    pub fn zeroize(&mut self)
        requires
            old(self).wf(),
        ensures
            final(self).wf(),
            final(self)@.prot == old(self)@.prot,
            final(self).memory() == Seq::new(mem_size() as nat, |a: int| 0u8),
    {
        self.mem.zeroize();
    }
}

/// A check of a range succeeds exactly where it meets no fault, and a
/// fault it meets is never empty: it names an access that was asked.
pub proof fn lemma_fault_names_missing(mmu: MmuView, page: int, last: int, req: Protection)
    ensures
        match mmu.fault_from(page, last, req) {
            Some(lack) => req.contains_spec(lack) && (lack.read || lack.write || lack.execute),
            None => forall|p: int|
                page <= p <= last ==> (#[trigger] mmu.page_prot(p)).contains_spec(req),
        },
    decreases last - page + 1,
{
    if page <= last && mmu.page_prot(page).contains_spec(req) {
        lemma_fault_names_missing(mmu, page + 1, last, req);
    }
}


/// Page protection: a checked write to a page that cannot be written
/// fails with a page fault that names write access; a checked read of a
/// page that can be read and written succeeds unless it runs past the last
/// address.
pub proof fn lemma_protection(mmu: MmuView, addr: BitSize, width: nat)
    ensures
        !mmu.page_prot(addr as int / 4096).write ==> mmu.access_error(
            addr,
            width,
            Protection::of_spec(Prot::Write),
        ) == Some(MemError::PageFault(Protection::of_spec(Prot::Write))),
        mmu.page_prot(addr as int / 4096).read && mmu.page_prot(addr as int / 4096).write
            && !overflows(addr, width) ==> mmu.access_error(
            addr,
            width,
            Protection::of_spec(Prot::Read),
        ) is None,
{
}

} // verus!
