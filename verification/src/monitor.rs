use vstd::prelude::*;
use vstd::std_specs::convert::FromSpecImpl;
use crate::mmu::memory::{FromBytes, overflows};
use crate::mmu::{MemError, Mmu};
use crate::registers::BitSize;

verus! {

/// The shape of the display: its width and height in pixels and its
/// refresh rate in frames per second.
#[derive(Copy, Clone, Debug, PartialEq, Eq, Structural)]
pub struct MonitorArgs {
    pub width: u16,
    pub height: u16,
    pub fps: u16,
}

impl MonitorArgs {
    /// The number of pixels of a frame.
    pub open spec fn pixels(self) -> nat {
        (self.width as int * self.height as int) as nat
    }
}

impl From<[u8; 6]> for MonitorArgs {
    fn from(value: [u8; 6]) -> (r: MonitorArgs) {
        let w0: u8 = value[0];
        let w1: u8 = value[1];
        let h0: u8 = value[2];
        let h1: u8 = value[3];
        let f0: u8 = value[4];
        let f1: u8 = value[5];
        MonitorArgs { width: pair_le(w0, w1), height: pair_le(h0, h1), fps: pair_le(f0, f1) }
    }
}

impl FromSpecImpl<[u8; 6]> for MonitorArgs {
    open spec fn obeys_from_spec() -> bool {
        true
    }

    /// Three 16-bit values, little-endian: width, height, rate.
    open spec fn from_spec(value: [u8; 6]) -> MonitorArgs {
        MonitorArgs {
            width: u16_from_le(value[0], value[1]),
            height: u16_from_le(value[2], value[3]),
            fps: u16_from_le(value[4], value[5]),
        }
    }
}

/// The 16-bit value whose little-endian bytes are `b0`, `b1`.
pub open spec fn u16_from_le(b0: u8, b1: u8) -> u16 {
    (b0 as int + b1 as int * 0x100) as u16
}

/// Puts two little-endian bytes together.
fn pair_le(b0: u8, b1: u8) -> (v: u16)
    ensures
        v == u16_from_le(b0, b1),
{
    assert((b0 as u16) | ((b1 as u16) << 8) == b0 as u16 + b1 as u16 * 0x100) by (bit_vector);
    (b0 as u16) | ((b1 as u16) << 8)
}

/// The display: a local copy of the frame that lies in memory at a base
/// address, refreshed on request.
#[derive(Debug)]
pub struct Monitor {
    args: MonitorArgs,
    base: BitSize,
    vram: Vec<u32>,
    running: bool,
}

impl Monitor {
    /// The invariant of the display: the local frame has one entry per
    /// pixel.
    pub closed spec fn wf(&self) -> bool {
        self.vram@.len() == self.args.pixels()
    }

    /// The shape of the display.
    pub closed spec fn args_spec(&self) -> MonitorArgs {
        self.args
    }

    /// The address of the first pixel.
    pub closed spec fn base_spec(&self) -> BitSize {
        self.base
    }

    /// The local frame, row by row.
    pub closed spec fn frame_spec(&self) -> Seq<u32> {
        self.vram@
    }

    /// Whether the display has not been stopped.
    pub closed spec fn running_spec(&self) -> bool {
        self.running
    }

    /// The pixel at index `i` of the frame that lies in `memory` at `base`.
    pub open spec fn pixel_at(memory: Seq<u8>, base: BitSize, i: int) -> u32 {
        <u32 as FromBytes>::from_le_spec(memory.subrange(base + 4 * i, base + 4 * i + 4))
    }

    /// A running display of shape `args` for the frame at `base`, its
    /// local frame black.
    pub fn new(base: BitSize, args: MonitorArgs) -> (m: Monitor)
        ensures
            m.wf(),
            m.args_spec() == args,
            m.base_spec() == base,
            m.running_spec(),
            m.frame_spec() == Seq::new(args.pixels(), |i: int| 0u32),
    {
        assert(0 <= args.width * args.height <= 0xffff * 0xffff) by (nonlinear_arith)
            requires
                0 <= args.width <= 0xffff,
                0 <= args.height <= 0xffff,
        ;
        let n: usize = (args.width as u32 * args.height as u32) as usize;
        let vram: Vec<u32> = vec![0u32; n];
        assert(vram@ =~= Seq::new(args.pixels(), |i: int| 0u32));
        Monitor { args, base, vram, running: true }
    }

    /// Copies the frame out of memory into the local frame, with no
    /// protection check. Fails with an overflow, and copies nothing, where
    /// the frame would run past the last address.
    pub fn draw(&mut self, mmu: &Mmu) -> (r: Result<(), MemError>)
        requires
            old(self).wf(),
            mmu.wf(),
        ensures
            final(self).wf(),
            final(self).args_spec() == old(self).args_spec(),
            final(self).base_spec() == old(self).base_spec(),
            final(self).running_spec() == old(self).running_spec(),
            overflows(old(self).base_spec(), 4 * old(self).args_spec().pixels()) ==> r == Err::<
                (),
                MemError,
            >(MemError::Overflow) && final(self).frame_spec() == old(self).frame_spec(),
            !overflows(old(self).base_spec(), 4 * old(self).args_spec().pixels()) ==> r == Ok::<
                (),
                MemError,
            >(()) && final(self).frame_spec() == Seq::new(
                old(self).args_spec().pixels(),
                |i: int| Monitor::pixel_at(mmu.memory(), old(self).base_spec(), i),
            ),
    {
        let n: usize = self.vram.len();
        if n == 0 {
            assert(self.vram@ =~= Seq::new(
                0,
                |i: int| Monitor::pixel_at(mmu.memory(), self.base, i),
            ));
            return Ok(());
        }
        assert(n <= 0xffff * 0xffff) by (nonlinear_arith)
            requires
                n == self.args.width * self.args.height,
                0 <= self.args.width <= 0xffff,
                0 <= self.args.height <= 0xffff,
        ;
        if 4 * (n as u64) - 1 > (BitSize::MAX - self.base) as u64 {
            return Err(MemError::Overflow);
        }
        let base = self.base;
        let mut i: usize = 0;
        while i < n
            invariant
                mmu.wf(),
                i <= n,
                n == self.vram@.len(),
                self.args == old(self).args,
                self.base == base,
                base == old(self).base,
                self.running == old(self).running,
                base + 4 * n - 1 <= BitSize::MAX,
                forall|j: int|
                    0 <= j < i ==> #[trigger] self.vram@[j] == Monitor::pixel_at(
                        mmu.memory(),
                        base,
                        j,
                    ),
            decreases n - i,
        {
            let addr: BitSize = base + 4 * (i as BitSize);
            match mmu.read_unchecked::<u32>(addr) {
                Ok(pixel) => {
                    self.vram[i] = pixel;
                },
                Err(_) => {},
            }
            i += 1;
        }
        assert(self.vram@ =~= Seq::new(
            self.args.pixels(),
            |i: int| Monitor::pixel_at(mmu.memory(), base, i),
        ));
        Ok(())
    }

    /// Moves the display to the frame at `base`. The local frame stays
    /// until the next draw.
    pub fn update(&mut self, base: BitSize)
        requires
            old(self).wf(),
        ensures
            final(self).wf(),
            final(self).base_spec() == base,
            final(self).args_spec() == old(self).args_spec(),
            final(self).frame_spec() == old(self).frame_spec(),
            final(self).running_spec() == old(self).running_spec(),
    {
        self.base = base;
    }

    /// Stops the display.
    pub fn stop(&mut self)
        requires
            old(self).wf(),
        ensures
            final(self).wf(),
            !final(self).running_spec(),
            final(self).base_spec() == old(self).base_spec(),
            final(self).args_spec() == old(self).args_spec(),
            final(self).frame_spec() == old(self).frame_spec(),
    {
        self.running = false;
    }

    /// Whether the display has not been stopped.
    pub fn is_running(&self) -> (r: bool)
        ensures
            r == self.running_spec(),
    {
        self.running
    }

    /// The shape of the display.
    pub fn args(&self) -> (r: MonitorArgs)
        ensures
            r == self.args_spec(),
    {
        self.args
    }

    /// The local frame, row by row.
    pub fn frame(&self) -> (r: &Vec<u32>)
        ensures
            r@ == self.frame_spec(),
    {
        &self.vram
    }
}

} // verus!
