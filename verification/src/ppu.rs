//! The picture processor, seen from the coordinator.
//!
//! Rendering is out of scope; what the scheduler and the bus read is the
//! timing surface modeled here: the dot/scanline counters that one `update`
//! call advances by exactly one dot (four master cycles), the blanking
//! flags derived from them, and the register window at 0x2100-0x213F as
//! stored bytes.

use vstd::prelude::*;

verus! {

/// Dots per scanline.
pub const DOTS_PER_LINE: u16 = 340;

/// Scanlines per frame.
pub const LINES_PER_FRAME: u16 = 262;

/// Master cycles one dot takes.
pub const CYCLES_PER_DOT: u8 = 4;

/// First scanline of the vertical blanking period.
pub const VBLANK_START: u16 = 225;

/// First dot of the horizontal blanking period.
pub const HBLANK_START: u16 = 274;

/// Abstract state of the picture processor model.
#[verifier::ext_equal]
pub struct PpuView {
    /// Vertical counter (scanline), below `LINES_PER_FRAME`.
    pub v: u16,
    /// Horizontal counter (dot), below `DOTS_PER_LINE`.
    pub h: u16,
    /// The register window 0x2100-0x213F as stored bytes.
    pub regs: Seq<u8>,
    /// Whether reads of 0x2137 may latch the counters (wired to bit 7 of the
    /// I/O port at 0x4201).
    pub can_latch: bool,
}

/// The counters after one dot: H advances, wrapping into the next scanline,
/// which wraps into the next frame.
pub open spec fn spec_ppu_step(v: u16, h: u16) -> (u16, u16) {
    if h + 1 < DOTS_PER_LINE {
        (v, (h + 1) as u16)
    } else if v + 1 < LINES_PER_FRAME {
        ((v + 1) as u16, 0u16)
    } else {
        (0u16, 0u16)
    }
}

/// The picture processor model.
pub struct Ppu {
    v: u16,
    h: u16,
    regs: Vec<u8>,
    /// Whether reads of 0x2137 may latch the counters.
    pub can_latch_counters: bool,
}

impl View for Ppu {
    type V = PpuView;

    closed spec fn view(&self) -> PpuView {
        PpuView { v: self.v, h: self.h, regs: self.regs@, can_latch: self.can_latch_counters }
    }
}

impl Ppu {
    pub open spec fn wf(&self) -> bool {
        &&& self@.v < LINES_PER_FRAME
        &&& self@.h < DOTS_PER_LINE
        &&& self@.regs.len() == 64
    }

    /// A fresh picture processor at dot (0, 0) with a cleared register
    /// window.
    pub fn new() -> (r: Ppu)
        ensures
            r.wf(),
            r@.v == 0 && r@.h == 0,
            forall|i: int| 0 <= i < 64 ==> r@.regs[i] == 0u8,
            r@.can_latch == false,
    {
        Ppu { v: 0, h: 0, regs: vec![0u8; 64], can_latch_counters: false }
    }

    /// Advance one dot and return the master cycles it took.
    pub fn update(&mut self) -> (cy: u8)
        requires
            old(self).wf(),
        ensures
            final(self).wf(),
            cy == CYCLES_PER_DOT,
            (final(self)@.v, final(self)@.h) == spec_ppu_step(old(self)@.v, old(self)@.h),
            final(self)@.regs == old(self)@.regs,
            final(self)@.can_latch == old(self)@.can_latch,
    {
        if self.h + 1 < DOTS_PER_LINE {
            self.h = self.h + 1;
        } else if self.v + 1 < LINES_PER_FRAME {
            self.v = self.v + 1;
            self.h = 0;
        } else {
            self.v = 0;
            self.h = 0;
        }
        CYCLES_PER_DOT
    }

    /// Current scanline.
    pub fn v_counter(&self) -> (r: u16)
        ensures
            r == self@.v,
    {
        self.v
    }

    /// Current dot.
    pub fn h_counter(&self) -> (r: u16)
        ensures
            r == self@.h,
    {
        self.h
    }

    /// Whether the scanline is inside vertical blanking.
    pub fn in_v_blank(&self) -> (r: bool)
        ensures
            r == (self@.v >= VBLANK_START),
    {
        self.v >= VBLANK_START
    }

    /// Whether the dot is inside horizontal blanking.
    pub fn in_h_blank(&self) -> (r: bool)
        ensures
            r == (self@.h >= HBLANK_START),
    {
        self.h >= HBLANK_START
    }

    /// Read a byte of the register window (0x2100-0x213F).
    pub fn load(&self, addr: u16) -> (r: u8)
        requires
            self.wf(),
            0x2100 <= addr < 0x2140,
        ensures
            r == self@.regs[addr - 0x2100],
    {
        self.regs[(addr - 0x2100) as usize]
    }

    /// Write a byte of the register window (0x2100-0x213F).
    pub fn store(&mut self, addr: u16, value: u8)
        requires
            old(self).wf(),
            0x2100 <= addr < 0x2140,
        ensures
            final(self).wf(),
            final(self)@ == (PpuView {
                regs: old(self)@.regs.update(addr - 0x2100, value),
                ..old(self)@
            }),
    {
        self.regs[(addr - 0x2100) as usize] = value;
        proof {
            assert(self@ =~= (PpuView {
                regs: old(self)@.regs.update(addr - 0x2100, value),
                ..old(self)@
            }));
        }
    }

    /// Wire the counter-latch enable (bit 7 of the I/O port at 0x4201).
    pub fn set_can_latch(&mut self, v: bool)
        requires
            old(self).wf(),
        ensures
            final(self).wf(),
            final(self)@ == (PpuView { can_latch: v, ..old(self)@ }),
    {
        self.can_latch_counters = v;
        proof {
            assert(self@ =~= (PpuView { can_latch: v, ..old(self)@ }));
        }
    }

    /// An exact copy of the model state (for save states).
    pub fn duplicate(&self) -> (r: Ppu)
        requires
            self.wf(),
        ensures
            r.wf(),
            r@ == self@,
    {
        let regs = self.regs.clone();
        proof {
            assert forall|i: int| 0 <= i < self.regs@.len() implies regs@[i] == self.regs@[i] by {
            }
            assert(regs@ =~= self.regs@);
        }
        Ppu { v: self.v, h: self.h, regs, can_latch_counters: self.can_latch_counters }
    }
}

} // verus!
