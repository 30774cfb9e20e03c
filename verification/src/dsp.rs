//! The digital sound processor, seen from the coprocessor bus.
//!
//! Mixing is out of scope; what the core needs is the array of 256 registers
//! reached through the address/data window at 0xF2/0xF3.

use vstd::prelude::*;

verus! {

/// The DSP register file.
pub struct Dsp {
    regs: Vec<u8>,
}

impl View for Dsp {
    type V = Seq<u8>;

    closed spec fn view(&self) -> Seq<u8> {
        self.regs@
    }
}

impl Dsp {
    pub open spec fn wf(&self) -> bool {
        self@.len() == 256
    }

    pub fn new() -> (r: Dsp)
        ensures
            r.wf(),
            forall|i: int| 0 <= i < 256 ==> r@[i] == 0u8,
    {
        Dsp { regs: vec![0u8; 256] }
    }

    pub fn load(&self, reg: u8) -> (r: u8)
        requires
            self.wf(),
        ensures
            r == self@[reg as int],
    {
        self.regs[reg as usize]
    }

    /// An exact copy of the register file (for save states).
    pub fn duplicate(&self) -> (r: Dsp)
        requires
            self.wf(),
        ensures
            r.wf(),
            r@ == self@,
    {
        let regs = self.regs.clone();
        proof {
            assert forall|i: int| 0 <= i < self.regs@.len() implies regs@[i] == self.regs@[i] by {
            }
            assert(regs@ =~= self.regs@);
        }
        Dsp { regs }
    }

    pub fn store(&mut self, reg: u8, value: u8)
        requires
            old(self).wf(),
        ensures
            final(self).wf(),
            final(self)@ == old(self)@.update(reg as int, value),
    {
        self.regs[reg as usize] = value;
    }
}

} // verus!
