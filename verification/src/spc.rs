//! The audio coprocessor: an 8-bit CPU with 64 KiB of RAM, three programmable
//! timers, a DSP register window and a four-byte mailbox to the main CPU.
//!
//! `dispatch` fetches, decodes and executes one instruction, returns the
//! cycle count consumed and advances the timers by it. Every operation is
//! specified against the functional model in `spc_model` and `op_model`.

use vstd::prelude::*;

use crate::addressing::AddressingMode;
use crate::dsp::Dsp;
use crate::spc_model::SpcView;
use crate::spc_model::spec_am_addr_post;
use crate::spc_model::spec_as_i8;
use crate::spc_model::spec_am_addr_val;
use crate::spc_model::spec_am_loadb_post;
use crate::spc_model::spec_am_loadb_val;
use crate::spc_model::spec_am_loadw_hi;
use crate::spc_model::spec_am_loadw_lo;
use crate::spc_model::spec_am_loadw_post;
use crate::spc_model::spec_am_storeb;
use crate::spc_model::spec_am_storeb_fault;
use crate::spc_model::spec_direct_base;
use crate::spc_model::spec_fetchb_post;
use crate::spc_model::spec_fetchb_val;
use crate::spc_model::spec_fetchw_post;
use crate::spc_model::spec_fetchw_val;
use crate::spc_model::spec_load_post;
use crate::spc_model::spec_load_val;
use crate::spc_model::spec_loadw_post;
use crate::spc_model::spec_loadw_val;
use crate::spc_model::spec_popb_post;
use crate::spc_model::spec_popb_val;
use crate::spc_model::spec_popw_post;
use crate::spc_model::spec_popw_val;
use crate::spc_model::spec_pushb;
use crate::spc_model::spec_pushw;
use crate::spc_model::spec_store;
use crate::spc_model::spec_store_fault;
use crate::spc_model::spec_wf;
use crate::spc_model::spec_word;
use crate::op_model::spec_adc;
use crate::op_model::spec_asl;
use crate::op_model::spec_base_cycles;
use crate::op_model::spec_implemented;
use crate::op_model::spec_bbc;
use crate::op_model::spec_bcc;
use crate::op_model::spec_bcs;
use crate::op_model::spec_beq;
use crate::op_model::spec_bmi;
use crate::op_model::spec_bne;
use crate::op_model::spec_bpl;
use crate::op_model::spec_bra;
use crate::op_model::spec_call;
use crate::op_model::spec_cbne;
use crate::op_model::spec_clrc;
use crate::op_model::spec_clrp;
use crate::op_model::spec_cmp;
use crate::op_model::spec_dbnz;
use crate::op_model::spec_dec;
use crate::op_model::spec_inc;
use crate::op_model::spec_logic;
use crate::op_model::spec_lsr;
use crate::op_model::spec_mov;
use crate::op_model::spec_mov_sp_x;
use crate::op_model::spec_mov_xinc;
use crate::op_model::spec_movw_l;
use crate::op_model::spec_movw_s;
use crate::op_model::spec_mul;
use crate::op_model::spec_notc;
use crate::op_model::spec_pop;
use crate::op_model::spec_push;
use crate::op_model::spec_ret;
use crate::op_model::spec_ror;
use crate::op_model::spec_set1;
use crate::op_model::spec_setc;
use crate::op_model::spec_tick_timers;
use crate::exec_model::spec_exec_op;
use crate::exec_model::spec_with_cy;
use crate::status::StatusReg;
use crate::timer::Timer;

verus! {

/// A fatal emulation error of the audio coprocessor.
#[derive(Clone, Copy, PartialEq, Eq, Structural, Debug)]
pub enum Fault {
    /// An opcode outside the implemented table was fetched.
    IllegalOpcode { op: u8 },
    /// A value other than 0x0A was stored to the test register at 0xF0.
    TestRegister { value: u8 },
}

/// The audio coprocessor core.
pub struct Spc700 {
    /// 64 KiB of RAM (not the address space, although both are 64 KiB: the
    /// I/O registers shadow 0xF0-0xFF on loads and stores).
    mem: Vec<u8>,
    /// 0xF2 - DSP address latch (0xF3 is the data window).
    reg_dsp_addr: u8,
    /// Bytes the main CPU wrote into ports 0-3; the coprocessor reads them at
    /// 0xF4-0xF7, while its own stores to those addresses land in RAM.
    io_vals: [u8; 4],
    timer0: Timer,
    timer1: Timer,
    timer2: Timer,
    dsp: Dsp,
    a: u8,
    x: u8,
    y: u8,
    sp: u8,
    pc: u16,
    psw: StatusReg,
    /// Cycles consumed by the instruction currently dispatched.
    cy: u8,
    /// Diagnostic flag a frontend may set; the core never reads it.
    pub trace: bool,
}

impl View for Spc700 {
    type V = SpcView;

    closed spec fn view(&self) -> SpcView {
        SpcView {
            mem: self.mem@,
            dsp_addr: self.reg_dsp_addr,
            io_vals: self.io_vals@,
            dsp: self.dsp@,
            t0: self.timer0,
            t1: self.timer1,
            t2: self.timer2,
            a: self.a,
            x: self.x,
            y: self.y,
            sp: self.sp,
            pc: self.pc,
            psw: self.psw.0,
            cy: self.cy,
        }
    }
}

impl Spc700 {
    pub open spec fn wf(&self) -> bool {
        spec_wf(self@)
    }

    /// Build a fresh core: the 64-byte IPL boot image occupies the top of
    /// RAM, the rest is zero, all registers are zero, and the program counter
    /// is latched from the little-endian reset vector at 0xFFFE/0xFFFF.
    pub fn new(ipl_boot: &[u8; 64]) -> (r: Spc700)
        ensures
            r.wf(),
            forall|i: int| 0 <= i < 0xFFC0 ==> r@.mem[i] == 0u8,
            forall|i: int| 0xFFC0 <= i < 0x10000 ==> r@.mem[i] == ipl_boot@[i - 0xFFC0],
            r@.pc == spec_word(r@.mem[0xFFFE], r@.mem[0xFFFF]),
            r@.a == 0 && r@.x == 0 && r@.y == 0 && r@.sp == 0 && r@.psw == 0 && r@.cy == 0,
            r@.dsp_addr == 0,
            forall|i: int| 0 <= i < 4 ==> r@.io_vals[i] == 0u8,
            forall|i: int| 0 <= i < 256 ==> r@.dsp[i] == 0u8,
            r@.t0 == (Timer { val: 0, div: 0, enabled: false, stage: 0, acc: 0 }),
            r@.t1 == r@.t0 && r@.t2 == r@.t0,
    {
        let mut mem: Vec<u8> = vec![0u8; 65536];
        let mut i: usize = 0;
        while i < 64
            invariant
                mem@.len() == 65536,
                i <= 64,
                forall|j: int| 0 <= j < 0xFFC0 ==> mem@[j] == 0u8,
                forall|j: int| 0xFFC0 <= j < 0xFFC0 + i ==> mem@[j] == ipl_boot@[j - 0xFFC0],
                forall|j: int| 0xFFC0 + i <= j < 0x10000 ==> mem@[j] == 0u8,
            decreases 64 - i,
        {
            mem[0xFFC0 + i] = ipl_boot[i];
            i = i + 1;
        }
        let pcl = mem[0xFFFE] as u16;
        let pch = mem[0xFFFF] as u16;
        let pc = (pch << 8) | pcl;
        Spc700 {
            mem,
            reg_dsp_addr: 0,
            io_vals: [0, 0, 0, 0],
            timer0: Timer::new(),
            timer1: Timer::new(),
            timer2: Timer::new(),
            dsp: Dsp::new(),
            a: 0,
            x: 0,
            y: 0,
            sp: 0,
            pc,
            psw: StatusReg(0),
            cy: 0,
            trace: false,
        }
    }

    /// Store a byte into an inbound I/O port (0-3); this is how the main
    /// CPU's stores to 0x2140-0x217F reach the coprocessor.
    pub fn store_port(&mut self, port: u8, value: u8)
        requires
            old(self).wf(),
            port < 4,
        ensures
            final(self).wf(),
            final(self)@ == (SpcView {
                io_vals: old(self)@.io_vals.update(port as int, value),
                ..old(self)@
            }),
    {
        self.io_vals[port as usize] = value;
        proof {
            assert(self@ =~= (SpcView {
                io_vals: old(self)@.io_vals.update(port as int, value),
                ..old(self)@
            }));
        }
    }

    /// Load a byte from an outbound I/O port (0-3): the main CPU reads the
    /// RAM bytes 0xF4-0xF7 the coprocessor stored.
    pub fn read_port(&mut self, port: u8) -> (r: u8)
        requires
            old(self).wf(),
            port < 4,
        ensures
            final(self).wf(),
            *final(self) == *old(self),
            r == old(self)@.mem[0xF4 + port],
    {
        self.mem[0xF4 + port as usize]
    }

    /// One load through the coprocessor's address space.
    pub fn load(&mut self, addr: u16) -> (r: u8)
        requires
            old(self).wf(),
        ensures
            final(self).wf(),
            r == spec_load_val(old(self)@, addr),
            final(self)@ == spec_load_post(old(self)@, addr),
    {
        if addr == 0xF0 || addr == 0xF1 || (0xFA <= addr && addr <= 0xFC) {
            // Hardware leaves reads of the write-only registers undefined;
            // this core returns 0.
            0
        } else if addr == 0xF2 {
            self.reg_dsp_addr
        } else if addr == 0xF3 {
            self.dsp.load(self.reg_dsp_addr)
        } else if 0xF4 <= addr && addr <= 0xF7 {
            self.io_vals[(addr - 0xF4) as usize]
        } else if addr == 0xFD {
            let v = self.timer0.val;
            self.timer0.val = 0;
            proof {
                assert(self@ =~= spec_load_post(old(self)@, addr));
            }
            v
        } else if addr == 0xFE {
            let v = self.timer1.val;
            self.timer1.val = 0;
            proof {
                assert(self@ =~= spec_load_post(old(self)@, addr));
            }
            v
        } else if addr == 0xFF {
            let v = self.timer2.val;
            self.timer2.val = 0;
            proof {
                assert(self@ =~= spec_load_post(old(self)@, addr));
            }
            v
        } else {
            // 0xF8 and 0xF9 behave like plain RAM.
            self.mem[addr as usize]
        }
    }

    /// One store through the coprocessor's address space. The only fault is
    /// a store of anything but 0x0A to the test register at 0xF0.
    pub fn store(&mut self, addr: u16, val: u8) -> (r: Result<(), Fault>)
        requires
            old(self).wf(),
        ensures
            final(self).wf(),
            r is Err <==> spec_store_fault(addr, val),
            r is Ok ==> final(self)@ == spec_store(old(self)@, addr, val),
            r is Err ==> *final(self) == *old(self) && r == Err::<(), Fault>(
                Fault::TestRegister { value: val },
            ),
    {
        if addr == 0xF0 {
            if val == 0x0A {
                Ok(())
            } else {
                Err(Fault::TestRegister { value: val })
            }
        } else if addr == 0xF1 {
            self.timer0.set_enable(val & 0x01 != 0);
            self.timer1.set_enable(val & 0x02 != 0);
            self.timer2.set_enable(val & 0x04 != 0);
            if val & 0x10 != 0 {
                self.io_vals[0] = 0;
                self.io_vals[1] = 0;
            }
            if val & 0x20 != 0 {
                self.io_vals[2] = 0;
                self.io_vals[3] = 0;
            }
            proof {
                assert(self@ =~= spec_store(old(self)@, addr, val));
            }
            Ok(())
        } else if addr == 0xF2 {
            self.reg_dsp_addr = val;
            Ok(())
        } else if addr == 0xF3 {
            self.dsp.store(self.reg_dsp_addr, val);
            proof {
                assert(self@ =~= spec_store(old(self)@, addr, val));
            }
            Ok(())
        } else if addr == 0xFA {
            self.timer0.div = val;
            Ok(())
        } else if addr == 0xFB {
            self.timer1.div = val;
            Ok(())
        } else if addr == 0xFC {
            self.timer2.div = val;
            Ok(())
        } else if 0xFD <= addr && addr <= 0xFF {
            // The timer outputs are read-only; the store is ignored.
            Ok(())
        } else {
            // Everything else, including 0xF4-0xF9, goes to RAM.
            self.mem[addr as usize] = val;
            proof {
                assert(self@ =~= spec_store(old(self)@, addr, val));
            }
            Ok(())
        }
    }

    /// Little-endian word load.
    pub fn loadw(&mut self, addr: u16) -> (r: u16)
        requires
            old(self).wf(),
        ensures
            final(self).wf(),
            r == spec_loadw_val(old(self)@, addr),
            final(self)@ == spec_loadw_post(old(self)@, addr),
    {
        let lo = self.load(addr) as u16;
        let hi = self.load(addr.wrapping_add(1)) as u16;
        (hi << 8) | lo
    }

    /// Fetch the byte at the program counter and advance it.
    fn fetchb(&mut self) -> (r: u8)
        requires
            old(self).wf(),
        ensures
            final(self).wf(),
            r == spec_fetchb_val(old(self)@),
            final(self)@ == spec_fetchb_post(old(self)@),
    {
        let pc = self.pc;
        self.pc = self.pc.wrapping_add(1);
        let r = self.load(pc);
        proof {
            assert(self@ =~= spec_fetchb_post(old(self)@));
        }
        r
    }

    /// Fetch a little-endian word at the program counter.
    fn fetchw(&mut self) -> (r: u16)
        requires
            old(self).wf(),
        ensures
            final(self).wf(),
            r == spec_fetchw_val(old(self)@),
            final(self)@ == spec_fetchw_post(old(self)@),
    {
        let lo = self.fetchb() as u16;
        let hi = self.fetchb() as u16;
        (hi << 8) | lo
    }

    /// Push one byte onto the page-1 stack; SP decrements after the store
    /// (wrapping, as the hardware stack does).
    fn pushb(&mut self, b: u8)
        requires
            old(self).wf(),
        ensures
            final(self).wf(),
            final(self)@ == spec_pushb(old(self)@, b),
            final(self).cy_val() == old(self).cy_val(),
    {
        let sp = 0x0100 | (self.sp as u16);
        proof {
            // The stack lives in page 1, so a push can never hit the test
            // register at 0xF0.
            assert(forall|v: u16| (0x0100u16 | v) != 0xF0u16) by (bit_vector);
        }
        let r = self.store(sp, b);
        proof {
            assert(r is Ok);
        }
        self.sp = self.sp.wrapping_sub(1);
    }

    /// Push a word: high byte first, then the low byte.
    fn pushw(&mut self, w: u16)
        requires
            old(self).wf(),
        ensures
            final(self).wf(),
            final(self)@ == spec_pushw(old(self)@, w),
            final(self).cy_val() == old(self).cy_val(),
    {
        let lo = (w & 0xFF) as u8;
        let hi = ((w >> 8) & 0xFF) as u8;
        self.pushb(hi);
        self.pushb(lo);
    }

    /// Pop one byte: SP increments before the load.
    fn popb(&mut self) -> (r: u8)
        requires
            old(self).wf(),
        ensures
            final(self).wf(),
            r == spec_popb_val(old(self)@),
            final(self)@ == spec_popb_post(old(self)@),
            final(self).cy_val() == old(self).cy_val(),
    {
        self.sp = self.sp.wrapping_add(1);
        let sp = 0x0100 | (self.sp as u16);
        let r = self.load(sp);
        proof {
            assert(self@ =~= spec_popb_post(old(self)@));
        }
        r
    }

    /// Pop a word: low byte first, then the high byte.
    fn popw(&mut self) -> (r: u16)
        requires
            old(self).wf(),
        ensures
            final(self).wf(),
            r == spec_popw_val(old(self)@),
            final(self)@ == spec_popw_post(old(self)@),
            final(self).cy_val() == old(self).cy_val(),
    {
        let lo = self.popb() as u16;
        let hi = self.popb() as u16;
        (hi << 8) | lo
    }

    /// The cycle counter of the instruction currently dispatched (spec-level
    /// helper for contracts that track the +2 charge of taken branches).
    pub open spec fn cy_val(&self) -> u8 {
        self@.cy
    }

    /// Current program counter.
    pub fn pc(&self) -> (r: u16)
        ensures
            r == self@.pc,
    {
        self.pc
    }

    /// Current accumulator.
    pub fn reg_a(&self) -> (r: u8)
        ensures
            r == self@.a,
    {
        self.a
    }

    /// Current X index register.
    pub fn reg_x(&self) -> (r: u8)
        ensures
            r == self@.x,
    {
        self.x
    }

    /// Current Y index register.
    pub fn reg_y(&self) -> (r: u8)
        ensures
            r == self@.y,
    {
        self.y
    }

    /// Current stack pointer.
    pub fn reg_sp(&self) -> (r: u8)
        ensures
            r == self@.sp,
    {
        self.sp
    }

    /// Current status word.
    pub fn reg_psw(&self) -> (r: u8)
        ensures
            r == self@.psw,
    {
        self.psw.0
    }

    /// An exact copy of the core state (for save states).
    pub fn duplicate(&self) -> (r: Spc700)
        requires
            self.wf(),
        ensures
            r.wf(),
            r@ == self@,
    {
        let mem = self.mem.clone();
        proof {
            assert forall|i: int| 0 <= i < self.mem@.len() implies mem@[i] == self.mem@[i] by {}
            assert(mem@ =~= self.mem@);
        }
        let r = Spc700 {
            mem,
            reg_dsp_addr: self.reg_dsp_addr,
            io_vals: self.io_vals,
            timer0: self.timer0,
            timer1: self.timer1,
            timer2: self.timer2,
            dsp: self.dsp.duplicate(),
            a: self.a,
            x: self.x,
            y: self.y,
            sp: self.sp,
            pc: self.pc,
            psw: StatusReg(self.psw.0),
            cy: self.cy,
            trace: self.trace,
        };
        proof {
            assert(r@ =~= self@);
        }
        r
    }
}

/// Low byte of a word.
fn lo8(w: u16) -> (r: u8)
    ensures
        r == (w & 0xFF) as u8,
{
    proof {
        assert(w & 0xFF <= 0xFF) by (bit_vector);
    }
    (w & 0xFF) as u8
}

/// High byte of a word.
fn hi8(w: u16) -> (r: u8)
    ensures
        r == ((w >> 8) & 0xFF) as u8,
{
    proof {
        assert((w >> 8) & 0xFF <= 0xFF) by (bit_vector);
    }
    ((w >> 8) & 0xFF) as u8
}

// Addressing-mode construction: each constructor fetches the mode's operand
// bytes from the instruction stream.
impl Spc700 {
    fn direct_base(&self) -> (r: u16)
        ensures
            r == spec_direct_base(self@),
    {
        if self.psw.direct_page() {
            0x0100
        } else {
            0
        }
    }

    fn direct(&mut self) -> (r: AddressingMode)
        requires
            old(self).wf(),
        ensures
            final(self).wf(),
            final(self)@ == spec_fetchb_post(old(self)@),
            r == AddressingMode::Direct(spec_fetchb_val(old(self)@)),
    {
        AddressingMode::Direct(self.fetchb())
    }

    fn indirect_x(&mut self) -> (r: AddressingMode)
        requires
            old(self).wf(),
        ensures
            final(self).wf(),
            *final(self) == *old(self),
            r == AddressingMode::IndirectX,
    {
        AddressingMode::IndirectX
    }

    fn indirect_indexed(&mut self) -> (r: AddressingMode)
        requires
            old(self).wf(),
        ensures
            final(self).wf(),
            final(self)@ == spec_fetchb_post(old(self)@),
            r == AddressingMode::IndirectIndexed(spec_fetchb_val(old(self)@)),
    {
        AddressingMode::IndirectIndexed(self.fetchb())
    }

    fn indexed_indirect(&mut self) -> (r: AddressingMode)
        requires
            old(self).wf(),
        ensures
            final(self).wf(),
            final(self)@ == spec_fetchb_post(old(self)@),
            r == AddressingMode::IndexedIndirect(spec_fetchb_val(old(self)@)),
    {
        AddressingMode::IndexedIndirect(self.fetchb())
    }

    fn abs_indexed_indirect(&mut self) -> (r: AddressingMode)
        requires
            old(self).wf(),
        ensures
            final(self).wf(),
            final(self)@ == spec_fetchw_post(old(self)@),
            r == AddressingMode::AbsIndexedIndirect(spec_fetchw_val(old(self)@)),
    {
        AddressingMode::AbsIndexedIndirect(self.fetchw())
    }

    fn abs(&mut self) -> (r: AddressingMode)
        requires
            old(self).wf(),
        ensures
            final(self).wf(),
            final(self)@ == spec_fetchw_post(old(self)@),
            r == AddressingMode::Abs(spec_fetchw_val(old(self)@)),
    {
        AddressingMode::Abs(self.fetchw())
    }

    fn abs_indexed_x(&mut self) -> (r: AddressingMode)
        requires
            old(self).wf(),
        ensures
            final(self).wf(),
            final(self)@ == spec_fetchw_post(old(self)@),
            r == AddressingMode::AbsIndexedX(spec_fetchw_val(old(self)@)),
    {
        AddressingMode::AbsIndexedX(self.fetchw())
    }

    fn abs_indexed_y(&mut self) -> (r: AddressingMode)
        requires
            old(self).wf(),
        ensures
            final(self).wf(),
            final(self)@ == spec_fetchw_post(old(self)@),
            r == AddressingMode::AbsIndexedY(spec_fetchw_val(old(self)@)),
    {
        AddressingMode::AbsIndexedY(self.fetchw())
    }

    fn immediate(&mut self) -> (r: AddressingMode)
        requires
            old(self).wf(),
        ensures
            final(self).wf(),
            final(self)@ == spec_fetchb_post(old(self)@),
            r == AddressingMode::Immediate(spec_fetchb_val(old(self)@)),
    {
        AddressingMode::Immediate(self.fetchb())
    }

    fn rel(&mut self) -> (r: AddressingMode)
        requires
            old(self).wf(),
        ensures
            final(self).wf(),
            final(self)@ == spec_fetchb_post(old(self)@),
            r == AddressingMode::Rel(spec_as_i8(spec_fetchb_val(old(self)@))),
    {
        let b = self.fetchb();
        let off: i8 = if b < 128 {
            b as i8
        } else {
            ((b as i16) - 256) as i8
        };
        AddressingMode::Rel(off)
    }

    fn a(&mut self) -> (r: AddressingMode)
        requires
            old(self).wf(),
        ensures
            final(self).wf(),
            *final(self) == *old(self),
            r == AddressingMode::A,
    {
        AddressingMode::A
    }

    fn x(&mut self) -> (r: AddressingMode)
        requires
            old(self).wf(),
        ensures
            final(self).wf(),
            *final(self) == *old(self),
            r == AddressingMode::X,
    {
        AddressingMode::X
    }

    fn y(&mut self) -> (r: AddressingMode)
        requires
            old(self).wf(),
        ensures
            final(self).wf(),
            *final(self) == *old(self),
            r == AddressingMode::Y,
    {
        AddressingMode::Y
    }
}

// Loads, stores and effective addresses through an addressing mode.
impl Spc700 {
    /// Effective address of the mode (0 for the modes that have none).
    fn am_address(&mut self, am: AddressingMode) -> (r: u16)
        requires
            old(self).wf(),
        ensures
            final(self).wf(),
            r == spec_am_addr_val(old(self)@, am),
            final(self)@ == spec_am_addr_post(old(self)@, am),
    {
        match am {
            AddressingMode::Direct(d) => self.direct_base() | (d as u16),
            AddressingMode::IndirectX => self.direct_base() | (self.x as u16),
            AddressingMode::IndirectIndexed(d) => {
                let base = self.direct_base() | (d as u16);
                let w = self.loadw(base);
                w.wrapping_add(self.y as u16)
            },
            AddressingMode::IndexedIndirect(d) => {
                let base = self.direct_base() | (d.wrapping_add(self.x) as u16);
                self.loadw(base)
            },
            AddressingMode::AbsIndexedIndirect(w) => {
                let base = w.wrapping_add(self.x as u16);
                self.loadw(base)
            },
            AddressingMode::Abs(w) => w,
            AddressingMode::AbsIndexedX(w) => w.wrapping_add(self.x as u16),
            AddressingMode::AbsIndexedY(w) => w.wrapping_add(self.y as u16),
            AddressingMode::Rel(i) => self.pc.wrapping_add_signed(i as i16),
            AddressingMode::Immediate(_) => 0,
            AddressingMode::A => 0,
            AddressingMode::X => 0,
            AddressingMode::Y => 0,
        }
    }

    /// Load a byte through the mode.
    fn am_loadb(&mut self, am: AddressingMode) -> (r: u8)
        requires
            old(self).wf(),
        ensures
            final(self).wf(),
            r == spec_am_loadb_val(old(self)@, am),
            final(self)@ == spec_am_loadb_post(old(self)@, am),
    {
        match am {
            AddressingMode::A => self.a,
            AddressingMode::X => self.x,
            AddressingMode::Y => self.y,
            AddressingMode::Immediate(b) => b,
            _ => {
                let addr = self.am_address(am);
                self.load(addr)
            },
        }
    }

    /// Store a byte through the mode. A store into a register refreshes N
    /// and Z from the value; a store into memory sets no flags.
    fn am_storeb(&mut self, am: AddressingMode, val: u8) -> (r: Result<(), Fault>)
        requires
            old(self).wf(),
        ensures
            final(self).wf(),
            r is Err <==> spec_am_storeb_fault(old(self)@, am, val),
            r matches Err(f) ==> f is TestRegister,
            r is Ok ==> final(self)@ == spec_am_storeb(old(self)@, am, val),
    {
        match am {
            AddressingMode::A => {
                let v = self.psw.set_nz(val);
                self.a = v;
                Ok(())
            },
            AddressingMode::X => {
                let v = self.psw.set_nz(val);
                self.x = v;
                Ok(())
            },
            AddressingMode::Y => {
                let v = self.psw.set_nz(val);
                self.y = v;
                Ok(())
            },
            AddressingMode::Immediate(_) => Ok(()),
            _ => {
                let addr = self.am_address(am);
                self.store(addr, val)
            },
        }
    }

    /// Load a little-endian word through the mode; returns (low, high).
    fn am_loadw(&mut self, am: AddressingMode) -> (r: (u8, u8))
        requires
            old(self).wf(),
        ensures
            final(self).wf(),
            r.0 == spec_am_loadw_lo(old(self)@, am),
            r.1 == spec_am_loadw_hi(old(self)@, am),
            final(self)@ == spec_am_loadw_post(old(self)@, am),
    {
        let addr = self.am_address(am);
        let lo = self.load(addr);
        let hi = self.load(addr.wrapping_add(1));
        (lo, hi)
    }
}

// Instruction implementations. Each is specified against its transition
// function in `op_model`; the ones that can store through a computed address
// can hit the fault of the test register at 0xF0 and return a `Result`.
impl Spc700 {
    /// Push the operand byte.
    pub fn push(&mut self, am: AddressingMode)
        requires
            old(self).wf(),
        ensures
            final(self).wf(),
            final(self)@ == spec_push(old(self)@, am),
    {
        let v = self.am_loadb(am);
        self.pushb(v);
    }

    /// Pop a byte into the destination.
    pub fn pop(&mut self, dest: AddressingMode) -> (r: Result<(), Fault>)
        requires
            old(self).wf(),
        ensures
            final(self).wf(),
            r is Err <==> spec_pop(old(self)@, dest).1,
            r matches Err(f) ==> f is TestRegister,
            r is Ok ==> final(self)@ == spec_pop(old(self)@, dest).0,
    {
        let v = self.popb();
        self.am_storeb(dest, v)
    }

    /// Return: pop the program counter.
    pub fn ret(&mut self)
        requires
            old(self).wf(),
        ensures
            final(self).wf(),
            final(self)@ == spec_ret(old(self)@),
    {
        let pc = self.popw();
        self.pc = pc;
        proof {
            assert(self@ =~= spec_ret(old(self)@));
        }
    }

    /// Push the return address (high byte first) and jump to `addr`.
    fn call_addr(&mut self, addr: u16)
        requires
            old(self).wf(),
        ensures
            final(self).wf(),
            final(self)@ == (SpcView { pc: addr, ..spec_pushw(old(self)@, old(self)@.pc) }),
    {
        let pc = self.pc;
        self.pushw(pc);
        self.pc = addr;
        proof {
            assert(self@ =~= (SpcView { pc: addr, ..spec_pushw(old(self)@, old(self)@.pc) }));
        }
    }

    /// Call the effective address of the mode.
    pub fn call(&mut self, am: AddressingMode)
        requires
            old(self).wf(),
        ensures
            final(self).wf(),
            final(self)@ == spec_call(old(self)@, am),
    {
        let addr = self.am_address(am);
        self.call_addr(addr);
        proof {
            assert(self@ =~= spec_call(old(self)@, am));
        }
    }

    /// Clear the direct-page flag.
    pub fn clrp(&mut self)
        requires
            old(self).wf(),
        ensures
            final(self).wf(),
            final(self)@ == spec_clrp(old(self)@),
    {
        self.psw.set_direct_page(false);
        proof {
            assert(self@ =~= spec_clrp(old(self)@));
        }
    }

    /// Clear carry.
    pub fn clrc(&mut self)
        requires
            old(self).wf(),
        ensures
            final(self).wf(),
            final(self)@ == spec_clrc(old(self)@),
    {
        self.psw.set_carry(false);
        proof {
            assert(self@ =~= spec_clrc(old(self)@));
        }
    }

    /// Set carry.
    pub fn setc(&mut self)
        requires
            old(self).wf(),
        ensures
            final(self).wf(),
            final(self)@ == spec_setc(old(self)@),
    {
        self.psw.set_carry(true);
        proof {
            assert(self@ =~= spec_setc(old(self)@));
        }
    }

    /// Complement carry.
    pub fn notc(&mut self)
        requires
            old(self).wf(),
        ensures
            final(self).wf(),
            final(self)@ == spec_notc(old(self)@),
    {
        let c = self.psw.carry();
        self.psw.set_carry(!c);
        proof {
            assert(self@ =~= spec_notc(old(self)@));
        }
    }

    /// Compare: N and Z follow the wrapped difference, and C takes bit 7 of
    /// the difference (a deliberate quirk of this core's comparison).
    pub fn cmp(&mut self, a: AddressingMode, b: AddressingMode)
        requires
            old(self).wf(),
        ensures
            final(self).wf(),
            final(self)@ == spec_cmp(old(self)@, a, b),
    {
        let av = self.am_loadb(a);
        let bv = self.am_loadb(b);
        let diff = av.wrapping_sub(bv);
        let _ = self.psw.set_nz(diff);
        self.psw.set_carry(diff & 0x80 != 0);
        proof {
            assert(self@ =~= spec_cmp(old(self)@, a, b));
        }
    }

    /// Set one bit of the operand; no flags.
    pub fn set1(&mut self, bit: u8, am: AddressingMode) -> (r: Result<(), Fault>)
        requires
            old(self).wf(),
            bit < 8,
        ensures
            final(self).wf(),
            r is Err <==> spec_set1(old(self)@, bit, am).1,
            r matches Err(f) ==> f is TestRegister,
            r is Ok ==> final(self)@ == spec_set1(old(self)@, bit, am).0,
    {
        let v = self.am_loadb(am);
        let res = v | (1u8 << bit);
        self.am_storeb(am, res)
    }

    /// Branch when the selected bit of the operand is set, charging the two
    /// extra cycles of a taken branch.
    pub fn bbc(&mut self, bit: u8, valam: AddressingMode, addram: AddressingMode)
        requires
            old(self).wf(),
            bit < 8,
            old(self)@.cy <= 200,
        ensures
            final(self).wf(),
            final(self)@ == spec_bbc(old(self)@, bit, valam, addram),
    {
        let v = self.am_loadb(valam);
        let addr = self.am_address(addram);
        if v & (1u8 << bit) != 0 {
            self.pc = addr;
            self.cy = self.cy + 2;
        }
        proof {
            assert(self@ =~= spec_bbc(old(self)@, bit, valam, addram));
        }
    }

    /// Decrement the operand and branch when the result is zero (the source
    /// semantics of this core).
    pub fn dbnz(&mut self, valam: AddressingMode, addram: AddressingMode) -> (r: Result<
        (),
        Fault,
    >)
        requires
            old(self).wf(),
            old(self)@.cy <= 200,
        ensures
            final(self).wf(),
            r is Err <==> spec_dbnz(old(self)@, valam, addram).1,
            r matches Err(f) ==> f is TestRegister,
            r is Ok ==> final(self)@ == spec_dbnz(old(self)@, valam, addram).0,
    {
        let v = self.am_loadb(valam);
        let a = self.am_address(addram);
        let res = v.wrapping_sub(1);
        if let Err(f) = self.am_storeb(valam, res) {
            return Err(f);
        }
        if res == 0 {
            self.pc = a;
            self.cy = self.cy + 2;
        }
        proof {
            assert(self@ =~= spec_dbnz(old(self)@, valam, addram).0);
        }
        Ok(())
    }

    /// Branch when the operand differs from the accumulator.
    pub fn cbne(&mut self, cmpam: AddressingMode, addram: AddressingMode)
        requires
            old(self).wf(),
            old(self)@.cy <= 200,
        ensures
            final(self).wf(),
            final(self)@ == spec_cbne(old(self)@, cmpam, addram),
    {
        let v = self.am_loadb(cmpam);
        let a = self.am_address(addram);
        if v != self.a {
            self.pc = a;
            self.cy = self.cy + 2;
        }
        proof {
            assert(self@ =~= spec_cbne(old(self)@, cmpam, addram));
        }
    }

    /// Unconditional jump to the effective address.
    pub fn bra(&mut self, am: AddressingMode)
        requires
            old(self).wf(),
        ensures
            final(self).wf(),
            final(self)@ == spec_bra(old(self)@, am),
    {
        let a = self.am_address(am);
        self.pc = a;
        proof {
            assert(self@ =~= spec_bra(old(self)@, am));
        }
    }

    /// Branch when Z is set; taken adds exactly 2 cycles, not taken adds 0.
    pub fn beq(&mut self, am: AddressingMode)
        requires
            old(self).wf(),
            old(self)@.cy <= 200,
        ensures
            final(self).wf(),
            final(self)@ == spec_beq(old(self)@, am),
    {
        let a = self.am_address(am);
        if self.psw.zero() {
            self.pc = a;
            self.cy = self.cy + 2;
        }
        proof {
            assert(self@ =~= spec_beq(old(self)@, am));
        }
    }

    /// Branch when Z is clear.
    pub fn bne(&mut self, am: AddressingMode)
        requires
            old(self).wf(),
            old(self)@.cy <= 200,
        ensures
            final(self).wf(),
            final(self)@ == spec_bne(old(self)@, am),
    {
        let a = self.am_address(am);
        if !self.psw.zero() {
            self.pc = a;
            self.cy = self.cy + 2;
        }
        proof {
            assert(self@ =~= spec_bne(old(self)@, am));
        }
    }

    /// Branch when C is set.
    pub fn bcs(&mut self, am: AddressingMode)
        requires
            old(self).wf(),
            old(self)@.cy <= 200,
        ensures
            final(self).wf(),
            final(self)@ == spec_bcs(old(self)@, am),
    {
        let a = self.am_address(am);
        if self.psw.carry() {
            self.pc = a;
            self.cy = self.cy + 2;
        }
        proof {
            assert(self@ =~= spec_bcs(old(self)@, am));
        }
    }

    /// Branch when C is clear.
    pub fn bcc(&mut self, am: AddressingMode)
        requires
            old(self).wf(),
            old(self)@.cy <= 200,
        ensures
            final(self).wf(),
            final(self)@ == spec_bcc(old(self)@, am),
    {
        let a = self.am_address(am);
        if !self.psw.carry() {
            self.pc = a;
            self.cy = self.cy + 2;
        }
        proof {
            assert(self@ =~= spec_bcc(old(self)@, am));
        }
    }

    /// Branch when N is set.
    pub fn bmi(&mut self, am: AddressingMode)
        requires
            old(self).wf(),
            old(self)@.cy <= 200,
        ensures
            final(self).wf(),
            final(self)@ == spec_bmi(old(self)@, am),
    {
        let a = self.am_address(am);
        if self.psw.negative() {
            self.pc = a;
            self.cy = self.cy + 2;
        }
        proof {
            assert(self@ =~= spec_bmi(old(self)@, am));
        }
    }

    /// Branch when N is clear.
    pub fn bpl(&mut self, am: AddressingMode)
        requires
            old(self).wf(),
            old(self)@.cy <= 200,
        ensures
            final(self).wf(),
            final(self)@ == spec_bpl(old(self)@, am),
    {
        let a = self.am_address(am);
        if !self.psw.negative() {
            self.pc = a;
            self.cy = self.cy + 2;
        }
        proof {
            assert(self@ =~= spec_bpl(old(self)@, am));
        }
    }

    /// `mul ya`: 16-bit product of Y and A; Y takes the high byte (setting
    /// N and Z from it), A the low byte.
    pub fn mul(&mut self)
        requires
            old(self).wf(),
        ensures
            final(self).wf(),
            final(self)@ == spec_mul(old(self)@),
    {
        let y16 = self.y as u16;
        let a16 = self.a as u16;
        proof {
            assert(y16 * a16 <= 65025) by (nonlinear_arith)
                requires
                    y16 <= 255,
                    a16 <= 255,
            ;
        }
        let res = y16 * a16;
        let hi = hi8(res);
        let lo = lo8(res);
        let h2 = self.psw.set_nz(hi);
        self.y = h2;
        self.a = lo;
        proof {
            assert(self@ =~= spec_mul(old(self)@));
        }
    }

    /// Add with carry: destination := destination + source + carry, setting
    /// C, H, V, N and Z.
    pub fn adc(&mut self, src: AddressingMode, dest: AddressingMode) -> (r: Result<(), Fault>)
        requires
            old(self).wf(),
        ensures
            final(self).wf(),
            r is Err <==> spec_adc(old(self)@, src, dest).1,
            r matches Err(f) ==> f is TestRegister,
            r is Ok ==> final(self)@ == spec_adc(old(self)@, src, dest).0,
    {
        let c: u8 = if self.psw.carry() {
            1
        } else {
            0
        };
        let av = self.am_loadb(dest);
        let bv = self.am_loadb(src);
        let res = av as u16 + bv as u16 + c as u16;
        self.psw.set_carry(res > 255);
        proof {
            assert(av & 0x0F <= 0x0F && bv & 0x0F <= 0x0F) by (bit_vector);
        }
        self.psw.set_half_carry(((av & 0x0F) + (bv & 0x0F) + c) & 0xF0 != 0);
        let res8 = lo8(res);
        proof {
            assert(res & 0xFF == res % 256) by (bit_vector);
        }
        self.psw.set_overflow((av ^ bv) & 0x80 == 0 && (av ^ res8) & 0x80 == 0x80);
        let res8b = self.psw.set_nz(res8);
        self.am_storeb(dest, res8b)
    }

    /// `and`: l := l & r, setting N and Z.
    pub fn and(&mut self, r: AddressingMode, l: AddressingMode) -> (res: Result<(), Fault>)
        requires
            old(self).wf(),
        ensures
            final(self).wf(),
            res is Err <==> spec_logic(old(self)@, r, l, 0).1,
            res matches Err(f) ==> f is TestRegister,
            res is Ok ==> final(self)@ == spec_logic(old(self)@, r, l, 0).0,
    {
        let rb = self.am_loadb(r);
        let lb = self.am_loadb(l);
        let v = self.psw.set_nz(lb & rb);
        self.am_storeb(l, v)
    }

    /// `or`: l := l | r, setting N and Z.
    pub fn or(&mut self, r: AddressingMode, l: AddressingMode) -> (res: Result<(), Fault>)
        requires
            old(self).wf(),
        ensures
            final(self).wf(),
            res is Err <==> spec_logic(old(self)@, r, l, 1).1,
            res matches Err(f) ==> f is TestRegister,
            res is Ok ==> final(self)@ == spec_logic(old(self)@, r, l, 1).0,
    {
        let rb = self.am_loadb(r);
        let lb = self.am_loadb(l);
        let v = self.psw.set_nz(lb | rb);
        self.am_storeb(l, v)
    }

    /// `eor`: l := l ^ r, setting N and Z.
    pub fn eor(&mut self, r: AddressingMode, l: AddressingMode) -> (res: Result<(), Fault>)
        requires
            old(self).wf(),
        ensures
            final(self).wf(),
            res is Err <==> spec_logic(old(self)@, r, l, 2).1,
            res matches Err(f) ==> f is TestRegister,
            res is Ok ==> final(self)@ == spec_logic(old(self)@, r, l, 2).0,
    {
        let rb = self.am_loadb(r);
        let lb = self.am_loadb(l);
        let v = self.psw.set_nz(lb ^ rb);
        self.am_storeb(l, v)
    }

    /// Shift left: C takes bit 7, N and Z follow the result.
    pub fn asl(&mut self, op: AddressingMode) -> (r: Result<(), Fault>)
        requires
            old(self).wf(),
        ensures
            final(self).wf(),
            r is Err <==> spec_asl(old(self)@, op).1,
            r matches Err(f) ==> f is TestRegister,
            r is Ok ==> final(self)@ == spec_asl(old(self)@, op).0,
    {
        let v = self.am_loadb(op);
        self.psw.set_carry(v & 0x80 != 0);
        let res = self.psw.set_nz(v << 1);
        self.am_storeb(op, res)
    }

    /// Shift right: C takes bit 0, N and Z follow the result.
    pub fn lsr(&mut self, op: AddressingMode) -> (r: Result<(), Fault>)
        requires
            old(self).wf(),
        ensures
            final(self).wf(),
            r is Err <==> spec_lsr(old(self)@, op).1,
            r matches Err(f) ==> f is TestRegister,
            r is Ok ==> final(self)@ == spec_lsr(old(self)@, op).0,
    {
        let v = self.am_loadb(op);
        self.psw.set_carry(v & 0x01 != 0);
        let res = self.psw.set_nz(v >> 1);
        self.am_storeb(op, res)
    }

    /// Rotate right through carry; the rotated byte is stored back.
    pub fn ror(&mut self, op: AddressingMode) -> (r: Result<(), Fault>)
        requires
            old(self).wf(),
        ensures
            final(self).wf(),
            r is Err <==> spec_ror(old(self)@, op).1,
            r matches Err(f) ==> f is TestRegister,
            r is Ok ==> final(self)@ == spec_ror(old(self)@, op).0,
    {
        let v = self.am_loadb(op);
        let c: u8 = if self.psw.carry() {
            0x80
        } else {
            0
        };
        self.psw.set_carry(v & 0x01 != 0);
        let res = self.psw.set_nz((v >> 1) | c);
        self.am_storeb(op, res)
    }

    /// Decrement the operand with wrap; N and Z follow the result.
    pub fn dec(&mut self, am: AddressingMode) -> (r: Result<(), Fault>)
        requires
            old(self).wf(),
        ensures
            final(self).wf(),
            r is Err <==> spec_dec(old(self)@, am).1,
            r matches Err(f) ==> f is TestRegister,
            r is Ok ==> final(self)@ == spec_dec(old(self)@, am).0,
    {
        let v = self.am_loadb(am);
        let res = self.psw.set_nz(v.wrapping_sub(1));
        self.am_storeb(am, res)
    }

    /// Increment the operand with wrap; N and Z follow the result.
    pub fn inc(&mut self, am: AddressingMode) -> (r: Result<(), Fault>)
        requires
            old(self).wf(),
        ensures
            final(self).wf(),
            r is Err <==> spec_inc(old(self)@, am).1,
            r matches Err(f) ==> f is TestRegister,
            r is Ok ==> final(self)@ == spec_inc(old(self)@, am).0,
    {
        let v = self.am_loadb(am);
        let res = self.psw.set_nz(v.wrapping_add(1));
        self.am_storeb(am, res)
    }

    /// `mov (X++), A`: store A at the address X names, then increment X; no
    /// flags.
    pub fn mov_xinc(&mut self) -> (r: Result<(), Fault>)
        requires
            old(self).wf(),
        ensures
            final(self).wf(),
            r is Err <==> spec_mov_xinc(old(self)@).1,
            r matches Err(f) ==> f is TestRegister,
            r is Ok ==> final(self)@ == spec_mov_xinc(old(self)@).0,
    {
        let addr = self.x as u16;
        let a = self.a;
        if let Err(f) = self.store(addr, a) {
            return Err(f);
        }
        self.x = self.x.wrapping_add(1);
        proof {
            assert(self@ =~= spec_mov_xinc(old(self)@).0);
        }
        Ok(())
    }

    /// `movw ya, {mode}`: word load into Y (high, setting N and Z) and A
    /// (low).
    pub fn movw_l(&mut self, am: AddressingMode)
        requires
            old(self).wf(),
        ensures
            final(self).wf(),
            final(self)@ == spec_movw_l(old(self)@, am),
    {
        let (lo, hi) = self.am_loadw(am);
        let h2 = self.psw.set_nz(hi);
        self.y = h2;
        self.a = lo;
        proof {
            assert(self@ =~= spec_movw_l(old(self)@, am));
        }
    }

    /// `movw {mode}, ya`: a dummy byte load, then A to the effective address
    /// and Y to the next one; no flags.
    pub fn movw_s(&mut self, am: AddressingMode) -> (r: Result<(), Fault>)
        requires
            old(self).wf(),
        ensures
            final(self).wf(),
            r is Err <==> spec_movw_s(old(self)@, am).1,
            r matches Err(f) ==> f is TestRegister,
            r is Ok ==> final(self)@ == spec_movw_s(old(self)@, am).0,
    {
        let y = self.y;
        let a = self.a;
        let _ = self.am_loadb(am);
        let addr = self.am_address(am);
        if let Err(f) = self.store(addr, a) {
            return Err(f);
        }
        let r2 = self.store(addr.wrapping_add(1), y);
        proof {
            assert(r2 is Ok ==> self@ =~= spec_movw_s(old(self)@, am).0);
        }
        r2
    }

    /// Copy a byte; flags only when the destination is a register.
    pub fn mov(&mut self, src: AddressingMode, dest: AddressingMode) -> (r: Result<(), Fault>)
        requires
            old(self).wf(),
        ensures
            final(self).wf(),
            r is Err <==> spec_mov(old(self)@, src, dest).1,
            r matches Err(f) ==> f is TestRegister,
            r is Ok ==> final(self)@ == spec_mov(old(self)@, src, dest).0,
    {
        let v = self.am_loadb(src);
        self.am_storeb(dest, v)
    }

    /// `mov sp, x`; no flags.
    pub fn mov_sp_x(&mut self)
        requires
            old(self).wf(),
        ensures
            final(self).wf(),
            final(self)@ == spec_mov_sp_x(old(self)@),
    {
        self.sp = self.x;
        proof {
            assert(self@ =~= spec_mov_sp_x(old(self)@));
        }
    }

    /// Placeholder for an illegal opcode; the dispatcher faults after it.
    pub fn ill(&mut self)
        ensures
            *final(self) == *old(self),
    {
    }
}

// The dispatcher.
impl Spc700 {
    /// Advance all three timers by the cycle count of one instruction.
    fn tick_timers(&mut self, cy: u8)
        requires
            old(self).wf(),
        ensures
            final(self).wf(),
            final(self)@ == spec_tick_timers(old(self)@, cy),
    {
        self.timer0.update(128, cy);
        self.timer1.update(128, cy);
        self.timer2.update(16, cy);
        proof {
            assert(self@ =~= spec_tick_timers(old(self)@, cy));
        }
    }

    #[verifier::rlimit(100)]
    #[verifier::spinoff_prover]
    fn exec_op_00_0f(&mut self, op: u8) -> (r: Result<u8, Fault>)
        requires
            old(self).wf(),
            0x00 <= op < 0x10,
        ensures
            final(self).wf(),
            !spec_implemented(op) <==> r == Err::<u8, Fault>(Fault::IllegalOpcode { op }),
            !spec_implemented(op) ==> *final(self) == *old(self),
            ((r matches Err(f) && f is TestRegister) <==> (spec_implemented(op) && spec_exec_op(
                old(self)@,
                op,
            ).1)),
            r matches Err(f) ==> (f is TestRegister || !spec_implemented(op)),
            r matches Ok(cy) ==> final(self)@ == spec_exec_op(old(self)@, op).0,
            r matches Ok(cy) ==> cy == spec_exec_op(old(self)@, op).0.cy,
            r matches Ok(cy) ==> cy == spec_base_cycles(op) || cy == spec_base_cycles(op) + 2,
            r matches Ok(cy) ==> 2 <= cy && cy <= 14,
    {
        proof {
            reveal(spec_exec_op);
        }
        match op {
            0x08 => {
                self.cy = 2;
                proof {
                    assert(self@ =~= spec_with_cy(old(self)@, 2));
                }
                let am = self.immediate();
                let am2 = self.a();
                match self.or(am, am2) {
                    Ok(()) => {
                        proof {
                            assert(self@ =~= spec_exec_op(old(self)@, op).0);
                            assert(!spec_exec_op(old(self)@, op).1);
                        }
                    },
                    Err(f) => {
                        proof {
                            assert(spec_exec_op(old(self)@, op).1);
                        }
                        return Err(f);
                    },
                }
            },
            _ => {
                self.ill();
                return Err(Fault::IllegalOpcode { op });
            },
        }
        Ok(self.cy)
    }

    #[verifier::rlimit(100)]
    #[verifier::spinoff_prover]
    fn exec_op_10_1f(&mut self, op: u8) -> (r: Result<u8, Fault>)
        requires
            old(self).wf(),
            0x10 <= op < 0x20,
        ensures
            final(self).wf(),
            !spec_implemented(op) <==> r == Err::<u8, Fault>(Fault::IllegalOpcode { op }),
            !spec_implemented(op) ==> *final(self) == *old(self),
            ((r matches Err(f) && f is TestRegister) <==> (spec_implemented(op) && spec_exec_op(
                old(self)@,
                op,
            ).1)),
            r matches Err(f) ==> (f is TestRegister || !spec_implemented(op)),
            r matches Ok(cy) ==> final(self)@ == spec_exec_op(old(self)@, op).0,
            r matches Ok(cy) ==> cy == spec_exec_op(old(self)@, op).0.cy,
            r matches Ok(cy) ==> cy == spec_base_cycles(op) || cy == spec_base_cycles(op) + 2,
            r matches Ok(cy) ==> 2 <= cy && cy <= 14,
    {
        proof {
            reveal(spec_exec_op);
        }
        match op {
            0x10 => {
                self.cy = 2;
                proof {
                    assert(self@ =~= spec_with_cy(old(self)@, 2));
                }
                let am = self.rel();
                self.bpl(am);
                proof {
                    assert(self@ =~= spec_exec_op(old(self)@, op).0);
                }
            },
            0x13 => {
                self.cy = 5;
                proof {
                    assert(self@ =~= spec_with_cy(old(self)@, 5));
                }
                let am = self.direct();
                let am2 = self.rel();
                self.bbc(0, am, am2);
                proof {
                    assert(self@ =~= spec_exec_op(old(self)@, op).0);
                }
            },
            0x1C => {
                self.cy = 2;
                proof {
                    assert(self@ =~= spec_with_cy(old(self)@, 2));
                }
                let am = self.a();
                match self.asl(am) {
                    Ok(()) => {
                        proof {
                            assert(self@ =~= spec_exec_op(old(self)@, op).0);
                            assert(!spec_exec_op(old(self)@, op).1);
                        }
                    },
                    Err(f) => {
                        proof {
                            assert(spec_exec_op(old(self)@, op).1);
                        }
                        return Err(f);
                    },
                }
            },
            0x1D => {
                self.cy = 2;
                proof {
                    assert(self@ =~= spec_with_cy(old(self)@, 2));
                }
                let am = self.x();
                match self.dec(am) {
                    Ok(()) => {
                        proof {
                            assert(self@ =~= spec_exec_op(old(self)@, op).0);
                            assert(!spec_exec_op(old(self)@, op).1);
                        }
                    },
                    Err(f) => {
                        proof {
                            assert(spec_exec_op(old(self)@, op).1);
                        }
                        return Err(f);
                    },
                }
            },
            0x1F => {
                self.cy = 6;
                proof {
                    assert(self@ =~= spec_with_cy(old(self)@, 6));
                }
                let am = self.abs_indexed_indirect();
                self.bra(am);
                proof {
                    assert(self@ =~= spec_exec_op(old(self)@, op).0);
                }
            },
            _ => {
                self.ill();
                return Err(Fault::IllegalOpcode { op });
            },
        }
        Ok(self.cy)
    }

    #[verifier::rlimit(100)]
    #[verifier::spinoff_prover]
    fn exec_op_20_2f(&mut self, op: u8) -> (r: Result<u8, Fault>)
        requires
            old(self).wf(),
            0x20 <= op < 0x30,
        ensures
            final(self).wf(),
            !spec_implemented(op) <==> r == Err::<u8, Fault>(Fault::IllegalOpcode { op }),
            !spec_implemented(op) ==> *final(self) == *old(self),
            ((r matches Err(f) && f is TestRegister) <==> (spec_implemented(op) && spec_exec_op(
                old(self)@,
                op,
            ).1)),
            r matches Err(f) ==> (f is TestRegister || !spec_implemented(op)),
            r matches Ok(cy) ==> final(self)@ == spec_exec_op(old(self)@, op).0,
            r matches Ok(cy) ==> cy == spec_exec_op(old(self)@, op).0.cy,
            r matches Ok(cy) ==> cy == spec_base_cycles(op) || cy == spec_base_cycles(op) + 2,
            r matches Ok(cy) ==> 2 <= cy && cy <= 14,
    {
        proof {
            reveal(spec_exec_op);
        }
        match op {
            0x20 => {
                self.cy = 2;
                proof {
                    assert(self@ =~= spec_with_cy(old(self)@, 2));
                }
                self.clrp();
                proof {
                    assert(self@ =~= spec_exec_op(old(self)@, op).0);
                }
            },
            0x28 => {
                self.cy = 2;
                proof {
                    assert(self@ =~= spec_with_cy(old(self)@, 2));
                }
                let am = self.immediate();
                let am2 = self.a();
                match self.and(am, am2) {
                    Ok(()) => {
                        proof {
                            assert(self@ =~= spec_exec_op(old(self)@, op).0);
                            assert(!spec_exec_op(old(self)@, op).1);
                        }
                    },
                    Err(f) => {
                        proof {
                            assert(spec_exec_op(old(self)@, op).1);
                        }
                        return Err(f);
                    },
                }
            },
            0x2D => {
                self.cy = 4;
                proof {
                    assert(self@ =~= spec_with_cy(old(self)@, 4));
                }
                let am = self.a();
                self.push(am);
                proof {
                    assert(self@ =~= spec_exec_op(old(self)@, op).0);
                }
            },
            0x2F => {
                self.cy = 4;
                proof {
                    assert(self@ =~= spec_with_cy(old(self)@, 4));
                }
                let am = self.rel();
                self.bra(am);
                proof {
                    assert(self@ =~= spec_exec_op(old(self)@, op).0);
                }
            },
            _ => {
                self.ill();
                return Err(Fault::IllegalOpcode { op });
            },
        }
        Ok(self.cy)
    }

    #[verifier::rlimit(100)]
    #[verifier::spinoff_prover]
    fn exec_op_30_3f(&mut self, op: u8) -> (r: Result<u8, Fault>)
        requires
            old(self).wf(),
            0x30 <= op < 0x40,
        ensures
            final(self).wf(),
            !spec_implemented(op) <==> r == Err::<u8, Fault>(Fault::IllegalOpcode { op }),
            !spec_implemented(op) ==> *final(self) == *old(self),
            ((r matches Err(f) && f is TestRegister) <==> (spec_implemented(op) && spec_exec_op(
                old(self)@,
                op,
            ).1)),
            r matches Err(f) ==> (f is TestRegister || !spec_implemented(op)),
            r matches Ok(cy) ==> final(self)@ == spec_exec_op(old(self)@, op).0,
            r matches Ok(cy) ==> cy == spec_exec_op(old(self)@, op).0.cy,
            r matches Ok(cy) ==> cy == spec_base_cycles(op) || cy == spec_base_cycles(op) + 2,
            r matches Ok(cy) ==> 2 <= cy && cy <= 14,
    {
        proof {
            reveal(spec_exec_op);
        }
        match op {
            0x30 => {
                self.cy = 2;
                proof {
                    assert(self@ =~= spec_with_cy(old(self)@, 2));
                }
                let am = self.rel();
                self.bmi(am);
                proof {
                    assert(self@ =~= spec_exec_op(old(self)@, op).0);
                }
            },
            0x33 => {
                self.cy = 5;
                proof {
                    assert(self@ =~= spec_with_cy(old(self)@, 5));
                }
                let am = self.direct();
                let am2 = self.rel();
                self.bbc(1, am, am2);
                proof {
                    assert(self@ =~= spec_exec_op(old(self)@, op).0);
                }
            },
            0x3D => {
                self.cy = 2;
                proof {
                    assert(self@ =~= spec_with_cy(old(self)@, 2));
                }
                let am = self.x();
                match self.inc(am) {
                    Ok(()) => {
                        proof {
                            assert(self@ =~= spec_exec_op(old(self)@, op).0);
                            assert(!spec_exec_op(old(self)@, op).1);
                        }
                    },
                    Err(f) => {
                        proof {
                            assert(spec_exec_op(old(self)@, op).1);
                        }
                        return Err(f);
                    },
                }
            },
            0x3F => {
                self.cy = 8;
                proof {
                    assert(self@ =~= spec_with_cy(old(self)@, 8));
                }
                let am = self.abs();
                self.call(am);
                proof {
                    assert(self@ =~= spec_exec_op(old(self)@, op).0);
                }
            },
            _ => {
                self.ill();
                return Err(Fault::IllegalOpcode { op });
            },
        }
        Ok(self.cy)
    }

    #[verifier::rlimit(100)]
    #[verifier::spinoff_prover]
    fn exec_op_40_4f(&mut self, op: u8) -> (r: Result<u8, Fault>)
        requires
            old(self).wf(),
            0x40 <= op < 0x50,
        ensures
            final(self).wf(),
            !spec_implemented(op) <==> r == Err::<u8, Fault>(Fault::IllegalOpcode { op }),
            !spec_implemented(op) ==> *final(self) == *old(self),
            ((r matches Err(f) && f is TestRegister) <==> (spec_implemented(op) && spec_exec_op(
                old(self)@,
                op,
            ).1)),
            r matches Err(f) ==> (f is TestRegister || !spec_implemented(op)),
            r matches Ok(cy) ==> final(self)@ == spec_exec_op(old(self)@, op).0,
            r matches Ok(cy) ==> cy == spec_exec_op(old(self)@, op).0.cy,
            r matches Ok(cy) ==> cy == spec_base_cycles(op) || cy == spec_base_cycles(op) + 2,
            r matches Ok(cy) ==> 2 <= cy && cy <= 14,
    {
        proof {
            reveal(spec_exec_op);
        }
        match op {
            0x44 => {
                self.cy = 3;
                proof {
                    assert(self@ =~= spec_with_cy(old(self)@, 3));
                }
                let am = self.direct();
                let am2 = self.a();
                match self.eor(am, am2) {
                    Ok(()) => {
                        proof {
                            assert(self@ =~= spec_exec_op(old(self)@, op).0);
                            assert(!spec_exec_op(old(self)@, op).1);
                        }
                    },
                    Err(f) => {
                        proof {
                            assert(spec_exec_op(old(self)@, op).1);
                        }
                        return Err(f);
                    },
                }
            },
            0x48 => {
                self.cy = 2;
                proof {
                    assert(self@ =~= spec_with_cy(old(self)@, 2));
                }
                let am = self.immediate();
                let am2 = self.a();
                match self.eor(am, am2) {
                    Ok(()) => {
                        proof {
                            assert(self@ =~= spec_exec_op(old(self)@, op).0);
                            assert(!spec_exec_op(old(self)@, op).1);
                        }
                    },
                    Err(f) => {
                        proof {
                            assert(spec_exec_op(old(self)@, op).1);
                        }
                        return Err(f);
                    },
                }
            },
            0x4D => {
                self.cy = 4;
                proof {
                    assert(self@ =~= spec_with_cy(old(self)@, 4));
                }
                let am = self.x();
                self.push(am);
                proof {
                    assert(self@ =~= spec_exec_op(old(self)@, op).0);
                }
            },
            _ => {
                self.ill();
                return Err(Fault::IllegalOpcode { op });
            },
        }
        Ok(self.cy)
    }

    #[verifier::rlimit(100)]
    #[verifier::spinoff_prover]
    fn exec_op_50_5f(&mut self, op: u8) -> (r: Result<u8, Fault>)
        requires
            old(self).wf(),
            0x50 <= op < 0x60,
        ensures
            final(self).wf(),
            !spec_implemented(op) <==> r == Err::<u8, Fault>(Fault::IllegalOpcode { op }),
            !spec_implemented(op) ==> *final(self) == *old(self),
            ((r matches Err(f) && f is TestRegister) <==> (spec_implemented(op) && spec_exec_op(
                old(self)@,
                op,
            ).1)),
            r matches Err(f) ==> (f is TestRegister || !spec_implemented(op)),
            r matches Ok(cy) ==> final(self)@ == spec_exec_op(old(self)@, op).0,
            r matches Ok(cy) ==> cy == spec_exec_op(old(self)@, op).0.cy,
            r matches Ok(cy) ==> cy == spec_base_cycles(op) || cy == spec_base_cycles(op) + 2,
            r matches Ok(cy) ==> 2 <= cy && cy <= 14,
    {
        proof {
            reveal(spec_exec_op);
        }
        match op {
            0x53 => {
                self.cy = 5;
                proof {
                    assert(self@ =~= spec_with_cy(old(self)@, 5));
                }
                let am = self.direct();
                let am2 = self.rel();
                self.bbc(2, am, am2);
                proof {
                    assert(self@ =~= spec_exec_op(old(self)@, op).0);
                }
            },
            0x5C => {
                self.cy = 2;
                proof {
                    assert(self@ =~= spec_with_cy(old(self)@, 2));
                }
                let am = self.a();
                match self.lsr(am) {
                    Ok(()) => {
                        proof {
                            assert(self@ =~= spec_exec_op(old(self)@, op).0);
                            assert(!spec_exec_op(old(self)@, op).1);
                        }
                    },
                    Err(f) => {
                        proof {
                            assert(spec_exec_op(old(self)@, op).1);
                        }
                        return Err(f);
                    },
                }
            },
            0x5D => {
                self.cy = 2;
                proof {
                    assert(self@ =~= spec_with_cy(old(self)@, 2));
                }
                let am = self.a();
                let am2 = self.x();
                match self.mov(am, am2) {
                    Ok(()) => {
                        proof {
                            assert(self@ =~= spec_exec_op(old(self)@, op).0);
                            assert(!spec_exec_op(old(self)@, op).1);
                        }
                    },
                    Err(f) => {
                        proof {
                            assert(spec_exec_op(old(self)@, op).1);
                        }
                        return Err(f);
                    },
                }
            },
            0x5E => {
                self.cy = 4;
                proof {
                    assert(self@ =~= spec_with_cy(old(self)@, 4));
                }
                let am = self.abs();
                let am2 = self.y();
                self.cmp(am, am2);
                proof {
                    assert(self@ =~= spec_exec_op(old(self)@, op).0);
                }
            },
            0x5F => {
                self.cy = 3;
                proof {
                    assert(self@ =~= spec_with_cy(old(self)@, 3));
                }
                let am = self.abs();
                self.bra(am);
                proof {
                    assert(self@ =~= spec_exec_op(old(self)@, op).0);
                }
            },
            _ => {
                self.ill();
                return Err(Fault::IllegalOpcode { op });
            },
        }
        Ok(self.cy)
    }

    #[verifier::rlimit(100)]
    #[verifier::spinoff_prover]
    fn exec_op_60_6f(&mut self, op: u8) -> (r: Result<u8, Fault>)
        requires
            old(self).wf(),
            0x60 <= op < 0x70,
        ensures
            final(self).wf(),
            !spec_implemented(op) <==> r == Err::<u8, Fault>(Fault::IllegalOpcode { op }),
            !spec_implemented(op) ==> *final(self) == *old(self),
            ((r matches Err(f) && f is TestRegister) <==> (spec_implemented(op) && spec_exec_op(
                old(self)@,
                op,
            ).1)),
            r matches Err(f) ==> (f is TestRegister || !spec_implemented(op)),
            r matches Ok(cy) ==> final(self)@ == spec_exec_op(old(self)@, op).0,
            r matches Ok(cy) ==> cy == spec_exec_op(old(self)@, op).0.cy,
            r matches Ok(cy) ==> cy == spec_base_cycles(op) || cy == spec_base_cycles(op) + 2,
            r matches Ok(cy) ==> 2 <= cy && cy <= 14,
    {
        proof {
            reveal(spec_exec_op);
        }
        match op {
            0x60 => {
                self.cy = 2;
                proof {
                    assert(self@ =~= spec_with_cy(old(self)@, 2));
                }
                self.clrc();
                proof {
                    assert(self@ =~= spec_exec_op(old(self)@, op).0);
                }
            },
            0x64 => {
                self.cy = 3;
                proof {
                    assert(self@ =~= spec_with_cy(old(self)@, 3));
                }
                let am = self.direct();
                let am2 = self.a();
                self.cmp(am, am2);
                proof {
                    assert(self@ =~= spec_exec_op(old(self)@, op).0);
                }
            },
            0x68 => {
                self.cy = 2;
                proof {
                    assert(self@ =~= spec_with_cy(old(self)@, 2));
                }
                let am = self.immediate();
                let am2 = self.a();
                self.cmp(am, am2);
                proof {
                    assert(self@ =~= spec_exec_op(old(self)@, op).0);
                }
            },
            0x69 => {
                self.cy = 6;
                proof {
                    assert(self@ =~= spec_with_cy(old(self)@, 6));
                }
                let am = self.direct();
                let am2 = self.direct();
                self.cmp(am, am2);
                proof {
                    assert(self@ =~= spec_exec_op(old(self)@, op).0);
                }
            },
            0x6B => {
                self.cy = 4;
                proof {
                    assert(self@ =~= spec_with_cy(old(self)@, 4));
                }
                let am = self.direct();
                match self.ror(am) {
                    Ok(()) => {
                        proof {
                            assert(self@ =~= spec_exec_op(old(self)@, op).0);
                            assert(!spec_exec_op(old(self)@, op).1);
                        }
                    },
                    Err(f) => {
                        proof {
                            assert(spec_exec_op(old(self)@, op).1);
                        }
                        return Err(f);
                    },
                }
            },
            0x6D => {
                self.cy = 4;
                proof {
                    assert(self@ =~= spec_with_cy(old(self)@, 4));
                }
                let am = self.y();
                self.push(am);
                proof {
                    assert(self@ =~= spec_exec_op(old(self)@, op).0);
                }
            },
            0x6F => {
                self.cy = 5;
                proof {
                    assert(self@ =~= spec_with_cy(old(self)@, 5));
                }
                self.ret();
                proof {
                    assert(self@ =~= spec_exec_op(old(self)@, op).0);
                }
            },
            _ => {
                self.ill();
                return Err(Fault::IllegalOpcode { op });
            },
        }
        Ok(self.cy)
    }

    #[verifier::rlimit(100)]
    #[verifier::spinoff_prover]
    fn exec_op_70_7f(&mut self, op: u8) -> (r: Result<u8, Fault>)
        requires
            old(self).wf(),
            0x70 <= op < 0x80,
        ensures
            final(self).wf(),
            !spec_implemented(op) <==> r == Err::<u8, Fault>(Fault::IllegalOpcode { op }),
            !spec_implemented(op) ==> *final(self) == *old(self),
            ((r matches Err(f) && f is TestRegister) <==> (spec_implemented(op) && spec_exec_op(
                old(self)@,
                op,
            ).1)),
            r matches Err(f) ==> (f is TestRegister || !spec_implemented(op)),
            r matches Ok(cy) ==> final(self)@ == spec_exec_op(old(self)@, op).0,
            r matches Ok(cy) ==> cy == spec_exec_op(old(self)@, op).0.cy,
            r matches Ok(cy) ==> cy == spec_base_cycles(op) || cy == spec_base_cycles(op) + 2,
            r matches Ok(cy) ==> 2 <= cy && cy <= 14,
    {
        proof {
            reveal(spec_exec_op);
        }
        match op {
            0x73 => {
                self.cy = 5;
                proof {
                    assert(self@ =~= spec_with_cy(old(self)@, 5));
                }
                let am = self.direct();
                let am2 = self.rel();
                self.bbc(3, am, am2);
                proof {
                    assert(self@ =~= spec_exec_op(old(self)@, op).0);
                }
            },
            0x75 => {
                self.cy = 5;
                proof {
                    assert(self@ =~= spec_with_cy(old(self)@, 5));
                }
                let am = self.abs_indexed_x();
                let am2 = self.a();
                self.cmp(am, am2);
                proof {
                    assert(self@ =~= spec_exec_op(old(self)@, op).0);
                }
            },
            0x78 => {
                self.cy = 5;
                proof {
                    assert(self@ =~= spec_with_cy(old(self)@, 5));
                }
                let am = self.immediate();
                let am2 = self.direct();
                self.cmp(am, am2);
                proof {
                    assert(self@ =~= spec_exec_op(old(self)@, op).0);
                }
            },
            0x7D => {
                self.cy = 2;
                proof {
                    assert(self@ =~= spec_with_cy(old(self)@, 2));
                }
                let am = self.x();
                let am2 = self.a();
                match self.mov(am, am2) {
                    Ok(()) => {
                        proof {
                            assert(self@ =~= spec_exec_op(old(self)@, op).0);
                            assert(!spec_exec_op(old(self)@, op).1);
                        }
                    },
                    Err(f) => {
                        proof {
                            assert(spec_exec_op(old(self)@, op).1);
                        }
                        return Err(f);
                    },
                }
            },
            0x7E => {
                self.cy = 3;
                proof {
                    assert(self@ =~= spec_with_cy(old(self)@, 3));
                }
                let am = self.direct();
                let am2 = self.y();
                self.cmp(am, am2);
                proof {
                    assert(self@ =~= spec_exec_op(old(self)@, op).0);
                }
            },
            _ => {
                self.ill();
                return Err(Fault::IllegalOpcode { op });
            },
        }
        Ok(self.cy)
    }

    #[verifier::rlimit(100)]
    #[verifier::spinoff_prover]
    fn exec_op_80_8f(&mut self, op: u8) -> (r: Result<u8, Fault>)
        requires
            old(self).wf(),
            0x80 <= op < 0x90,
        ensures
            final(self).wf(),
            !spec_implemented(op) <==> r == Err::<u8, Fault>(Fault::IllegalOpcode { op }),
            !spec_implemented(op) ==> *final(self) == *old(self),
            ((r matches Err(f) && f is TestRegister) <==> (spec_implemented(op) && spec_exec_op(
                old(self)@,
                op,
            ).1)),
            r matches Err(f) ==> (f is TestRegister || !spec_implemented(op)),
            r matches Ok(cy) ==> final(self)@ == spec_exec_op(old(self)@, op).0,
            r matches Ok(cy) ==> cy == spec_exec_op(old(self)@, op).0.cy,
            r matches Ok(cy) ==> cy == spec_base_cycles(op) || cy == spec_base_cycles(op) + 2,
            r matches Ok(cy) ==> 2 <= cy && cy <= 14,
    {
        proof {
            reveal(spec_exec_op);
        }
        match op {
            0x80 => {
                self.cy = 2;
                proof {
                    assert(self@ =~= spec_with_cy(old(self)@, 2));
                }
                self.setc();
                proof {
                    assert(self@ =~= spec_exec_op(old(self)@, op).0);
                }
            },
            0x84 => {
                self.cy = 3;
                proof {
                    assert(self@ =~= spec_with_cy(old(self)@, 3));
                }
                let am = self.direct();
                let am2 = self.a();
                match self.adc(am, am2) {
                    Ok(()) => {
                        proof {
                            assert(self@ =~= spec_exec_op(old(self)@, op).0);
                            assert(!spec_exec_op(old(self)@, op).1);
                        }
                    },
                    Err(f) => {
                        proof {
                            assert(spec_exec_op(old(self)@, op).1);
                        }
                        return Err(f);
                    },
                }
            },
            0x88 => {
                self.cy = 2;
                proof {
                    assert(self@ =~= spec_with_cy(old(self)@, 2));
                }
                let am = self.immediate();
                let am2 = self.a();
                match self.adc(am, am2) {
                    Ok(()) => {
                        proof {
                            assert(self@ =~= spec_exec_op(old(self)@, op).0);
                            assert(!spec_exec_op(old(self)@, op).1);
                        }
                    },
                    Err(f) => {
                        proof {
                            assert(spec_exec_op(old(self)@, op).1);
                        }
                        return Err(f);
                    },
                }
            },
            0x8D => {
                self.cy = 2;
                proof {
                    assert(self@ =~= spec_with_cy(old(self)@, 2));
                }
                let am = self.immediate();
                let am2 = self.y();
                match self.mov(am, am2) {
                    Ok(()) => {
                        proof {
                            assert(self@ =~= spec_exec_op(old(self)@, op).0);
                            assert(!spec_exec_op(old(self)@, op).1);
                        }
                    },
                    Err(f) => {
                        proof {
                            assert(spec_exec_op(old(self)@, op).1);
                        }
                        return Err(f);
                    },
                }
            },
            0x8F => {
                self.cy = 5;
                proof {
                    assert(self@ =~= spec_with_cy(old(self)@, 5));
                }
                let am = self.immediate();
                let am2 = self.direct();
                match self.mov(am, am2) {
                    Ok(()) => {
                        proof {
                            assert(self@ =~= spec_exec_op(old(self)@, op).0);
                            assert(!spec_exec_op(old(self)@, op).1);
                        }
                    },
                    Err(f) => {
                        proof {
                            assert(spec_exec_op(old(self)@, op).1);
                        }
                        return Err(f);
                    },
                }
            },
            _ => {
                self.ill();
                return Err(Fault::IllegalOpcode { op });
            },
        }
        Ok(self.cy)
    }

    #[verifier::rlimit(100)]
    #[verifier::spinoff_prover]
    fn exec_op_90_9f(&mut self, op: u8) -> (r: Result<u8, Fault>)
        requires
            old(self).wf(),
            0x90 <= op < 0xA0,
        ensures
            final(self).wf(),
            !spec_implemented(op) <==> r == Err::<u8, Fault>(Fault::IllegalOpcode { op }),
            !spec_implemented(op) ==> *final(self) == *old(self),
            ((r matches Err(f) && f is TestRegister) <==> (spec_implemented(op) && spec_exec_op(
                old(self)@,
                op,
            ).1)),
            r matches Err(f) ==> (f is TestRegister || !spec_implemented(op)),
            r matches Ok(cy) ==> final(self)@ == spec_exec_op(old(self)@, op).0,
            r matches Ok(cy) ==> cy == spec_exec_op(old(self)@, op).0.cy,
            r matches Ok(cy) ==> cy == spec_base_cycles(op) || cy == spec_base_cycles(op) + 2,
            r matches Ok(cy) ==> 2 <= cy && cy <= 14,
    {
        proof {
            reveal(spec_exec_op);
        }
        match op {
            0x90 => {
                self.cy = 2;
                proof {
                    assert(self@ =~= spec_with_cy(old(self)@, 2));
                }
                let am = self.rel();
                self.bcc(am);
                proof {
                    assert(self@ =~= spec_exec_op(old(self)@, op).0);
                }
            },
            0x93 => {
                self.cy = 5;
                proof {
                    assert(self@ =~= spec_with_cy(old(self)@, 5));
                }
                let am = self.direct();
                let am2 = self.rel();
                self.bbc(4, am, am2);
                proof {
                    assert(self@ =~= spec_exec_op(old(self)@, op).0);
                }
            },
            _ => {
                self.ill();
                return Err(Fault::IllegalOpcode { op });
            },
        }
        Ok(self.cy)
    }

    #[verifier::rlimit(100)]
    #[verifier::spinoff_prover]
    fn exec_op_a0_af(&mut self, op: u8) -> (r: Result<u8, Fault>)
        requires
            old(self).wf(),
            0xA0 <= op < 0xB0,
        ensures
            final(self).wf(),
            !spec_implemented(op) <==> r == Err::<u8, Fault>(Fault::IllegalOpcode { op }),
            !spec_implemented(op) ==> *final(self) == *old(self),
            ((r matches Err(f) && f is TestRegister) <==> (spec_implemented(op) && spec_exec_op(
                old(self)@,
                op,
            ).1)),
            r matches Err(f) ==> (f is TestRegister || !spec_implemented(op)),
            r matches Ok(cy) ==> final(self)@ == spec_exec_op(old(self)@, op).0,
            r matches Ok(cy) ==> cy == spec_exec_op(old(self)@, op).0.cy,
            r matches Ok(cy) ==> cy == spec_base_cycles(op) || cy == spec_base_cycles(op) + 2,
            r matches Ok(cy) ==> 2 <= cy && cy <= 14,
    {
        proof {
            reveal(spec_exec_op);
        }
        match op {
            0xA2 => {
                self.cy = 4;
                proof {
                    assert(self@ =~= spec_with_cy(old(self)@, 4));
                }
                let am = self.direct();
                match self.set1(0, am) {
                    Ok(()) => {
                        proof {
                            assert(self@ =~= spec_exec_op(old(self)@, op).0);
                            assert(!spec_exec_op(old(self)@, op).1);
                        }
                    },
                    Err(f) => {
                        proof {
                            assert(spec_exec_op(old(self)@, op).1);
                        }
                        return Err(f);
                    },
                }
            },
            0xAB => {
                self.cy = 4;
                proof {
                    assert(self@ =~= spec_with_cy(old(self)@, 4));
                }
                let am = self.direct();
                match self.inc(am) {
                    Ok(()) => {
                        proof {
                            assert(self@ =~= spec_exec_op(old(self)@, op).0);
                            assert(!spec_exec_op(old(self)@, op).1);
                        }
                    },
                    Err(f) => {
                        proof {
                            assert(spec_exec_op(old(self)@, op).1);
                        }
                        return Err(f);
                    },
                }
            },
            0xAC => {
                self.cy = 5;
                proof {
                    assert(self@ =~= spec_with_cy(old(self)@, 5));
                }
                let am = self.abs();
                match self.inc(am) {
                    Ok(()) => {
                        proof {
                            assert(self@ =~= spec_exec_op(old(self)@, op).0);
                            assert(!spec_exec_op(old(self)@, op).1);
                        }
                    },
                    Err(f) => {
                        proof {
                            assert(spec_exec_op(old(self)@, op).1);
                        }
                        return Err(f);
                    },
                }
            },
            0xAD => {
                self.cy = 2;
                proof {
                    assert(self@ =~= spec_with_cy(old(self)@, 2));
                }
                let am = self.immediate();
                let am2 = self.y();
                self.cmp(am, am2);
                proof {
                    assert(self@ =~= spec_exec_op(old(self)@, op).0);
                }
            },
            0xAF => {
                self.cy = 4;
                proof {
                    assert(self@ =~= spec_with_cy(old(self)@, 4));
                }
                match self.mov_xinc() {
                    Ok(()) => {
                        proof {
                            assert(self@ =~= spec_exec_op(old(self)@, op).0);
                            assert(!spec_exec_op(old(self)@, op).1);
                        }
                    },
                    Err(f) => {
                        proof {
                            assert(spec_exec_op(old(self)@, op).1);
                        }
                        return Err(f);
                    },
                }
            },
            _ => {
                self.ill();
                return Err(Fault::IllegalOpcode { op });
            },
        }
        Ok(self.cy)
    }

    #[verifier::rlimit(100)]
    #[verifier::spinoff_prover]
    fn exec_op_b0_bf(&mut self, op: u8) -> (r: Result<u8, Fault>)
        requires
            old(self).wf(),
            0xB0 <= op < 0xC0,
        ensures
            final(self).wf(),
            !spec_implemented(op) <==> r == Err::<u8, Fault>(Fault::IllegalOpcode { op }),
            !spec_implemented(op) ==> *final(self) == *old(self),
            ((r matches Err(f) && f is TestRegister) <==> (spec_implemented(op) && spec_exec_op(
                old(self)@,
                op,
            ).1)),
            r matches Err(f) ==> (f is TestRegister || !spec_implemented(op)),
            r matches Ok(cy) ==> final(self)@ == spec_exec_op(old(self)@, op).0,
            r matches Ok(cy) ==> cy == spec_exec_op(old(self)@, op).0.cy,
            r matches Ok(cy) ==> cy == spec_base_cycles(op) || cy == spec_base_cycles(op) + 2,
            r matches Ok(cy) ==> 2 <= cy && cy <= 14,
    {
        proof {
            reveal(spec_exec_op);
        }
        match op {
            0xB0 => {
                self.cy = 2;
                proof {
                    assert(self@ =~= spec_with_cy(old(self)@, 2));
                }
                let am = self.rel();
                self.bcs(am);
                proof {
                    assert(self@ =~= spec_exec_op(old(self)@, op).0);
                }
            },
            0xB3 => {
                self.cy = 5;
                proof {
                    assert(self@ =~= spec_with_cy(old(self)@, 5));
                }
                let am = self.direct();
                let am2 = self.rel();
                self.bbc(5, am, am2);
                proof {
                    assert(self@ =~= spec_exec_op(old(self)@, op).0);
                }
            },
            0xBA => {
                self.cy = 5;
                proof {
                    assert(self@ =~= spec_with_cy(old(self)@, 5));
                }
                let am = self.direct();
                self.movw_l(am);
                proof {
                    assert(self@ =~= spec_exec_op(old(self)@, op).0);
                }
            },
            0xBC => {
                self.cy = 2;
                proof {
                    assert(self@ =~= spec_with_cy(old(self)@, 2));
                }
                let am = self.a();
                match self.inc(am) {
                    Ok(()) => {
                        proof {
                            assert(self@ =~= spec_exec_op(old(self)@, op).0);
                            assert(!spec_exec_op(old(self)@, op).1);
                        }
                    },
                    Err(f) => {
                        proof {
                            assert(spec_exec_op(old(self)@, op).1);
                        }
                        return Err(f);
                    },
                }
            },
            0xBD => {
                self.cy = 2;
                proof {
                    assert(self@ =~= spec_with_cy(old(self)@, 2));
                }
                self.mov_sp_x();
                proof {
                    assert(self@ =~= spec_exec_op(old(self)@, op).0);
                }
            },
            _ => {
                self.ill();
                return Err(Fault::IllegalOpcode { op });
            },
        }
        Ok(self.cy)
    }

    #[verifier::rlimit(100)]
    #[verifier::spinoff_prover]
    fn exec_op_c0_cf(&mut self, op: u8) -> (r: Result<u8, Fault>)
        requires
            old(self).wf(),
            0xC0 <= op < 0xD0,
        ensures
            final(self).wf(),
            !spec_implemented(op) <==> r == Err::<u8, Fault>(Fault::IllegalOpcode { op }),
            !spec_implemented(op) ==> *final(self) == *old(self),
            ((r matches Err(f) && f is TestRegister) <==> (spec_implemented(op) && spec_exec_op(
                old(self)@,
                op,
            ).1)),
            r matches Err(f) ==> (f is TestRegister || !spec_implemented(op)),
            r matches Ok(cy) ==> final(self)@ == spec_exec_op(old(self)@, op).0,
            r matches Ok(cy) ==> cy == spec_exec_op(old(self)@, op).0.cy,
            r matches Ok(cy) ==> cy == spec_base_cycles(op) || cy == spec_base_cycles(op) + 2,
            r matches Ok(cy) ==> 2 <= cy && cy <= 14,
    {
        proof {
            reveal(spec_exec_op);
        }
        match op {
            0xC4 => {
                self.cy = 4;
                proof {
                    assert(self@ =~= spec_with_cy(old(self)@, 4));
                }
                let am = self.a();
                let am2 = self.direct();
                match self.mov(am, am2) {
                    Ok(()) => {
                        proof {
                            assert(self@ =~= spec_exec_op(old(self)@, op).0);
                            assert(!spec_exec_op(old(self)@, op).1);
                        }
                    },
                    Err(f) => {
                        proof {
                            assert(spec_exec_op(old(self)@, op).1);
                        }
                        return Err(f);
                    },
                }
            },
            0xC5 => {
                self.cy = 5;
                proof {
                    assert(self@ =~= spec_with_cy(old(self)@, 5));
                }
                let am = self.a();
                let am2 = self.abs();
                match self.mov(am, am2) {
                    Ok(()) => {
                        proof {
                            assert(self@ =~= spec_exec_op(old(self)@, op).0);
                            assert(!spec_exec_op(old(self)@, op).1);
                        }
                    },
                    Err(f) => {
                        proof {
                            assert(spec_exec_op(old(self)@, op).1);
                        }
                        return Err(f);
                    },
                }
            },
            0xC6 => {
                self.cy = 4;
                proof {
                    assert(self@ =~= spec_with_cy(old(self)@, 4));
                }
                let am = self.a();
                let am2 = self.indirect_x();
                match self.mov(am, am2) {
                    Ok(()) => {
                        proof {
                            assert(self@ =~= spec_exec_op(old(self)@, op).0);
                            assert(!spec_exec_op(old(self)@, op).1);
                        }
                    },
                    Err(f) => {
                        proof {
                            assert(spec_exec_op(old(self)@, op).1);
                        }
                        return Err(f);
                    },
                }
            },
            0xC8 => {
                self.cy = 2;
                proof {
                    assert(self@ =~= spec_with_cy(old(self)@, 2));
                }
                let am = self.immediate();
                let am2 = self.x();
                self.cmp(am, am2);
                proof {
                    assert(self@ =~= spec_exec_op(old(self)@, op).0);
                }
            },
            0xC9 => {
                self.cy = 5;
                proof {
                    assert(self@ =~= spec_with_cy(old(self)@, 5));
                }
                let am = self.x();
                let am2 = self.abs();
                match self.mov(am, am2) {
                    Ok(()) => {
                        proof {
                            assert(self@ =~= spec_exec_op(old(self)@, op).0);
                            assert(!spec_exec_op(old(self)@, op).1);
                        }
                    },
                    Err(f) => {
                        proof {
                            assert(spec_exec_op(old(self)@, op).1);
                        }
                        return Err(f);
                    },
                }
            },
            0xCB => {
                self.cy = 4;
                proof {
                    assert(self@ =~= spec_with_cy(old(self)@, 4));
                }
                let am = self.y();
                let am2 = self.direct();
                match self.mov(am, am2) {
                    Ok(()) => {
                        proof {
                            assert(self@ =~= spec_exec_op(old(self)@, op).0);
                            assert(!spec_exec_op(old(self)@, op).1);
                        }
                    },
                    Err(f) => {
                        proof {
                            assert(spec_exec_op(old(self)@, op).1);
                        }
                        return Err(f);
                    },
                }
            },
            0xCC => {
                self.cy = 5;
                proof {
                    assert(self@ =~= spec_with_cy(old(self)@, 5));
                }
                let am = self.y();
                let am2 = self.abs();
                match self.mov(am, am2) {
                    Ok(()) => {
                        proof {
                            assert(self@ =~= spec_exec_op(old(self)@, op).0);
                            assert(!spec_exec_op(old(self)@, op).1);
                        }
                    },
                    Err(f) => {
                        proof {
                            assert(spec_exec_op(old(self)@, op).1);
                        }
                        return Err(f);
                    },
                }
            },
            0xCD => {
                self.cy = 2;
                proof {
                    assert(self@ =~= spec_with_cy(old(self)@, 2));
                }
                let am = self.immediate();
                let am2 = self.x();
                match self.mov(am, am2) {
                    Ok(()) => {
                        proof {
                            assert(self@ =~= spec_exec_op(old(self)@, op).0);
                            assert(!spec_exec_op(old(self)@, op).1);
                        }
                    },
                    Err(f) => {
                        proof {
                            assert(spec_exec_op(old(self)@, op).1);
                        }
                        return Err(f);
                    },
                }
            },
            0xCF => {
                self.cy = 9;
                proof {
                    assert(self@ =~= spec_with_cy(old(self)@, 9));
                }
                self.mul();
                proof {
                    assert(self@ =~= spec_exec_op(old(self)@, op).0);
                }
            },
            _ => {
                self.ill();
                return Err(Fault::IllegalOpcode { op });
            },
        }
        Ok(self.cy)
    }

    #[verifier::rlimit(100)]
    #[verifier::spinoff_prover]
    fn exec_op_d0_df(&mut self, op: u8) -> (r: Result<u8, Fault>)
        requires
            old(self).wf(),
            0xD0 <= op < 0xE0,
        ensures
            final(self).wf(),
            !spec_implemented(op) <==> r == Err::<u8, Fault>(Fault::IllegalOpcode { op }),
            !spec_implemented(op) ==> *final(self) == *old(self),
            ((r matches Err(f) && f is TestRegister) <==> (spec_implemented(op) && spec_exec_op(
                old(self)@,
                op,
            ).1)),
            r matches Err(f) ==> (f is TestRegister || !spec_implemented(op)),
            r matches Ok(cy) ==> final(self)@ == spec_exec_op(old(self)@, op).0,
            r matches Ok(cy) ==> cy == spec_exec_op(old(self)@, op).0.cy,
            r matches Ok(cy) ==> cy == spec_base_cycles(op) || cy == spec_base_cycles(op) + 2,
            r matches Ok(cy) ==> 2 <= cy && cy <= 14,
    {
        proof {
            reveal(spec_exec_op);
        }
        match op {
            0xD0 => {
                self.cy = 2;
                proof {
                    assert(self@ =~= spec_with_cy(old(self)@, 2));
                }
                let am = self.rel();
                self.bne(am);
                proof {
                    assert(self@ =~= spec_exec_op(old(self)@, op).0);
                }
            },
            0xD3 => {
                self.cy = 5;
                proof {
                    assert(self@ =~= spec_with_cy(old(self)@, 5));
                }
                let am = self.direct();
                let am2 = self.rel();
                self.bbc(6, am, am2);
                proof {
                    assert(self@ =~= spec_exec_op(old(self)@, op).0);
                }
            },
            0xD5 => {
                self.cy = 6;
                proof {
                    assert(self@ =~= spec_with_cy(old(self)@, 6));
                }
                let am = self.a();
                let am2 = self.abs_indexed_x();
                match self.mov(am, am2) {
                    Ok(()) => {
                        proof {
                            assert(self@ =~= spec_exec_op(old(self)@, op).0);
                            assert(!spec_exec_op(old(self)@, op).1);
                        }
                    },
                    Err(f) => {
                        proof {
                            assert(spec_exec_op(old(self)@, op).1);
                        }
                        return Err(f);
                    },
                }
            },
            0xD6 => {
                self.cy = 6;
                proof {
                    assert(self@ =~= spec_with_cy(old(self)@, 6));
                }
                let am = self.a();
                let am2 = self.abs_indexed_y();
                match self.mov(am, am2) {
                    Ok(()) => {
                        proof {
                            assert(self@ =~= spec_exec_op(old(self)@, op).0);
                            assert(!spec_exec_op(old(self)@, op).1);
                        }
                    },
                    Err(f) => {
                        proof {
                            assert(spec_exec_op(old(self)@, op).1);
                        }
                        return Err(f);
                    },
                }
            },
            0xD7 => {
                self.cy = 7;
                proof {
                    assert(self@ =~= spec_with_cy(old(self)@, 7));
                }
                let am = self.a();
                let am2 = self.indirect_indexed();
                match self.mov(am, am2) {
                    Ok(()) => {
                        proof {
                            assert(self@ =~= spec_exec_op(old(self)@, op).0);
                            assert(!spec_exec_op(old(self)@, op).1);
                        }
                    },
                    Err(f) => {
                        proof {
                            assert(spec_exec_op(old(self)@, op).1);
                        }
                        return Err(f);
                    },
                }
            },
            0xDA => {
                self.cy = 5;
                proof {
                    assert(self@ =~= spec_with_cy(old(self)@, 5));
                }
                let am = self.direct();
                match self.movw_s(am) {
                    Ok(()) => {
                        proof {
                            assert(self@ =~= spec_exec_op(old(self)@, op).0);
                            assert(!spec_exec_op(old(self)@, op).1);
                        }
                    },
                    Err(f) => {
                        proof {
                            assert(spec_exec_op(old(self)@, op).1);
                        }
                        return Err(f);
                    },
                }
            },
            0xDB => {
                self.cy = 5;
                proof {
                    assert(self@ =~= spec_with_cy(old(self)@, 5));
                }
                let am = self.y();
                let am2 = self.indexed_indirect();
                match self.mov(am, am2) {
                    Ok(()) => {
                        proof {
                            assert(self@ =~= spec_exec_op(old(self)@, op).0);
                            assert(!spec_exec_op(old(self)@, op).1);
                        }
                    },
                    Err(f) => {
                        proof {
                            assert(spec_exec_op(old(self)@, op).1);
                        }
                        return Err(f);
                    },
                }
            },
            0xDD => {
                self.cy = 2;
                proof {
                    assert(self@ =~= spec_with_cy(old(self)@, 2));
                }
                let am = self.y();
                let am2 = self.a();
                match self.mov(am, am2) {
                    Ok(()) => {
                        proof {
                            assert(self@ =~= spec_exec_op(old(self)@, op).0);
                            assert(!spec_exec_op(old(self)@, op).1);
                        }
                    },
                    Err(f) => {
                        proof {
                            assert(spec_exec_op(old(self)@, op).1);
                        }
                        return Err(f);
                    },
                }
            },
            0xDE => {
                self.cy = 6;
                proof {
                    assert(self@ =~= spec_with_cy(old(self)@, 6));
                }
                let am = self.indexed_indirect();
                let am2 = self.rel();
                self.cbne(am, am2);
                proof {
                    assert(self@ =~= spec_exec_op(old(self)@, op).0);
                }
            },
            _ => {
                self.ill();
                return Err(Fault::IllegalOpcode { op });
            },
        }
        Ok(self.cy)
    }

    #[verifier::rlimit(100)]
    #[verifier::spinoff_prover]
    fn exec_op_e0_ef(&mut self, op: u8) -> (r: Result<u8, Fault>)
        requires
            old(self).wf(),
            0xE0 <= op < 0xF0,
        ensures
            final(self).wf(),
            !spec_implemented(op) <==> r == Err::<u8, Fault>(Fault::IllegalOpcode { op }),
            !spec_implemented(op) ==> *final(self) == *old(self),
            ((r matches Err(f) && f is TestRegister) <==> (spec_implemented(op) && spec_exec_op(
                old(self)@,
                op,
            ).1)),
            r matches Err(f) ==> (f is TestRegister || !spec_implemented(op)),
            r matches Ok(cy) ==> final(self)@ == spec_exec_op(old(self)@, op).0,
            r matches Ok(cy) ==> cy == spec_exec_op(old(self)@, op).0.cy,
            r matches Ok(cy) ==> cy == spec_base_cycles(op) || cy == spec_base_cycles(op) + 2,
            r matches Ok(cy) ==> 2 <= cy && cy <= 14,
    {
        proof {
            reveal(spec_exec_op);
        }
        match op {
            0xE4 => {
                self.cy = 3;
                proof {
                    assert(self@ =~= spec_with_cy(old(self)@, 3));
                }
                let am = self.direct();
                let am2 = self.a();
                match self.mov(am, am2) {
                    Ok(()) => {
                        proof {
                            assert(self@ =~= spec_exec_op(old(self)@, op).0);
                            assert(!spec_exec_op(old(self)@, op).1);
                        }
                    },
                    Err(f) => {
                        proof {
                            assert(spec_exec_op(old(self)@, op).1);
                        }
                        return Err(f);
                    },
                }
            },
            0xE5 => {
                self.cy = 4;
                proof {
                    assert(self@ =~= spec_with_cy(old(self)@, 4));
                }
                let am = self.abs();
                let am2 = self.a();
                match self.mov(am, am2) {
                    Ok(()) => {
                        proof {
                            assert(self@ =~= spec_exec_op(old(self)@, op).0);
                            assert(!spec_exec_op(old(self)@, op).1);
                        }
                    },
                    Err(f) => {
                        proof {
                            assert(spec_exec_op(old(self)@, op).1);
                        }
                        return Err(f);
                    },
                }
            },
            0xE6 => {
                self.cy = 3;
                proof {
                    assert(self@ =~= spec_with_cy(old(self)@, 3));
                }
                let am = self.indirect_x();
                let am2 = self.a();
                match self.mov(am, am2) {
                    Ok(()) => {
                        proof {
                            assert(self@ =~= spec_exec_op(old(self)@, op).0);
                            assert(!spec_exec_op(old(self)@, op).1);
                        }
                    },
                    Err(f) => {
                        proof {
                            assert(spec_exec_op(old(self)@, op).1);
                        }
                        return Err(f);
                    },
                }
            },
            0xE8 => {
                self.cy = 2;
                proof {
                    assert(self@ =~= spec_with_cy(old(self)@, 2));
                }
                let am = self.immediate();
                let am2 = self.a();
                match self.mov(am, am2) {
                    Ok(()) => {
                        proof {
                            assert(self@ =~= spec_exec_op(old(self)@, op).0);
                            assert(!spec_exec_op(old(self)@, op).1);
                        }
                    },
                    Err(f) => {
                        proof {
                            assert(spec_exec_op(old(self)@, op).1);
                        }
                        return Err(f);
                    },
                }
            },
            0xEB => {
                self.cy = 3;
                proof {
                    assert(self@ =~= spec_with_cy(old(self)@, 3));
                }
                let am = self.direct();
                let am2 = self.y();
                match self.mov(am, am2) {
                    Ok(()) => {
                        proof {
                            assert(self@ =~= spec_exec_op(old(self)@, op).0);
                            assert(!spec_exec_op(old(self)@, op).1);
                        }
                    },
                    Err(f) => {
                        proof {
                            assert(spec_exec_op(old(self)@, op).1);
                        }
                        return Err(f);
                    },
                }
            },
            0xEC => {
                self.cy = 4;
                proof {
                    assert(self@ =~= spec_with_cy(old(self)@, 4));
                }
                let am = self.abs();
                let am2 = self.y();
                match self.mov(am, am2) {
                    Ok(()) => {
                        proof {
                            assert(self@ =~= spec_exec_op(old(self)@, op).0);
                            assert(!spec_exec_op(old(self)@, op).1);
                        }
                    },
                    Err(f) => {
                        proof {
                            assert(spec_exec_op(old(self)@, op).1);
                        }
                        return Err(f);
                    },
                }
            },
            0xED => {
                self.cy = 3;
                proof {
                    assert(self@ =~= spec_with_cy(old(self)@, 3));
                }
                self.notc();
                proof {
                    assert(self@ =~= spec_exec_op(old(self)@, op).0);
                }
            },
            0xEE => {
                self.cy = 4;
                proof {
                    assert(self@ =~= spec_with_cy(old(self)@, 4));
                }
                let am = self.y();
                match self.pop(am) {
                    Ok(()) => {
                        proof {
                            assert(self@ =~= spec_exec_op(old(self)@, op).0);
                            assert(!spec_exec_op(old(self)@, op).1);
                        }
                    },
                    Err(f) => {
                        proof {
                            assert(spec_exec_op(old(self)@, op).1);
                        }
                        return Err(f);
                    },
                }
            },
            _ => {
                self.ill();
                return Err(Fault::IllegalOpcode { op });
            },
        }
        Ok(self.cy)
    }

    #[verifier::rlimit(100)]
    #[verifier::spinoff_prover]
    fn exec_op_f0_ff(&mut self, op: u8) -> (r: Result<u8, Fault>)
        requires
            old(self).wf(),
            0xF0 <= op < 0x100,
        ensures
            final(self).wf(),
            !spec_implemented(op) <==> r == Err::<u8, Fault>(Fault::IllegalOpcode { op }),
            !spec_implemented(op) ==> *final(self) == *old(self),
            ((r matches Err(f) && f is TestRegister) <==> (spec_implemented(op) && spec_exec_op(
                old(self)@,
                op,
            ).1)),
            r matches Err(f) ==> (f is TestRegister || !spec_implemented(op)),
            r matches Ok(cy) ==> final(self)@ == spec_exec_op(old(self)@, op).0,
            r matches Ok(cy) ==> cy == spec_exec_op(old(self)@, op).0.cy,
            r matches Ok(cy) ==> cy == spec_base_cycles(op) || cy == spec_base_cycles(op) + 2,
            r matches Ok(cy) ==> 2 <= cy && cy <= 14,
    {
        proof {
            reveal(spec_exec_op);
        }
        match op {
            0xF0 => {
                self.cy = 2;
                proof {
                    assert(self@ =~= spec_with_cy(old(self)@, 2));
                }
                let am = self.rel();
                self.beq(am);
                proof {
                    assert(self@ =~= spec_exec_op(old(self)@, op).0);
                }
            },
            0xF3 => {
                self.cy = 5;
                proof {
                    assert(self@ =~= spec_with_cy(old(self)@, 5));
                }
                let am = self.direct();
                let am2 = self.rel();
                self.bbc(7, am, am2);
                proof {
                    assert(self@ =~= spec_exec_op(old(self)@, op).0);
                }
            },
            0xF4 => {
                self.cy = 4;
                proof {
                    assert(self@ =~= spec_with_cy(old(self)@, 4));
                }
                let am = self.indexed_indirect();
                let am2 = self.a();
                match self.mov(am, am2) {
                    Ok(()) => {
                        proof {
                            assert(self@ =~= spec_exec_op(old(self)@, op).0);
                            assert(!spec_exec_op(old(self)@, op).1);
                        }
                    },
                    Err(f) => {
                        proof {
                            assert(spec_exec_op(old(self)@, op).1);
                        }
                        return Err(f);
                    },
                }
            },
            0xF5 => {
                self.cy = 5;
                proof {
                    assert(self@ =~= spec_with_cy(old(self)@, 5));
                }
                let am = self.abs_indexed_x();
                let am2 = self.a();
                match self.mov(am, am2) {
                    Ok(()) => {
                        proof {
                            assert(self@ =~= spec_exec_op(old(self)@, op).0);
                            assert(!spec_exec_op(old(self)@, op).1);
                        }
                    },
                    Err(f) => {
                        proof {
                            assert(spec_exec_op(old(self)@, op).1);
                        }
                        return Err(f);
                    },
                }
            },
            0xF6 => {
                self.cy = 5;
                proof {
                    assert(self@ =~= spec_with_cy(old(self)@, 5));
                }
                let am = self.abs_indexed_y();
                let am2 = self.a();
                match self.mov(am, am2) {
                    Ok(()) => {
                        proof {
                            assert(self@ =~= spec_exec_op(old(self)@, op).0);
                            assert(!spec_exec_op(old(self)@, op).1);
                        }
                    },
                    Err(f) => {
                        proof {
                            assert(spec_exec_op(old(self)@, op).1);
                        }
                        return Err(f);
                    },
                }
            },
            0xFC => {
                self.cy = 2;
                proof {
                    assert(self@ =~= spec_with_cy(old(self)@, 2));
                }
                let am = self.y();
                match self.inc(am) {
                    Ok(()) => {
                        proof {
                            assert(self@ =~= spec_exec_op(old(self)@, op).0);
                            assert(!spec_exec_op(old(self)@, op).1);
                        }
                    },
                    Err(f) => {
                        proof {
                            assert(spec_exec_op(old(self)@, op).1);
                        }
                        return Err(f);
                    },
                }
            },
            0xFD => {
                self.cy = 2;
                proof {
                    assert(self@ =~= spec_with_cy(old(self)@, 2));
                }
                let am = self.a();
                let am2 = self.y();
                match self.mov(am, am2) {
                    Ok(()) => {
                        proof {
                            assert(self@ =~= spec_exec_op(old(self)@, op).0);
                            assert(!spec_exec_op(old(self)@, op).1);
                        }
                    },
                    Err(f) => {
                        proof {
                            assert(spec_exec_op(old(self)@, op).1);
                        }
                        return Err(f);
                    },
                }
            },
            0xFE => {
                self.cy = 5;
                proof {
                    assert(self@ =~= spec_with_cy(old(self)@, 5));
                }
                let am = self.y();
                let am2 = self.rel();
                match self.dbnz(am, am2) {
                    Ok(()) => {
                        proof {
                            assert(self@ =~= spec_exec_op(old(self)@, op).0);
                            assert(!spec_exec_op(old(self)@, op).1);
                        }
                    },
                    Err(f) => {
                        proof {
                            assert(spec_exec_op(old(self)@, op).1);
                        }
                        return Err(f);
                    },
                }
            },
            _ => {
                self.ill();
                return Err(Fault::IllegalOpcode { op });
            },
        }
        Ok(self.cy)
    }

    /// Fetch, decode and execute one instruction and advance the timers by
    /// the cycles it consumed.
    ///
    /// The contract is the full transition: on success the machine is
    /// `spec_exec_op` of the fetched state followed by the timer advance,
    /// and the returned count is the opcode's base count plus 2 exactly when
    /// a conditional (or decrement/compare) branch was taken. An opcode
    /// outside the implemented table is a fatal emulation error and returns
    /// the illegal-opcode fault with only the fetch performed; a store of
    /// anything but 0x0A to the test register returns the test-register
    /// fault.
    pub fn dispatch(&mut self) -> (r: Result<u8, Fault>)
        requires
            old(self).wf(),
        ensures
            final(self).wf(),
            ({
                let op = spec_fetchb_val(old(self)@);
                let s1 = spec_fetchb_post(old(self)@);
                &&& (!spec_implemented(op) <==> r == Err::<u8, Fault>(
                    Fault::IllegalOpcode { op },
                ))
                &&& (!spec_implemented(op) ==> final(self)@ == s1)
                &&& ((r matches Err(f) && f is TestRegister) <==> (spec_implemented(op)
                    && spec_exec_op(s1, op).1))
                &&& (r matches Err(f) ==> (f is TestRegister || !spec_implemented(op)))
                &&& (r matches Ok(cy) ==> cy == spec_exec_op(s1, op).0.cy)
                &&& (r matches Ok(cy) ==> final(self)@ == spec_tick_timers(
                    spec_exec_op(s1, op).0,
                    cy,
                ))
                &&& (r matches Ok(cy) ==> cy == spec_base_cycles(op) || cy == spec_base_cycles(op)
                    + 2)
                &&& (r matches Ok(cy) ==> 2 <= cy && cy <= 14)
            }),
    {
        let op = self.fetchb();
        let res = if op < 0x10 {
            self.exec_op_00_0f(op)
        } else if op < 0x20 {
            self.exec_op_10_1f(op)
        } else if op < 0x30 {
            self.exec_op_20_2f(op)
        } else if op < 0x40 {
            self.exec_op_30_3f(op)
        } else if op < 0x50 {
            self.exec_op_40_4f(op)
        } else if op < 0x60 {
            self.exec_op_50_5f(op)
        } else if op < 0x70 {
            self.exec_op_60_6f(op)
        } else if op < 0x80 {
            self.exec_op_70_7f(op)
        } else if op < 0x90 {
            self.exec_op_80_8f(op)
        } else if op < 0xA0 {
            self.exec_op_90_9f(op)
        } else if op < 0xB0 {
            self.exec_op_a0_af(op)
        } else if op < 0xC0 {
            self.exec_op_b0_bf(op)
        } else if op < 0xD0 {
            self.exec_op_c0_cf(op)
        } else if op < 0xE0 {
            self.exec_op_d0_df(op)
        } else if op < 0xF0 {
            self.exec_op_e0_ef(op)
        } else {
            self.exec_op_f0_ff(op)
        };
        let cy = match res {
            Ok(cy) => cy,
            Err(f) => {
                return Err(f);
            },
        };
        let ghost mid = self@;
        self.tick_timers(cy);
        proof {
            assert(self@ == spec_tick_timers(mid, cy));
        }
        Ok(cy)
    }
}

} // verus!
