//! Mathematical model of the audio coprocessor.
//!
//! `SpcView` is the abstract state of the core: the 64 KiB RAM and the DSP
//! register file as sequences, the mailbox bytes written by the main CPU, the
//! three timers and the CPU registers. Every executable operation of the core
//! has a spec function here that maps the view before the operation to the
//! view after it; the executable contracts state exact agreement with these
//! functions.

use vstd::prelude::*;
use vstd::wrapping::u16_specs;
use vstd::wrapping::u8_specs;

use crate::addressing::AddressingMode;
use crate::status::DIRECT_PAGE_FLAG;
use crate::status::spec_set_nz;
use crate::timer::Timer;
use crate::timer::spec_set_enable;

verus! {

/// Abstract state of the audio coprocessor.
#[verifier::ext_equal]
pub struct SpcView {
    /// The 64 KiB RAM (not the address space: I/O registers shadow 0xF0-0xFF).
    pub mem: Seq<u8>,
    /// DSP address latch at 0xF2.
    pub dsp_addr: u8,
    /// Inbound mailbox: bytes the main CPU wrote to ports 0-3.
    pub io_vals: Seq<u8>,
    /// The DSP register file seen through 0xF2/0xF3.
    pub dsp: Seq<u8>,
    /// Timer 0 (period 128).
    pub t0: Timer,
    /// Timer 1 (period 128).
    pub t1: Timer,
    /// Timer 2 (period 16).
    pub t2: Timer,
    pub a: u8,
    pub x: u8,
    pub y: u8,
    pub sp: u8,
    pub pc: u16,
    /// The status word (as its raw byte).
    pub psw: u8,
    /// Cycles consumed by the instruction currently dispatched.
    pub cy: u8,
}

/// Well-formedness: the backing stores have their fixed sizes and each timer
/// accumulator sits below its period.
pub open spec fn spec_wf(s: SpcView) -> bool {
    &&& s.mem.len() == 0x10000
    &&& s.io_vals.len() == 4
    &&& s.dsp.len() == 256
    &&& s.t0.acc < 128
    &&& s.t1.acc < 128
    &&& s.t2.acc < 16
}

/// A 16-bit word from its little-endian halves.
pub open spec fn spec_word(lo: u8, hi: u8) -> u16 {
    ((hi as u16) << 8) | (lo as u16)
}

/// The signed reinterpretation of an offset byte.
pub open spec fn spec_as_i8(b: u8) -> i8 {
    if b < 128 {
        b as i8
    } else {
        (b - 256) as i8
    }
}

// ---------------------------------------------------------------------------
// Loads and stores through the coprocessor's address space
// ---------------------------------------------------------------------------

/// The byte a load from `addr` returns. Reads of the write-only registers
/// (0xF0, 0xF1, 0xFA-0xFC) are undefined on hardware and return 0 here.
pub open spec fn spec_load_val(s: SpcView, addr: u16) -> u8 {
    if addr == 0xF0 || addr == 0xF1 || (0xFA <= addr && addr <= 0xFC) {
        0
    } else if addr == 0xF2 {
        s.dsp_addr
    } else if addr == 0xF3 {
        s.dsp[s.dsp_addr as int]
    } else if 0xF4 <= addr && addr <= 0xF7 {
        s.io_vals[addr - 0xF4]
    } else if addr == 0xFD {
        s.t0.val
    } else if addr == 0xFE {
        s.t1.val
    } else if addr == 0xFF {
        s.t2.val
    } else {
        s.mem[addr as int]
    }
}

/// The state after a load from `addr`: reading a timer output register
/// atomically clears that timer's output nibble; everything else is pure.
pub open spec fn spec_load_post(s: SpcView, addr: u16) -> SpcView {
    if addr == 0xFD {
        SpcView { t0: Timer { val: 0, ..s.t0 }, ..s }
    } else if addr == 0xFE {
        SpcView { t1: Timer { val: 0, ..s.t1 }, ..s }
    } else if addr == 0xFF {
        SpcView { t2: Timer { val: 0, ..s.t2 }, ..s }
    } else {
        s
    }
}

/// Whether a store faults: the test register at 0xF0 accepts only 0x0A.
pub open spec fn spec_store_fault(addr: u16, val: u8) -> bool {
    addr == 0xF0 && val != 0x0A
}

/// The state after a non-faulting store of `val` to `addr`.
///
/// 0xF1 is the control register: bits 0-2 enable the timers (a rising edge
/// resets a timer's internal state), bit 4 clears mailbox bytes 0-1, bit 5
/// clears mailbox bytes 2-3. Stores to 0xF4-0xF9 land in RAM (0xF4-0xF7 is
/// the outbound mailbox). Stores to the read-only timer outputs are ignored.
pub open spec fn spec_store(s: SpcView, addr: u16, val: u8) -> SpcView {
    if addr == 0xF0 {
        s
    } else if addr == 0xF1 {
        let io1 = if val & 0x10 != 0 {
            s.io_vals.update(0, 0u8).update(1, 0u8)
        } else {
            s.io_vals
        };
        let io2 = if val & 0x20 != 0 {
            io1.update(2, 0u8).update(3, 0u8)
        } else {
            io1
        };
        SpcView {
            t0: spec_set_enable(s.t0, val & 0x01 != 0),
            t1: spec_set_enable(s.t1, val & 0x02 != 0),
            t2: spec_set_enable(s.t2, val & 0x04 != 0),
            io_vals: io2,
            ..s
        }
    } else if addr == 0xF2 {
        SpcView { dsp_addr: val, ..s }
    } else if addr == 0xF3 {
        SpcView { dsp: s.dsp.update(s.dsp_addr as int, val), ..s }
    } else if addr == 0xFA {
        SpcView { t0: Timer { div: val, ..s.t0 }, ..s }
    } else if addr == 0xFB {
        SpcView { t1: Timer { div: val, ..s.t1 }, ..s }
    } else if addr == 0xFC {
        SpcView { t2: Timer { div: val, ..s.t2 }, ..s }
    } else if 0xFD <= addr && addr <= 0xFF {
        s
    } else {
        SpcView { mem: s.mem.update(addr as int, val), ..s }
    }
}

/// Value of a little-endian word load at `addr` (the second byte comes from
/// the state after the first load).
pub open spec fn spec_loadw_val(s: SpcView, addr: u16) -> u16 {
    let lo = spec_load_val(s, addr);
    let s1 = spec_load_post(s, addr);
    let hi = spec_load_val(s1, u16_specs::wrapping_add(addr, 1));
    spec_word(lo, hi)
}

/// State after a little-endian word load at `addr`.
pub open spec fn spec_loadw_post(s: SpcView, addr: u16) -> SpcView {
    spec_load_post(spec_load_post(s, addr), u16_specs::wrapping_add(addr, 1))
}

// ---------------------------------------------------------------------------
// Instruction stream
// ---------------------------------------------------------------------------

/// The byte fetched at the program counter.
pub open spec fn spec_fetchb_val(s: SpcView) -> u8 {
    spec_load_val(s, s.pc)
}

/// State after one fetch: the load's effect, and the program counter one past
/// the fetched byte.
pub open spec fn spec_fetchb_post(s: SpcView) -> SpcView {
    SpcView { pc: u16_specs::wrapping_add(s.pc, 1), ..spec_load_post(s, s.pc) }
}

/// The little-endian word fetched at the program counter.
pub open spec fn spec_fetchw_val(s: SpcView) -> u16 {
    spec_word(spec_fetchb_val(s), spec_fetchb_val(spec_fetchb_post(s)))
}

/// State after a two-byte fetch.
pub open spec fn spec_fetchw_post(s: SpcView) -> SpcView {
    spec_fetchb_post(spec_fetchb_post(s))
}

// ---------------------------------------------------------------------------
// Addressing modes
// ---------------------------------------------------------------------------

/// Base of the direct page selected by the status word.
pub open spec fn spec_direct_base(s: SpcView) -> u16 {
    if s.psw & DIRECT_PAGE_FLAG != 0 {
        0x0100
    } else {
        0
    }
}

/// Effective address of an addressing mode (0 for the modes that have none).
pub open spec fn spec_am_addr_val(s: SpcView, am: AddressingMode) -> u16 {
    match am {
        AddressingMode::Direct(d) => spec_direct_base(s) | (d as u16),
        AddressingMode::IndirectX => spec_direct_base(s) | (s.x as u16),
        AddressingMode::IndirectIndexed(d) => u16_specs::wrapping_add(
            spec_loadw_val(s, spec_direct_base(s) | (d as u16)),
            s.y as u16,
        ),
        AddressingMode::IndexedIndirect(d) => spec_loadw_val(
            s,
            spec_direct_base(s) | (u8_specs::wrapping_add(d, s.x) as u16),
        ),
        AddressingMode::AbsIndexedIndirect(w) => spec_loadw_val(
            s,
            u16_specs::wrapping_add(w, s.x as u16),
        ),
        AddressingMode::Abs(w) => w,
        AddressingMode::AbsIndexedX(w) => u16_specs::wrapping_add(w, s.x as u16),
        AddressingMode::AbsIndexedY(w) => u16_specs::wrapping_add(w, s.y as u16),
        AddressingMode::Rel(i) => u16_specs::wrapping_add_signed(s.pc, i as i16),
        AddressingMode::Immediate(_) => 0,
        AddressingMode::A => 0,
        AddressingMode::X => 0,
        AddressingMode::Y => 0,
    }
}

/// State after the effective address is computed: the indirect modes load a
/// word pointer and inherit that load's effect.
pub open spec fn spec_am_addr_post(s: SpcView, am: AddressingMode) -> SpcView {
    match am {
        AddressingMode::IndirectIndexed(d) => spec_loadw_post(
            s,
            spec_direct_base(s) | (d as u16),
        ),
        AddressingMode::IndexedIndirect(d) => spec_loadw_post(
            s,
            spec_direct_base(s) | (u8_specs::wrapping_add(d, s.x) as u16),
        ),
        AddressingMode::AbsIndexedIndirect(w) => spec_loadw_post(
            s,
            u16_specs::wrapping_add(w, s.x as u16),
        ),
        _ => s,
    }
}

/// The byte a load through the mode yields.
pub open spec fn spec_am_loadb_val(s: SpcView, am: AddressingMode) -> u8 {
    match am {
        AddressingMode::A => s.a,
        AddressingMode::X => s.x,
        AddressingMode::Y => s.y,
        AddressingMode::Immediate(b) => b,
        _ => spec_load_val(spec_am_addr_post(s, am), spec_am_addr_val(s, am)),
    }
}

/// State after a load through the mode.
pub open spec fn spec_am_loadb_post(s: SpcView, am: AddressingMode) -> SpcView {
    match am {
        AddressingMode::A => s,
        AddressingMode::X => s,
        AddressingMode::Y => s,
        AddressingMode::Immediate(_) => s,
        _ => spec_load_post(spec_am_addr_post(s, am), spec_am_addr_val(s, am)),
    }
}

/// Whether a store of `val` through the mode faults.
pub open spec fn spec_am_storeb_fault(s: SpcView, am: AddressingMode, val: u8) -> bool {
    match am {
        AddressingMode::A => false,
        AddressingMode::X => false,
        AddressingMode::Y => false,
        AddressingMode::Immediate(_) => false,
        _ => spec_store_fault(spec_am_addr_val(s, am), val),
    }
}

/// State after a store through the mode. A store into a register also
/// refreshes N and Z from the stored value (moves into registers always set
/// the flags); a store into memory sets no flags.
pub open spec fn spec_am_storeb(s: SpcView, am: AddressingMode, val: u8) -> SpcView {
    match am {
        AddressingMode::A => SpcView { a: val, psw: spec_set_nz(s.psw, val), ..s },
        AddressingMode::X => SpcView { x: val, psw: spec_set_nz(s.psw, val), ..s },
        AddressingMode::Y => SpcView { y: val, psw: spec_set_nz(s.psw, val), ..s },
        AddressingMode::Immediate(_) => s,
        _ => spec_store(spec_am_addr_post(s, am), spec_am_addr_val(s, am), val),
    }
}

/// Low byte of a word load through the mode.
pub open spec fn spec_am_loadw_lo(s: SpcView, am: AddressingMode) -> u8 {
    spec_load_val(spec_am_addr_post(s, am), spec_am_addr_val(s, am))
}

/// High byte of a word load through the mode.
pub open spec fn spec_am_loadw_hi(s: SpcView, am: AddressingMode) -> u8 {
    let a = spec_am_addr_val(s, am);
    let s1 = spec_load_post(spec_am_addr_post(s, am), a);
    spec_load_val(s1, u16_specs::wrapping_add(a, 1))
}

/// State after a word load through the mode.
pub open spec fn spec_am_loadw_post(s: SpcView, am: AddressingMode) -> SpcView {
    let a = spec_am_addr_val(s, am);
    spec_loadw_post(spec_am_addr_post(s, am), a)
}

// ---------------------------------------------------------------------------
// Stack
// ---------------------------------------------------------------------------

/// Push one byte: store at 0x0100 | SP, then decrement SP (wrapping).
pub open spec fn spec_pushb(s: SpcView, b: u8) -> SpcView {
    let s1 = spec_store(s, 0x0100 | (s.sp as u16), b);
    SpcView { sp: u8_specs::wrapping_sub(s1.sp, 1), ..s1 }
}

/// Push a word: high byte first, then the low byte.
pub open spec fn spec_pushw(s: SpcView, w: u16) -> SpcView {
    spec_pushb(spec_pushb(s, ((w >> 8) & 0xFF) as u8), (w & 0xFF) as u8)
}

/// Value a pop returns: SP is incremented before the load.
pub open spec fn spec_popb_val(s: SpcView) -> u8 {
    let sp2 = u8_specs::wrapping_add(s.sp, 1);
    spec_load_val(s, 0x0100 | (sp2 as u16))
}

/// State after a pop.
pub open spec fn spec_popb_post(s: SpcView) -> SpcView {
    let sp2 = u8_specs::wrapping_add(s.sp, 1);
    SpcView { sp: sp2, ..spec_load_post(s, 0x0100 | (sp2 as u16)) }
}

/// Value of a word pop: low byte first, then the high byte.
pub open spec fn spec_popw_val(s: SpcView) -> u16 {
    spec_word(spec_popb_val(s), spec_popb_val(spec_popb_post(s)))
}

/// State after a word pop.
pub open spec fn spec_popw_post(s: SpcView) -> SpcView {
    spec_popb_post(spec_popb_post(s))
}

} // verus!
