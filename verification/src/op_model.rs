//! State transitions of the individual instructions.
//!
//! Each handler of the dispatcher has a spec function here mapping the view
//! before the handler to the view after it. Handlers that can store through a
//! computed address can hit the fault of the test register at 0xF0; those
//! return the pair (state when no fault occurs, whether a fault occurs).

use vstd::prelude::*;
use vstd::wrapping::u8_specs;

use crate::addressing::AddressingMode;
use crate::spc_model::SpcView;
use crate::spc_model::spec_am_addr_post;
use crate::spc_model::spec_am_addr_val;
use crate::spc_model::spec_am_loadb_post;
use crate::spc_model::spec_am_loadb_val;
use crate::spc_model::spec_am_loadw_hi;
use crate::spc_model::spec_am_loadw_lo;
use crate::spc_model::spec_am_loadw_post;
use crate::spc_model::spec_am_storeb;
use crate::spc_model::spec_am_storeb_fault;
use crate::spc_model::spec_popb_post;
use crate::spc_model::spec_popb_val;
use crate::spc_model::spec_popw_post;
use crate::spc_model::spec_popw_val;
use crate::spc_model::spec_pushb;
use crate::spc_model::spec_pushw;
use crate::spc_model::spec_store;
use crate::spc_model::spec_store_fault;
use crate::status::CARRY_FLAG;
use crate::status::DIRECT_PAGE_FLAG;
use crate::status::HALF_CARRY_FLAG;
use crate::status::NEG_FLAG;
use crate::status::OVERFLOW_FLAG;
use crate::status::ZERO_FLAG;
use crate::status::spec_set_flag;
use crate::status::spec_set_nz;
use crate::timer::spec_update;

verus! {

// ---------------------------------------------------------------------------
// Stack and control flow
// ---------------------------------------------------------------------------

/// `push`: load through the mode and push the byte.
pub open spec fn spec_push(s: SpcView, am: AddressingMode) -> SpcView {
    let v = spec_am_loadb_val(s, am);
    spec_pushb(spec_am_loadb_post(s, am), v)
}

/// `pop`: pop a byte and store it through the mode.
pub open spec fn spec_pop(s: SpcView, dest: AddressingMode) -> (SpcView, bool) {
    let v = spec_popb_val(s);
    let s1 = spec_popb_post(s);
    (spec_am_storeb(s1, dest, v), spec_am_storeb_fault(s1, dest, v))
}

/// `ret`: pop the program counter.
pub open spec fn spec_ret(s: SpcView) -> SpcView {
    let pc = spec_popw_val(s);
    SpcView { pc, ..spec_popw_post(s) }
}

/// `call`: push the return address (high byte first) and jump.
pub open spec fn spec_call(s: SpcView, am: AddressingMode) -> SpcView {
    let a = spec_am_addr_val(s, am);
    let s1 = spec_am_addr_post(s, am);
    let s2 = spec_pushw(s1, s1.pc);
    SpcView { pc: a, ..s2 }
}

/// `clrp`: clear the direct-page flag.
pub open spec fn spec_clrp(s: SpcView) -> SpcView {
    SpcView { psw: spec_set_flag(s.psw, DIRECT_PAGE_FLAG, false), ..s }
}

/// `clrc`: clear carry.
pub open spec fn spec_clrc(s: SpcView) -> SpcView {
    SpcView { psw: spec_set_flag(s.psw, CARRY_FLAG, false), ..s }
}

/// `setc`: set carry.
pub open spec fn spec_setc(s: SpcView) -> SpcView {
    SpcView { psw: spec_set_flag(s.psw, CARRY_FLAG, true), ..s }
}

/// `notc`: complement carry.
pub open spec fn spec_notc(s: SpcView) -> SpcView {
    SpcView { psw: spec_set_flag(s.psw, CARRY_FLAG, s.psw & CARRY_FLAG == 0), ..s }
}

// ---------------------------------------------------------------------------
// Comparison, bit and branch instructions
// ---------------------------------------------------------------------------

/// `cmp`: subtract with wrap-around, set N and Z from the difference and C
/// from bit 7 of the difference (a deliberate quirk of this core's
/// comparison, which a borrow-based carry would negate).
pub open spec fn spec_cmp(s: SpcView, ama: AddressingMode, amb: AddressingMode) -> SpcView {
    let av = spec_am_loadb_val(s, ama);
    let s1 = spec_am_loadb_post(s, ama);
    let bv = spec_am_loadb_val(s1, amb);
    let s2 = spec_am_loadb_post(s1, amb);
    let diff = u8_specs::wrapping_sub(av, bv);
    SpcView {
        psw: spec_set_flag(spec_set_nz(s2.psw, diff), CARRY_FLAG, diff & 0x80 != 0),
        ..s2
    }
}

/// `set1`: set one bit of the operand; no flags.
pub open spec fn spec_set1(s: SpcView, bit: u8, am: AddressingMode) -> (SpcView, bool) {
    let v = spec_am_loadb_val(s, am);
    let s1 = spec_am_loadb_post(s, am);
    let res = v | (1u8 << bit);
    (spec_am_storeb(s1, am, res), spec_am_storeb_fault(s1, am, res))
}

/// Branch taken: jump and charge the two extra cycles.
pub open spec fn spec_take_branch(s: SpcView, target: u16) -> SpcView {
    SpcView { pc: target, cy: u8_specs::wrapping_add(s.cy, 2), ..s }
}

/// `bbc`-family: load the operand, compute the branch target, and branch
/// (with the +2 cycle charge) when the selected bit is set.
pub open spec fn spec_bbc(
    s: SpcView,
    bit: u8,
    valam: AddressingMode,
    addram: AddressingMode,
) -> SpcView {
    let v = spec_am_loadb_val(s, valam);
    let s1 = spec_am_loadb_post(s, valam);
    let a = spec_am_addr_val(s1, addram);
    let s2 = spec_am_addr_post(s1, addram);
    if v & (1u8 << bit) != 0 {
        spec_take_branch(s2, a)
    } else {
        s2
    }
}

/// `dbnz`: decrement the operand (stored back) and branch when the result
/// is zero (this core branches on zero, not on non-zero).
pub open spec fn spec_dbnz(
    s: SpcView,
    valam: AddressingMode,
    addram: AddressingMode,
) -> (SpcView, bool) {
    let v = spec_am_loadb_val(s, valam);
    let s1 = spec_am_loadb_post(s, valam);
    let a = spec_am_addr_val(s1, addram);
    let s2 = spec_am_addr_post(s1, addram);
    let res = u8_specs::wrapping_sub(v, 1);
    let s3 = spec_am_storeb(s2, valam, res);
    let fault = spec_am_storeb_fault(s2, valam, res);
    (if res == 0 { spec_take_branch(s3, a) } else { s3 }, fault)
}

/// `cbne`: branch when the operand differs from the accumulator.
pub open spec fn spec_cbne(s: SpcView, cmpam: AddressingMode, addram: AddressingMode) -> SpcView {
    let v = spec_am_loadb_val(s, cmpam);
    let s1 = spec_am_loadb_post(s, cmpam);
    let a = spec_am_addr_val(s1, addram);
    let s2 = spec_am_addr_post(s1, addram);
    if v != s2.a {
        spec_take_branch(s2, a)
    } else {
        s2
    }
}

/// `bra` and the unconditional jumps: set the program counter, no extra
/// cycles.
pub open spec fn spec_bra(s: SpcView, am: AddressingMode) -> SpcView {
    let a = spec_am_addr_val(s, am);
    SpcView { pc: a, ..spec_am_addr_post(s, am) }
}

/// A conditional branch on `cond`: branch taken adds exactly 2 cycles, not
/// taken adds none.
pub open spec fn spec_cond_branch(s: SpcView, am: AddressingMode, cond: bool) -> SpcView {
    let a = spec_am_addr_val(s, am);
    let s1 = spec_am_addr_post(s, am);
    if cond {
        spec_take_branch(s1, a)
    } else {
        s1
    }
}

/// `beq`: branch when Z is set.
pub open spec fn spec_beq(s: SpcView, am: AddressingMode) -> SpcView {
    spec_cond_branch(s, am, spec_am_addr_post(s, am).psw & ZERO_FLAG != 0)
}

/// `bne`: branch when Z is clear.
pub open spec fn spec_bne(s: SpcView, am: AddressingMode) -> SpcView {
    spec_cond_branch(s, am, spec_am_addr_post(s, am).psw & ZERO_FLAG == 0)
}

/// `bcs`: branch when C is set.
pub open spec fn spec_bcs(s: SpcView, am: AddressingMode) -> SpcView {
    spec_cond_branch(s, am, spec_am_addr_post(s, am).psw & CARRY_FLAG != 0)
}

/// `bcc`: branch when C is clear.
pub open spec fn spec_bcc(s: SpcView, am: AddressingMode) -> SpcView {
    spec_cond_branch(s, am, spec_am_addr_post(s, am).psw & CARRY_FLAG == 0)
}

/// `bmi`: branch when N is set.
pub open spec fn spec_bmi(s: SpcView, am: AddressingMode) -> SpcView {
    spec_cond_branch(s, am, spec_am_addr_post(s, am).psw & NEG_FLAG != 0)
}

/// `bpl`: branch when N is clear.
pub open spec fn spec_bpl(s: SpcView, am: AddressingMode) -> SpcView {
    spec_cond_branch(s, am, spec_am_addr_post(s, am).psw & NEG_FLAG == 0)
}

// ---------------------------------------------------------------------------
// Arithmetic and logic
// ---------------------------------------------------------------------------

/// `mul ya`: the 16-bit product of Y and A; Y takes the high byte (setting
/// N and Z from it), A the low byte.
pub open spec fn spec_mul(s: SpcView) -> SpcView {
    let res = (s.y as int * s.a as int) as u16;
    let hi = ((res >> 8) & 0xFF) as u8;
    let lo = (res & 0xFF) as u8;
    SpcView { y: hi, a: lo, psw: spec_set_nz(s.psw, hi), ..s }
}

/// The flag updates of `adc`: C is the carry out of bit 7, H the carry out of
/// bit 3, V the signed overflow, and N/Z follow the 8-bit result.
pub open spec fn spec_adc_psw(psw: u8, av: u8, bv: u8, c: u8, res8: u8) -> u8 {
    let p1 = spec_set_flag(psw, CARRY_FLAG, av as int + bv as int + c as int > 255);
    let half = ((av & 0x0F) as int + (bv & 0x0F) as int + c as int) as u8;
    let p2 = spec_set_flag(p1, HALF_CARRY_FLAG, half & 0xF0 != 0);
    let p3 = spec_set_flag(
        p2,
        OVERFLOW_FLAG,
        (av ^ bv) & 0x80 == 0 && (av ^ res8) & 0x80 == 0x80,
    );
    spec_set_nz(p3, res8)
}

/// `adc`: destination := destination + source + carry, with C, H, V, N, Z.
pub open spec fn spec_adc(s: SpcView, src: AddressingMode, dest: AddressingMode) -> (
    SpcView,
    bool,
) {
    let c: u8 = if s.psw & CARRY_FLAG != 0 { 1u8 } else { 0u8 };
    let av = spec_am_loadb_val(s, dest);
    let s1 = spec_am_loadb_post(s, dest);
    let bv = spec_am_loadb_val(s1, src);
    let s2 = spec_am_loadb_post(s1, src);
    let res8 = ((av as int + bv as int + c as int) % 256) as u8;
    let s3 = SpcView { psw: spec_adc_psw(s2.psw, av, bv, c, res8), ..s2 };
    (spec_am_storeb(s3, dest, res8), spec_am_storeb_fault(s3, dest, res8))
}

/// A bitwise instruction `l := l OP r`, setting N and Z: 0 selects AND, 1
/// selects OR, 2 selects EOR.
pub open spec fn spec_logic(s: SpcView, r: AddressingMode, l: AddressingMode, op: int) -> (
    SpcView,
    bool,
) {
    let rb = spec_am_loadb_val(s, r);
    let s1 = spec_am_loadb_post(s, r);
    let lb = spec_am_loadb_val(s1, l);
    let s2 = spec_am_loadb_post(s1, l);
    let res = if op == 0 {
        lb & rb
    } else if op == 1 {
        lb | rb
    } else {
        lb ^ rb
    };
    let s3 = SpcView { psw: spec_set_nz(s2.psw, res), ..s2 };
    (spec_am_storeb(s3, l, res), spec_am_storeb_fault(s3, l, res))
}

/// `asl`: shift left; C takes bit 7, N and Z follow the result.
pub open spec fn spec_asl(s: SpcView, am: AddressingMode) -> (SpcView, bool) {
    let v = spec_am_loadb_val(s, am);
    let s1 = spec_am_loadb_post(s, am);
    let res = v << 1;
    let psw = spec_set_nz(spec_set_flag(s1.psw, CARRY_FLAG, v & 0x80 != 0), res);
    let s2 = SpcView { psw, ..s1 };
    (spec_am_storeb(s2, am, res), spec_am_storeb_fault(s2, am, res))
}

/// `lsr`: shift right; C takes bit 0, N and Z follow the result.
pub open spec fn spec_lsr(s: SpcView, am: AddressingMode) -> (SpcView, bool) {
    let v = spec_am_loadb_val(s, am);
    let s1 = spec_am_loadb_post(s, am);
    let res = v >> 1;
    let psw = spec_set_nz(spec_set_flag(s1.psw, CARRY_FLAG, v & 0x01 != 0), res);
    let s2 = SpcView { psw, ..s1 };
    (spec_am_storeb(s2, am, res), spec_am_storeb_fault(s2, am, res))
}

/// `ror`: rotate right through carry; C takes bit 0, N and Z follow the
/// result, and the result is stored back to the operand.
pub open spec fn spec_ror(s: SpcView, am: AddressingMode) -> (SpcView, bool) {
    let v = spec_am_loadb_val(s, am);
    let s1 = spec_am_loadb_post(s, am);
    let c: u8 = if s1.psw & CARRY_FLAG != 0 { 0x80u8 } else { 0u8 };
    let res = (v >> 1) | c;
    let psw = spec_set_nz(spec_set_flag(s1.psw, CARRY_FLAG, v & 0x01 != 0), res);
    let s2 = SpcView { psw, ..s1 };
    (spec_am_storeb(s2, am, res), spec_am_storeb_fault(s2, am, res))
}

/// `dec`: decrement the operand with wrap; N and Z follow the result.
pub open spec fn spec_dec(s: SpcView, am: AddressingMode) -> (SpcView, bool) {
    let v = spec_am_loadb_val(s, am);
    let s1 = spec_am_loadb_post(s, am);
    let res = u8_specs::wrapping_sub(v, 1);
    let s2 = SpcView { psw: spec_set_nz(s1.psw, res), ..s1 };
    (spec_am_storeb(s2, am, res), spec_am_storeb_fault(s2, am, res))
}

/// `inc`: increment the operand with wrap; N and Z follow the result.
pub open spec fn spec_inc(s: SpcView, am: AddressingMode) -> (SpcView, bool) {
    let v = spec_am_loadb_val(s, am);
    let s1 = spec_am_loadb_post(s, am);
    let res = u8_specs::wrapping_add(v, 1);
    let s2 = SpcView { psw: spec_set_nz(s1.psw, res), ..s1 };
    (spec_am_storeb(s2, am, res), spec_am_storeb_fault(s2, am, res))
}

// ---------------------------------------------------------------------------
// Moves
// ---------------------------------------------------------------------------

/// `mov (X++), A`: store A at the address X names, then increment X; no
/// flags.
pub open spec fn spec_mov_xinc(s: SpcView) -> (SpcView, bool) {
    let s1 = spec_store(s, s.x as u16, s.a);
    (
        SpcView { x: u8_specs::wrapping_add(s1.x, 1), ..s1 },
        spec_store_fault(s.x as u16, s.a),
    )
}

/// `movw ya, {mode}`: word load into Y (high, setting N and Z) and A (low).
pub open spec fn spec_movw_l(s: SpcView, am: AddressingMode) -> SpcView {
    let lo = spec_am_loadw_lo(s, am);
    let hi = spec_am_loadw_hi(s, am);
    let s1 = spec_am_loadw_post(s, am);
    SpcView { y: hi, a: lo, psw: spec_set_nz(s1.psw, hi), ..s1 }
}

/// `movw {mode}, ya`: a dummy byte load, then A to the address and Y to the
/// next one; no flags.
pub open spec fn spec_movw_s(s: SpcView, am: AddressingMode) -> (SpcView, bool) {
    let a = s.a;
    let y = s.y;
    let s1 = spec_am_loadb_post(s, am);
    let addr = spec_am_addr_val(s1, am);
    let s2 = spec_am_addr_post(s1, am);
    let addr_hi = vstd::wrapping::u16_specs::wrapping_add(addr, 1);
    let s3 = spec_store(s2, addr, a);
    let fault = spec_store_fault(addr, a) || spec_store_fault(addr_hi, y);
    (spec_store(s3, addr_hi, y), fault)
}

/// `mov`: copy a byte from source to destination; flags only when the
/// destination is a register.
pub open spec fn spec_mov(s: SpcView, src: AddressingMode, dest: AddressingMode) -> (
    SpcView,
    bool,
) {
    let v = spec_am_loadb_val(s, src);
    let s1 = spec_am_loadb_post(s, src);
    (spec_am_storeb(s1, dest, v), spec_am_storeb_fault(s1, dest, v))
}

/// `mov sp, x`; no flags.
pub open spec fn spec_mov_sp_x(s: SpcView) -> SpcView {
    SpcView { sp: s.x, ..s }
}

// ---------------------------------------------------------------------------
// Timers at the end of a dispatch
// ---------------------------------------------------------------------------

/// Base cycle count of an implemented opcode; 0 marks the opcodes outside
/// the implemented table. Taken conditional branches and taken
/// decrement/compare branches add 2 on top of the base count.
pub open spec fn spec_base_cycles(op: u8) -> u8 {
    match op {
        // processor status
        0x20 => 2,  // clrp
        0x60 => 2,  // clrc
        0x80 => 2,  // setc
        0xED => 3,  // notc
        // arithmetic
        0x1D => 2,  // dec x
        0xBC => 2,  // inc a
        0x3D => 2,  // inc x
        0xFC => 2,  // inc y
        0xAB => 4,  // inc direct
        0xAC => 5,  // inc abs
        0x28 => 2,  // and a, #imm
        0x08 => 2,  // or a, #imm
        0x48 => 2,  // eor a, #imm
        0x44 => 3,  // eor a, direct
        0x1C => 2,  // asl a
        0x5C => 2,  // lsr a
        0x6B => 4,  // ror direct
        0x88 => 2,  // adc a, #imm
        0x84 => 3,  // adc a, direct
        0xCF => 9,  // mul ya
        // comparisons
        0x78 => 5,  // cmp direct, #imm
        0x64 => 3,  // cmp a, direct
        0x7E => 3,  // cmp y, direct
        0x69 => 6,  // cmp direct, direct
        0x68 => 2,  // cmp a, #imm
        0xC8 => 2,  // cmp x, #imm
        0xAD => 2,  // cmp y, #imm
        0x5E => 4,  // cmp y, abs
        0x75 => 5,  // cmp a, abs+x
        // branches and control flow
        0xDE => 6,  // cbne
        0xFE => 5,  // dbnz y
        0xA2 => 4,  // set1 direct.0
        0x13 => 5,  // bbc direct.0
        0x33 => 5,  // bbc direct.1
        0x53 => 5,  // bbc direct.2
        0x73 => 5,  // bbc direct.3
        0x93 => 5,  // bbc direct.4
        0xB3 => 5,  // bbc direct.5
        0xD3 => 5,  // bbc direct.6
        0xF3 => 5,  // bbc direct.7
        0x5F => 3,  // jmp abs
        0x1F => 6,  // jmp (abs+x)
        0x2F => 4,  // bra rel
        0xF0 => 2,  // beq
        0xD0 => 2,  // bne
        0xB0 => 2,  // bcs
        0x90 => 2,  // bcc
        0x30 => 2,  // bmi
        0x10 => 2,  // bpl
        0x3F => 8,  // call abs
        0x6F => 5,  // ret
        // stack
        0x2D => 4,  // push a
        0x4D => 4,  // push x
        0x6D => 4,  // push y
        0xEE => 4,  // pop y
        // moves
        0x8F => 5,  // mov direct, #imm
        0xE8 => 2,  // mov a, #imm
        0xCD => 2,  // mov x, #imm
        0x8D => 2,  // mov y, #imm
        0x5D => 2,  // mov x, a
        0xFD => 2,  // mov y, a
        0xC4 => 4,  // mov direct, a
        0xC5 => 5,  // mov abs, a
        0xD5 => 6,  // mov abs+x, a
        0xD6 => 6,  // mov abs+y, a
        0xC6 => 4,  // mov (x), a
        0xD7 => 7,  // mov (direct)+y, a
        0x7D => 2,  // mov a, x
        0xC9 => 5,  // mov abs, x
        0xDD => 2,  // mov a, y
        0xCB => 4,  // mov direct, y
        0xCC => 5,  // mov abs, y
        0xDB => 5,  // mov (direct+x), y
        0xE4 => 3,  // mov a, direct
        0xEB => 3,  // mov y, direct
        0xE6 => 3,  // mov a, (x)
        0xE5 => 4,  // mov a, abs
        0xEC => 4,  // mov y, abs
        0xF5 => 5,  // mov a, abs+x
        0xF6 => 5,  // mov a, abs+y
        0xF4 => 4,  // mov a, (direct+x)
        0xBA => 5,  // movw ya, direct
        0xDA => 5,  // movw direct, ya
        0xBD => 2,  // mov sp, x
        0xAF => 4,  // mov (x++), a
        _ => 0,
    }
}

/// Whether the opcode is in the implemented table.
pub open spec fn spec_implemented(op: u8) -> bool {
    spec_base_cycles(op) != 0
}

/// Advance the three timers by the cycle count of the executed instruction.
pub open spec fn spec_tick_timers(s: SpcView, cy: u8) -> SpcView {
    SpcView {
        t0: spec_update(s.t0, 128, cy),
        t1: spec_update(s.t1, 128, cy),
        t2: spec_update(s.t2, 16, cy),
        ..s
    }
}

} // verus!
