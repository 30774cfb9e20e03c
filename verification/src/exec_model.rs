//! The spec-level dispatcher: one fetched opcode as a state transition.
//!
//! `spec_exec_op` composes the operand fetches and the instruction's
//! transition function from `op_model` exactly as the executable dispatcher
//! does, arm for arm: the cycle counter is set to the opcode's base count,
//! the addressing modes fetch their operand bytes from the instruction
//! stream, and the handler's transition runs last. The pair returned is the
//! state after the instruction (before the timers advance; its `cy` field
//! holds the consumed cycle count, base plus 2 for a taken branch) and
//! whether the instruction faults on the test register at 0xF0.

use vstd::prelude::*;

use crate::addressing::AddressingMode;
use crate::op_model::spec_adc;
use crate::op_model::spec_asl;
use crate::op_model::spec_bbc;
use crate::op_model::spec_bcc;
use crate::op_model::spec_bcs;
use crate::op_model::spec_beq;
use crate::op_model::spec_bmi;
use crate::op_model::spec_bne;
use crate::op_model::spec_bpl;
use crate::op_model::spec_bra;
use crate::op_model::spec_call;
use crate::op_model::spec_cbne;
use crate::op_model::spec_clrc;
use crate::op_model::spec_clrp;
use crate::op_model::spec_cmp;
use crate::op_model::spec_dbnz;
use crate::op_model::spec_dec;
use crate::op_model::spec_inc;
use crate::op_model::spec_logic;
use crate::op_model::spec_lsr;
use crate::op_model::spec_mov;
use crate::op_model::spec_mov_sp_x;
use crate::op_model::spec_mov_xinc;
use crate::op_model::spec_movw_l;
use crate::op_model::spec_movw_s;
use crate::op_model::spec_mul;
use crate::op_model::spec_notc;
use crate::op_model::spec_pop;
use crate::op_model::spec_push;
use crate::op_model::spec_ret;
use crate::op_model::spec_ror;
use crate::op_model::spec_set1;
use crate::op_model::spec_setc;
use crate::spc_model::SpcView;
use crate::spc_model::spec_as_i8;
use crate::spc_model::spec_fetchb_post;
use crate::spc_model::spec_fetchb_val;
use crate::spc_model::spec_fetchw_post;
use crate::spc_model::spec_fetchw_val;

verus! {

/// The state with the cycle counter set to an opcode's base count.
pub open spec fn spec_with_cy(s: SpcView, cy: u8) -> SpcView {
    SpcView { cy, ..s }
}

/// The transition of one already-fetched opcode: the state after the
/// instruction's work (its `cy` field is the consumed cycle count) and
/// whether the instruction faults. Opcodes outside the implemented table
/// map to the identity; the dispatcher never consults them.
#[verifier::opaque]
pub open spec fn spec_exec_op(s: SpcView, op: u8) -> (SpcView, bool) {
    match op {
        0x08 => {
            let s0 = spec_with_cy(s, 2);
            let b0 = spec_fetchb_val(s0);
            let s1 = spec_fetchb_post(s0);
            let am1 = AddressingMode::Immediate(b0);
            let am2 = AddressingMode::A;
            spec_logic(s1, am1, am2, 1)
        },
        0x10 => {
            let s0 = spec_with_cy(s, 2);
            let b0 = spec_fetchb_val(s0);
            let s1 = spec_fetchb_post(s0);
            let am1 = AddressingMode::Rel(spec_as_i8(b0));
            (spec_bpl(s1, am1), false)
        },
        0x13 => {
            let s0 = spec_with_cy(s, 5);
            let b0 = spec_fetchb_val(s0);
            let s1 = spec_fetchb_post(s0);
            let am1 = AddressingMode::Direct(b0);
            let b1 = spec_fetchb_val(s1);
            let s2 = spec_fetchb_post(s1);
            let am2 = AddressingMode::Rel(spec_as_i8(b1));
            (spec_bbc(s2, 0, am1, am2), false)
        },
        0x1C => {
            let s0 = spec_with_cy(s, 2);
            let am1 = AddressingMode::A;
            spec_asl(s0, am1)
        },
        0x1D => {
            let s0 = spec_with_cy(s, 2);
            let am1 = AddressingMode::X;
            spec_dec(s0, am1)
        },
        0x1F => {
            let s0 = spec_with_cy(s, 6);
            let w0 = spec_fetchw_val(s0);
            let s1 = spec_fetchw_post(s0);
            let am1 = AddressingMode::AbsIndexedIndirect(w0);
            (spec_bra(s1, am1), false)
        },
        0x20 => {
            let s0 = spec_with_cy(s, 2);
            (spec_clrp(s0), false)
        },
        0x28 => {
            let s0 = spec_with_cy(s, 2);
            let b0 = spec_fetchb_val(s0);
            let s1 = spec_fetchb_post(s0);
            let am1 = AddressingMode::Immediate(b0);
            let am2 = AddressingMode::A;
            spec_logic(s1, am1, am2, 0)
        },
        0x2D => {
            let s0 = spec_with_cy(s, 4);
            let am1 = AddressingMode::A;
            (spec_push(s0, am1), false)
        },
        0x2F => {
            let s0 = spec_with_cy(s, 4);
            let b0 = spec_fetchb_val(s0);
            let s1 = spec_fetchb_post(s0);
            let am1 = AddressingMode::Rel(spec_as_i8(b0));
            (spec_bra(s1, am1), false)
        },
        0x30 => {
            let s0 = spec_with_cy(s, 2);
            let b0 = spec_fetchb_val(s0);
            let s1 = spec_fetchb_post(s0);
            let am1 = AddressingMode::Rel(spec_as_i8(b0));
            (spec_bmi(s1, am1), false)
        },
        0x33 => {
            let s0 = spec_with_cy(s, 5);
            let b0 = spec_fetchb_val(s0);
            let s1 = spec_fetchb_post(s0);
            let am1 = AddressingMode::Direct(b0);
            let b1 = spec_fetchb_val(s1);
            let s2 = spec_fetchb_post(s1);
            let am2 = AddressingMode::Rel(spec_as_i8(b1));
            (spec_bbc(s2, 1, am1, am2), false)
        },
        0x3D => {
            let s0 = spec_with_cy(s, 2);
            let am1 = AddressingMode::X;
            spec_inc(s0, am1)
        },
        0x3F => {
            let s0 = spec_with_cy(s, 8);
            let w0 = spec_fetchw_val(s0);
            let s1 = spec_fetchw_post(s0);
            let am1 = AddressingMode::Abs(w0);
            (spec_call(s1, am1), false)
        },
        0x44 => {
            let s0 = spec_with_cy(s, 3);
            let b0 = spec_fetchb_val(s0);
            let s1 = spec_fetchb_post(s0);
            let am1 = AddressingMode::Direct(b0);
            let am2 = AddressingMode::A;
            spec_logic(s1, am1, am2, 2)
        },
        0x48 => {
            let s0 = spec_with_cy(s, 2);
            let b0 = spec_fetchb_val(s0);
            let s1 = spec_fetchb_post(s0);
            let am1 = AddressingMode::Immediate(b0);
            let am2 = AddressingMode::A;
            spec_logic(s1, am1, am2, 2)
        },
        0x4D => {
            let s0 = spec_with_cy(s, 4);
            let am1 = AddressingMode::X;
            (spec_push(s0, am1), false)
        },
        0x53 => {
            let s0 = spec_with_cy(s, 5);
            let b0 = spec_fetchb_val(s0);
            let s1 = spec_fetchb_post(s0);
            let am1 = AddressingMode::Direct(b0);
            let b1 = spec_fetchb_val(s1);
            let s2 = spec_fetchb_post(s1);
            let am2 = AddressingMode::Rel(spec_as_i8(b1));
            (spec_bbc(s2, 2, am1, am2), false)
        },
        0x5C => {
            let s0 = spec_with_cy(s, 2);
            let am1 = AddressingMode::A;
            spec_lsr(s0, am1)
        },
        0x5D => {
            let s0 = spec_with_cy(s, 2);
            let am1 = AddressingMode::A;
            let am2 = AddressingMode::X;
            spec_mov(s0, am1, am2)
        },
        0x5E => {
            let s0 = spec_with_cy(s, 4);
            let w0 = spec_fetchw_val(s0);
            let s1 = spec_fetchw_post(s0);
            let am1 = AddressingMode::Abs(w0);
            let am2 = AddressingMode::Y;
            (spec_cmp(s1, am1, am2), false)
        },
        0x5F => {
            let s0 = spec_with_cy(s, 3);
            let w0 = spec_fetchw_val(s0);
            let s1 = spec_fetchw_post(s0);
            let am1 = AddressingMode::Abs(w0);
            (spec_bra(s1, am1), false)
        },
        0x60 => {
            let s0 = spec_with_cy(s, 2);
            (spec_clrc(s0), false)
        },
        0x64 => {
            let s0 = spec_with_cy(s, 3);
            let b0 = spec_fetchb_val(s0);
            let s1 = spec_fetchb_post(s0);
            let am1 = AddressingMode::Direct(b0);
            let am2 = AddressingMode::A;
            (spec_cmp(s1, am1, am2), false)
        },
        0x68 => {
            let s0 = spec_with_cy(s, 2);
            let b0 = spec_fetchb_val(s0);
            let s1 = spec_fetchb_post(s0);
            let am1 = AddressingMode::Immediate(b0);
            let am2 = AddressingMode::A;
            (spec_cmp(s1, am1, am2), false)
        },
        0x69 => {
            let s0 = spec_with_cy(s, 6);
            let b0 = spec_fetchb_val(s0);
            let s1 = spec_fetchb_post(s0);
            let am1 = AddressingMode::Direct(b0);
            let b1 = spec_fetchb_val(s1);
            let s2 = spec_fetchb_post(s1);
            let am2 = AddressingMode::Direct(b1);
            (spec_cmp(s2, am1, am2), false)
        },
        0x6B => {
            let s0 = spec_with_cy(s, 4);
            let b0 = spec_fetchb_val(s0);
            let s1 = spec_fetchb_post(s0);
            let am1 = AddressingMode::Direct(b0);
            spec_ror(s1, am1)
        },
        0x6D => {
            let s0 = spec_with_cy(s, 4);
            let am1 = AddressingMode::Y;
            (spec_push(s0, am1), false)
        },
        0x6F => {
            let s0 = spec_with_cy(s, 5);
            (spec_ret(s0), false)
        },
        0x73 => {
            let s0 = spec_with_cy(s, 5);
            let b0 = spec_fetchb_val(s0);
            let s1 = spec_fetchb_post(s0);
            let am1 = AddressingMode::Direct(b0);
            let b1 = spec_fetchb_val(s1);
            let s2 = spec_fetchb_post(s1);
            let am2 = AddressingMode::Rel(spec_as_i8(b1));
            (spec_bbc(s2, 3, am1, am2), false)
        },
        0x75 => {
            let s0 = spec_with_cy(s, 5);
            let w0 = spec_fetchw_val(s0);
            let s1 = spec_fetchw_post(s0);
            let am1 = AddressingMode::AbsIndexedX(w0);
            let am2 = AddressingMode::A;
            (spec_cmp(s1, am1, am2), false)
        },
        0x78 => {
            let s0 = spec_with_cy(s, 5);
            let b0 = spec_fetchb_val(s0);
            let s1 = spec_fetchb_post(s0);
            let am1 = AddressingMode::Immediate(b0);
            let b1 = spec_fetchb_val(s1);
            let s2 = spec_fetchb_post(s1);
            let am2 = AddressingMode::Direct(b1);
            (spec_cmp(s2, am1, am2), false)
        },
        0x7D => {
            let s0 = spec_with_cy(s, 2);
            let am1 = AddressingMode::X;
            let am2 = AddressingMode::A;
            spec_mov(s0, am1, am2)
        },
        0x7E => {
            let s0 = spec_with_cy(s, 3);
            let b0 = spec_fetchb_val(s0);
            let s1 = spec_fetchb_post(s0);
            let am1 = AddressingMode::Direct(b0);
            let am2 = AddressingMode::Y;
            (spec_cmp(s1, am1, am2), false)
        },
        0x80 => {
            let s0 = spec_with_cy(s, 2);
            (spec_setc(s0), false)
        },
        0x84 => {
            let s0 = spec_with_cy(s, 3);
            let b0 = spec_fetchb_val(s0);
            let s1 = spec_fetchb_post(s0);
            let am1 = AddressingMode::Direct(b0);
            let am2 = AddressingMode::A;
            spec_adc(s1, am1, am2)
        },
        0x88 => {
            let s0 = spec_with_cy(s, 2);
            let b0 = spec_fetchb_val(s0);
            let s1 = spec_fetchb_post(s0);
            let am1 = AddressingMode::Immediate(b0);
            let am2 = AddressingMode::A;
            spec_adc(s1, am1, am2)
        },
        0x8D => {
            let s0 = spec_with_cy(s, 2);
            let b0 = spec_fetchb_val(s0);
            let s1 = spec_fetchb_post(s0);
            let am1 = AddressingMode::Immediate(b0);
            let am2 = AddressingMode::Y;
            spec_mov(s1, am1, am2)
        },
        0x8F => {
            let s0 = spec_with_cy(s, 5);
            let b0 = spec_fetchb_val(s0);
            let s1 = spec_fetchb_post(s0);
            let am1 = AddressingMode::Immediate(b0);
            let b1 = spec_fetchb_val(s1);
            let s2 = spec_fetchb_post(s1);
            let am2 = AddressingMode::Direct(b1);
            spec_mov(s2, am1, am2)
        },
        0x90 => {
            let s0 = spec_with_cy(s, 2);
            let b0 = spec_fetchb_val(s0);
            let s1 = spec_fetchb_post(s0);
            let am1 = AddressingMode::Rel(spec_as_i8(b0));
            (spec_bcc(s1, am1), false)
        },
        0x93 => {
            let s0 = spec_with_cy(s, 5);
            let b0 = spec_fetchb_val(s0);
            let s1 = spec_fetchb_post(s0);
            let am1 = AddressingMode::Direct(b0);
            let b1 = spec_fetchb_val(s1);
            let s2 = spec_fetchb_post(s1);
            let am2 = AddressingMode::Rel(spec_as_i8(b1));
            (spec_bbc(s2, 4, am1, am2), false)
        },
        0xA2 => {
            let s0 = spec_with_cy(s, 4);
            let b0 = spec_fetchb_val(s0);
            let s1 = spec_fetchb_post(s0);
            let am1 = AddressingMode::Direct(b0);
            spec_set1(s1, 0, am1)
        },
        0xAB => {
            let s0 = spec_with_cy(s, 4);
            let b0 = spec_fetchb_val(s0);
            let s1 = spec_fetchb_post(s0);
            let am1 = AddressingMode::Direct(b0);
            spec_inc(s1, am1)
        },
        0xAC => {
            let s0 = spec_with_cy(s, 5);
            let w0 = spec_fetchw_val(s0);
            let s1 = spec_fetchw_post(s0);
            let am1 = AddressingMode::Abs(w0);
            spec_inc(s1, am1)
        },
        0xAD => {
            let s0 = spec_with_cy(s, 2);
            let b0 = spec_fetchb_val(s0);
            let s1 = spec_fetchb_post(s0);
            let am1 = AddressingMode::Immediate(b0);
            let am2 = AddressingMode::Y;
            (spec_cmp(s1, am1, am2), false)
        },
        0xAF => {
            let s0 = spec_with_cy(s, 4);
            spec_mov_xinc(s0)
        },
        0xB0 => {
            let s0 = spec_with_cy(s, 2);
            let b0 = spec_fetchb_val(s0);
            let s1 = spec_fetchb_post(s0);
            let am1 = AddressingMode::Rel(spec_as_i8(b0));
            (spec_bcs(s1, am1), false)
        },
        0xB3 => {
            let s0 = spec_with_cy(s, 5);
            let b0 = spec_fetchb_val(s0);
            let s1 = spec_fetchb_post(s0);
            let am1 = AddressingMode::Direct(b0);
            let b1 = spec_fetchb_val(s1);
            let s2 = spec_fetchb_post(s1);
            let am2 = AddressingMode::Rel(spec_as_i8(b1));
            (spec_bbc(s2, 5, am1, am2), false)
        },
        0xBA => {
            let s0 = spec_with_cy(s, 5);
            let b0 = spec_fetchb_val(s0);
            let s1 = spec_fetchb_post(s0);
            let am1 = AddressingMode::Direct(b0);
            (spec_movw_l(s1, am1), false)
        },
        0xBC => {
            let s0 = spec_with_cy(s, 2);
            let am1 = AddressingMode::A;
            spec_inc(s0, am1)
        },
        0xBD => {
            let s0 = spec_with_cy(s, 2);
            (spec_mov_sp_x(s0), false)
        },
        0xC4 => {
            let s0 = spec_with_cy(s, 4);
            let am1 = AddressingMode::A;
            let b0 = spec_fetchb_val(s0);
            let s1 = spec_fetchb_post(s0);
            let am2 = AddressingMode::Direct(b0);
            spec_mov(s1, am1, am2)
        },
        0xC5 => {
            let s0 = spec_with_cy(s, 5);
            let am1 = AddressingMode::A;
            let w0 = spec_fetchw_val(s0);
            let s1 = spec_fetchw_post(s0);
            let am2 = AddressingMode::Abs(w0);
            spec_mov(s1, am1, am2)
        },
        0xC6 => {
            let s0 = spec_with_cy(s, 4);
            let am1 = AddressingMode::A;
            let am2 = AddressingMode::IndirectX;
            spec_mov(s0, am1, am2)
        },
        0xC8 => {
            let s0 = spec_with_cy(s, 2);
            let b0 = spec_fetchb_val(s0);
            let s1 = spec_fetchb_post(s0);
            let am1 = AddressingMode::Immediate(b0);
            let am2 = AddressingMode::X;
            (spec_cmp(s1, am1, am2), false)
        },
        0xC9 => {
            let s0 = spec_with_cy(s, 5);
            let am1 = AddressingMode::X;
            let w0 = spec_fetchw_val(s0);
            let s1 = spec_fetchw_post(s0);
            let am2 = AddressingMode::Abs(w0);
            spec_mov(s1, am1, am2)
        },
        0xCB => {
            let s0 = spec_with_cy(s, 4);
            let am1 = AddressingMode::Y;
            let b0 = spec_fetchb_val(s0);
            let s1 = spec_fetchb_post(s0);
            let am2 = AddressingMode::Direct(b0);
            spec_mov(s1, am1, am2)
        },
        0xCC => {
            let s0 = spec_with_cy(s, 5);
            let am1 = AddressingMode::Y;
            let w0 = spec_fetchw_val(s0);
            let s1 = spec_fetchw_post(s0);
            let am2 = AddressingMode::Abs(w0);
            spec_mov(s1, am1, am2)
        },
        0xCD => {
            let s0 = spec_with_cy(s, 2);
            let b0 = spec_fetchb_val(s0);
            let s1 = spec_fetchb_post(s0);
            let am1 = AddressingMode::Immediate(b0);
            let am2 = AddressingMode::X;
            spec_mov(s1, am1, am2)
        },
        0xCF => {
            let s0 = spec_with_cy(s, 9);
            (spec_mul(s0), false)
        },
        0xD0 => {
            let s0 = spec_with_cy(s, 2);
            let b0 = spec_fetchb_val(s0);
            let s1 = spec_fetchb_post(s0);
            let am1 = AddressingMode::Rel(spec_as_i8(b0));
            (spec_bne(s1, am1), false)
        },
        0xD3 => {
            let s0 = spec_with_cy(s, 5);
            let b0 = spec_fetchb_val(s0);
            let s1 = spec_fetchb_post(s0);
            let am1 = AddressingMode::Direct(b0);
            let b1 = spec_fetchb_val(s1);
            let s2 = spec_fetchb_post(s1);
            let am2 = AddressingMode::Rel(spec_as_i8(b1));
            (spec_bbc(s2, 6, am1, am2), false)
        },
        0xD5 => {
            let s0 = spec_with_cy(s, 6);
            let am1 = AddressingMode::A;
            let w0 = spec_fetchw_val(s0);
            let s1 = spec_fetchw_post(s0);
            let am2 = AddressingMode::AbsIndexedX(w0);
            spec_mov(s1, am1, am2)
        },
        0xD6 => {
            let s0 = spec_with_cy(s, 6);
            let am1 = AddressingMode::A;
            let w0 = spec_fetchw_val(s0);
            let s1 = spec_fetchw_post(s0);
            let am2 = AddressingMode::AbsIndexedY(w0);
            spec_mov(s1, am1, am2)
        },
        0xD7 => {
            let s0 = spec_with_cy(s, 7);
            let am1 = AddressingMode::A;
            let b0 = spec_fetchb_val(s0);
            let s1 = spec_fetchb_post(s0);
            let am2 = AddressingMode::IndirectIndexed(b0);
            spec_mov(s1, am1, am2)
        },
        0xDA => {
            let s0 = spec_with_cy(s, 5);
            let b0 = spec_fetchb_val(s0);
            let s1 = spec_fetchb_post(s0);
            let am1 = AddressingMode::Direct(b0);
            spec_movw_s(s1, am1)
        },
        0xDB => {
            let s0 = spec_with_cy(s, 5);
            let am1 = AddressingMode::Y;
            let b0 = spec_fetchb_val(s0);
            let s1 = spec_fetchb_post(s0);
            let am2 = AddressingMode::IndexedIndirect(b0);
            spec_mov(s1, am1, am2)
        },
        0xDD => {
            let s0 = spec_with_cy(s, 2);
            let am1 = AddressingMode::Y;
            let am2 = AddressingMode::A;
            spec_mov(s0, am1, am2)
        },
        0xDE => {
            let s0 = spec_with_cy(s, 6);
            let b0 = spec_fetchb_val(s0);
            let s1 = spec_fetchb_post(s0);
            let am1 = AddressingMode::IndexedIndirect(b0);
            let b1 = spec_fetchb_val(s1);
            let s2 = spec_fetchb_post(s1);
            let am2 = AddressingMode::Rel(spec_as_i8(b1));
            (spec_cbne(s2, am1, am2), false)
        },
        0xE4 => {
            let s0 = spec_with_cy(s, 3);
            let b0 = spec_fetchb_val(s0);
            let s1 = spec_fetchb_post(s0);
            let am1 = AddressingMode::Direct(b0);
            let am2 = AddressingMode::A;
            spec_mov(s1, am1, am2)
        },
        0xE5 => {
            let s0 = spec_with_cy(s, 4);
            let w0 = spec_fetchw_val(s0);
            let s1 = spec_fetchw_post(s0);
            let am1 = AddressingMode::Abs(w0);
            let am2 = AddressingMode::A;
            spec_mov(s1, am1, am2)
        },
        0xE6 => {
            let s0 = spec_with_cy(s, 3);
            let am1 = AddressingMode::IndirectX;
            let am2 = AddressingMode::A;
            spec_mov(s0, am1, am2)
        },
        0xE8 => {
            let s0 = spec_with_cy(s, 2);
            let b0 = spec_fetchb_val(s0);
            let s1 = spec_fetchb_post(s0);
            let am1 = AddressingMode::Immediate(b0);
            let am2 = AddressingMode::A;
            spec_mov(s1, am1, am2)
        },
        0xEB => {
            let s0 = spec_with_cy(s, 3);
            let b0 = spec_fetchb_val(s0);
            let s1 = spec_fetchb_post(s0);
            let am1 = AddressingMode::Direct(b0);
            let am2 = AddressingMode::Y;
            spec_mov(s1, am1, am2)
        },
        0xEC => {
            let s0 = spec_with_cy(s, 4);
            let w0 = spec_fetchw_val(s0);
            let s1 = spec_fetchw_post(s0);
            let am1 = AddressingMode::Abs(w0);
            let am2 = AddressingMode::Y;
            spec_mov(s1, am1, am2)
        },
        0xED => {
            let s0 = spec_with_cy(s, 3);
            (spec_notc(s0), false)
        },
        0xEE => {
            let s0 = spec_with_cy(s, 4);
            let am1 = AddressingMode::Y;
            spec_pop(s0, am1)
        },
        0xF0 => {
            let s0 = spec_with_cy(s, 2);
            let b0 = spec_fetchb_val(s0);
            let s1 = spec_fetchb_post(s0);
            let am1 = AddressingMode::Rel(spec_as_i8(b0));
            (spec_beq(s1, am1), false)
        },
        0xF3 => {
            let s0 = spec_with_cy(s, 5);
            let b0 = spec_fetchb_val(s0);
            let s1 = spec_fetchb_post(s0);
            let am1 = AddressingMode::Direct(b0);
            let b1 = spec_fetchb_val(s1);
            let s2 = spec_fetchb_post(s1);
            let am2 = AddressingMode::Rel(spec_as_i8(b1));
            (spec_bbc(s2, 7, am1, am2), false)
        },
        0xF4 => {
            let s0 = spec_with_cy(s, 4);
            let b0 = spec_fetchb_val(s0);
            let s1 = spec_fetchb_post(s0);
            let am1 = AddressingMode::IndexedIndirect(b0);
            let am2 = AddressingMode::A;
            spec_mov(s1, am1, am2)
        },
        0xF5 => {
            let s0 = spec_with_cy(s, 5);
            let w0 = spec_fetchw_val(s0);
            let s1 = spec_fetchw_post(s0);
            let am1 = AddressingMode::AbsIndexedX(w0);
            let am2 = AddressingMode::A;
            spec_mov(s1, am1, am2)
        },
        0xF6 => {
            let s0 = spec_with_cy(s, 5);
            let w0 = spec_fetchw_val(s0);
            let s1 = spec_fetchw_post(s0);
            let am1 = AddressingMode::AbsIndexedY(w0);
            let am2 = AddressingMode::A;
            spec_mov(s1, am1, am2)
        },
        0xFC => {
            let s0 = spec_with_cy(s, 2);
            let am1 = AddressingMode::Y;
            spec_inc(s0, am1)
        },
        0xFD => {
            let s0 = spec_with_cy(s, 2);
            let am1 = AddressingMode::A;
            let am2 = AddressingMode::Y;
            spec_mov(s0, am1, am2)
        },
        0xFE => {
            let s0 = spec_with_cy(s, 5);
            let am1 = AddressingMode::Y;
            let b0 = spec_fetchb_val(s0);
            let s1 = spec_fetchb_post(s0);
            let am2 = AddressingMode::Rel(spec_as_i8(b0));
            spec_dbnz(s1, am1, am2)
        },
        _ => (s, false),
    }
}

} // verus!
