//! Laws of the core that relate several operations, stated over the
//! abstract models and proved once and for all.

use vstd::prelude::*;
use vstd::wrapping::u8_specs;

use crate::addressing::AddressingMode;
use crate::bus_model::PeriView;
use crate::bus_model::spec_bus_store_post;
use crate::bus_model::spec_sys_bank;
use crate::op_model::spec_cmp;
use crate::op_model::spec_cond_branch;
use crate::spc_model::SpcView;
use crate::spc_model::spec_am_addr_post;
use crate::spc_model::spec_am_loadb_post;
use crate::spc_model::spec_am_loadb_val;
use crate::spc_model::spec_load_val;
use crate::spc_model::spec_wf;
use crate::status::CARRY_FLAG;

verus! {

/// Law: a byte the main CPU writes to mailbox port `p` is exactly what the
/// audio core then loads through its I/O window at 0xF4 + p.
pub proof fn lemma_port_write_read(s: SpcView, p: u8, v: u8)
    requires
        spec_wf(s),
        p < 4,
    ensures
        ({
            let s1 = SpcView { io_vals: s.io_vals.update(p as int, v), ..s };
            spec_load_val(s1, (0xF4 + p) as u16) == v
        }),
{
}

/// Law: a taken conditional branch costs exactly 2 cycles on top of the
/// base count; one not taken costs none.
pub proof fn lemma_branch_cycle_charge(s: SpcView, am: AddressingMode, cond: bool)
    requires
        spec_am_addr_post(s, am).cy <= 253,
    ensures
        cond ==> spec_cond_branch(s, am, cond).cy == spec_am_addr_post(s, am).cy + 2,
        !cond ==> spec_cond_branch(s, am, cond).cy == spec_am_addr_post(s, am).cy,
{
}

/// Law: `cmp` sets the carry flag to bit 7 of the wrapped difference of the
/// two operands (a deliberate quirk of this core, which differs from a
/// borrow-based carry).
pub proof fn lemma_cmp_carry_is_bit7(s: SpcView, ama: AddressingMode, amb: AddressingMode)
    ensures
        ({
            let av = spec_am_loadb_val(s, ama);
            let bv = spec_am_loadb_val(spec_am_loadb_post(s, ama), amb);
            let diff = u8_specs::wrapping_sub(av, bv);
            (spec_cmp(s, ama, amb).psw & CARRY_FLAG != 0) == (diff & 0x80 != 0)
        }),
{
    let av = spec_am_loadb_val(s, ama);
    let s1 = spec_am_loadb_post(s, ama);
    let bv = spec_am_loadb_val(s1, amb);
    let s2 = spec_am_loadb_post(s1, amb);
    let diff = u8_specs::wrapping_sub(av, bv);
    let y = crate::status::spec_set_nz(s2.psw, diff);
    assert(CARRY_FLAG == 1u8);
    if diff & 0x80 != 0 {
        assert((y | 1u8) & 1u8 != 0) by (bit_vector);
    } else {
        assert(((y & !1u8) & 1u8) == 0) by (bit_vector);
    }
}

/// Law: the overflow flag of `adc` follows the sign truth table - it is set
/// exactly when two operands of one sign produce a result of the other
/// sign: two non-negatives yielding a negative, or two negatives yielding
/// a non-negative.
pub proof fn lemma_adc_overflow_truth_table(a: u8, b: u8, res: u8)
    by (bit_vector)
    ensures
        ((a ^ b) & 0x80 == 0 && (a ^ res) & 0x80 == 0x80) <==> ((a < 0x80 && b < 0x80 && res
            >= 0x80) || (a >= 0x80 && b >= 0x80 && res < 0x80)),
{
}

/// Law: writing the second multiplicand latches exactly the unsigned
/// 16-bit product of the two multiplicands.
pub proof fn lemma_multiply_on_write(s: PeriView, bank: u8, value: u8)
    requires
        spec_sys_bank(bank),
    ensures
        spec_bus_store_post(s, bank, 0x4203, value).rdmpy == s.wrmpya as int * value as int,
{
    assert(s.wrmpya as int * value as int <= 65025) by (nonlinear_arith)
        requires
            s.wrmpya <= 255,
            value <= 255,
    ;
}

/// Law: writing a zero divisor yields the all-ones quotient and leaves the
/// dividend as the remainder.
pub proof fn lemma_divide_by_zero(s: PeriView, bank: u8)
    requires
        spec_sys_bank(bank),
    ensures
        spec_bus_store_post(s, bank, 0x4206, 0).rddiv == 0xFFFF,
        spec_bus_store_post(s, bank, 0x4206, 0).rdmpy == s.wrdiv,
{
}

} // verus!
