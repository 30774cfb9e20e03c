//! Tests of the audio coprocessor: boot, mailbox, timers, flags, branches.

use snes_core::spc::{Fault, Spc700};

/// An IPL image holding `program` at its start and a reset vector pointing
/// at the top 64 bytes of RAM (0xFFC0).
fn ipl_with(program: &[u8]) -> [u8; 64] {
    assert!(program.len() <= 62);
    let mut ipl = [0u8; 64];
    ipl[..program.len()].copy_from_slice(program);
    ipl[62] = 0xC0;
    ipl[63] = 0xFF;
    ipl
}

#[test]
fn reset_vector_from_ipl() {
    // IPL bytes 62/63 are the little-endian reset vector at 0xFFFE/0xFFFF.
    let apu = Spc700::new(&ipl_with(&[]));
    assert_eq!(apu.pc(), 0xFFC0);
}

#[test]
fn reset_vector_arbitrary() {
    let mut ipl = [0u8; 64];
    ipl[62] = 0x34;
    ipl[63] = 0x12;
    let apu = Spc700::new(&ipl);
    assert_eq!(apu.pc(), 0x1234);
}

#[test]
fn registers_zero_after_boot() {
    let apu = Spc700::new(&ipl_with(&[]));
    assert_eq!(apu.reg_a(), 0);
    assert_eq!(apu.reg_x(), 0);
    assert_eq!(apu.reg_y(), 0);
    assert_eq!(apu.reg_sp(), 0);
    assert_eq!(apu.reg_psw(), 0);
}

#[test]
fn mailbox_ping() {
    // mov a, $f4 ; mov $f8, a ; mov a, #$99 ; mov $f4, a
    let prog = [0xE4, 0xF4, 0xC4, 0xF8, 0xE8, 0x99, 0xC4, 0xF4];
    let mut apu = Spc700::new(&ipl_with(&prog));
    apu.store_port(0, 0x42);
    apu.dispatch().unwrap(); // mov a, $f4
    assert_eq!(apu.reg_a(), 0x42);
    apu.dispatch().unwrap(); // mov $f8, a
    assert_eq!(apu.load(0xF8), 0x42);
    apu.dispatch().unwrap(); // mov a, #$99
    apu.dispatch().unwrap(); // mov $f4, a (outbound mailbox is RAM)
    assert_eq!(apu.read_port(0), 0x99);
}

#[test]
fn port_write_then_read_yields_value() {
    // Every byte written to a port is what the core loads at 0xF4+port.
    let mut apu = Spc700::new(&ipl_with(&[]));
    for port in 0..4u8 {
        for v in 0..=255u8 {
            apu.store_port(port, v);
            assert_eq!(apu.load(0xF4 + port as u16), v);
        }
    }
}

#[test]
fn control_write_clears_mailbox_pairs() {
    let mut apu = Spc700::new(&ipl_with(&[]));
    apu.store_port(0, 1);
    apu.store_port(1, 2);
    apu.store_port(2, 3);
    apu.store_port(3, 4);
    // bit 4 clears ports 0-1, bit 5 clears ports 2-3
    apu.store(0xF1, 0x10).unwrap();
    assert_eq!(apu.load(0xF4), 0);
    assert_eq!(apu.load(0xF5), 0);
    assert_eq!(apu.load(0xF6), 3);
    apu.store(0xF1, 0x20).unwrap();
    assert_eq!(apu.load(0xF6), 0);
    assert_eq!(apu.load(0xF7), 0);
}

#[test]
fn dsp_window() {
    let mut apu = Spc700::new(&ipl_with(&[]));
    apu.store(0xF2, 0x7D).unwrap(); // select DSP register 0x7D
    apu.store(0xF3, 0x5A).unwrap(); // write through the data window
    assert_eq!(apu.load(0xF2), 0x7D);
    assert_eq!(apu.load(0xF3), 0x5A);
    apu.store(0xF2, 0x00).unwrap();
    assert_eq!(apu.load(0xF3), 0);
}

#[test]
fn timer2_increments_once_per_divider_match() {
    // mov a, #$04 ; mov $fc, a ; mov $f1, a  (divider 4, enable timer 2)
    // then 32 two-cycle instructions = 64 cycles = 4 ticks of period 16.
    let mut prog = vec![0xE8, 0x04, 0xC4, 0xFC, 0xC4, 0xF1];
    for _ in 0..32 {
        prog.push(0x60); // clrc, 2 cycles
    }
    let mut apu = Spc700::new(&ipl_with(&prog));
    for _ in 0..35 {
        apu.dispatch().unwrap();
    }
    assert_eq!(apu.load(0xFF), 1);
}

#[test]
fn timer_out_read_clears() {
    // Same setup as above; the first read returns the nibble, the second
    // returns zero because reading clears it.
    let mut prog = vec![0xE8, 0x04, 0xC4, 0xFC, 0xC4, 0xF1];
    for _ in 0..32 {
        prog.push(0x60);
    }
    let mut apu = Spc700::new(&ipl_with(&prog));
    for _ in 0..35 {
        apu.dispatch().unwrap();
    }
    assert_eq!(apu.load(0xFF), 1);
    assert_eq!(apu.load(0xFF), 0);
}

#[test]
fn illegal_opcode_faults() {
    // An all-zero IPL boots to PC 0 where opcode 0x00 is not implemented.
    let mut apu = Spc700::new(&[0u8; 64]);
    assert_eq!(apu.pc(), 0);
    assert_eq!(apu.dispatch(), Err(Fault::IllegalOpcode { op: 0 }));
}

#[test]
fn test_register_write_faults() {
    // mov a, #$05 ; mov $f0, a - only 0x0A may be written to 0xF0.
    let mut apu = Spc700::new(&ipl_with(&[0xE8, 0x05, 0xC4, 0xF0]));
    apu.dispatch().unwrap();
    assert_eq!(apu.dispatch(), Err(Fault::TestRegister { value: 0x05 }));
}

#[test]
fn test_register_accepts_only_magic_value() {
    // mov a, #$0a ; mov $f0, a - the one legal value is accepted.
    let mut apu = Spc700::new(&ipl_with(&[0xE8, 0x0A, 0xC4, 0xF0]));
    apu.dispatch().unwrap();
    assert_eq!(apu.dispatch(), Ok(4));
}

#[test]
fn branch_taken_costs_two_extra_cycles() {
    // mov a, #0 sets Z; beq (+2 taken) costs 2+2; bne (not taken) costs 2.
    let prog = [0xE8, 0x00, 0xF0, 0x02, 0x00, 0x00, 0xD0, 0x00];
    let mut apu = Spc700::new(&ipl_with(&prog));
    assert_eq!(apu.dispatch(), Ok(2)); // mov a, #0
    assert_eq!(apu.dispatch(), Ok(4)); // beq, taken
    assert_eq!(apu.pc(), 0xFFC6);
    assert_eq!(apu.dispatch(), Ok(2)); // bne, not taken
    assert_eq!(apu.pc(), 0xFFC8);
}

#[test]
fn cmp_carry_is_bit7_of_difference() {
    // mov a, #$10 ; cmp a, #$20 ; cmp a, #$01
    // This core computes diff = immediate - A and sets C to bit 7 of it.
    let prog = [0xE8, 0x10, 0x68, 0x20, 0x68, 0x01];
    let mut apu = Spc700::new(&ipl_with(&prog));
    apu.dispatch().unwrap();
    apu.dispatch().unwrap(); // diff = 0x20 - 0x10 = 0x10: C clear, N clear
    assert_eq!(apu.reg_psw() & 0x01, 0);
    assert_eq!(apu.reg_psw() & 0x80, 0);
    apu.dispatch().unwrap(); // diff = 0x01 - 0x10 = 0xF1: C set, N set
    assert_eq!(apu.reg_psw() & 0x01, 0x01);
    assert_eq!(apu.reg_psw() & 0x80, 0x80);
}

#[test]
fn adc_overflow_truth_table() {
    // clrc ; mov a, #$7f ; adc a, #$01 : 0x7F + 1 = 0x80 overflows.
    let prog = [0x60, 0xE8, 0x7F, 0x88, 0x01];
    let mut apu = Spc700::new(&ipl_with(&prog));
    apu.dispatch().unwrap();
    apu.dispatch().unwrap();
    apu.dispatch().unwrap();
    assert_eq!(apu.reg_a(), 0x80);
    assert_eq!(apu.reg_psw() & 0x40, 0x40); // V set
    assert_eq!(apu.reg_psw() & 0x80, 0x80); // N set
    assert_eq!(apu.reg_psw() & 0x01, 0); // no carry out
    assert_eq!(apu.reg_psw() & 0x08, 0x08); // half carry out of bit 3
}

#[test]
fn adc_no_overflow_on_mixed_signs() {
    // clrc ; mov a, #$80 ; adc a, #$7f : mixed signs never overflow.
    let prog = [0x60, 0xE8, 0x80, 0x88, 0x7F];
    let mut apu = Spc700::new(&ipl_with(&prog));
    apu.dispatch().unwrap();
    apu.dispatch().unwrap();
    apu.dispatch().unwrap();
    assert_eq!(apu.reg_a(), 0xFF);
    assert_eq!(apu.reg_psw() & 0x40, 0); // V clear
}

#[test]
fn adc_carry_out() {
    // clrc ; mov a, #$ff ; adc a, #$02 -> 0x01 with carry out.
    let prog = [0x60, 0xE8, 0xFF, 0x88, 0x02];
    let mut apu = Spc700::new(&ipl_with(&prog));
    apu.dispatch().unwrap();
    apu.dispatch().unwrap();
    apu.dispatch().unwrap();
    assert_eq!(apu.reg_a(), 0x01);
    assert_eq!(apu.reg_psw() & 0x01, 0x01);
}

#[test]
fn mul_splits_product_into_y_and_a() {
    // mov y, #$12 ; mov a, #$34 ; mul ya -> 0x12 * 0x34 = 0x03A8
    let prog = [0x8D, 0x12, 0xE8, 0x34, 0xCF];
    let mut apu = Spc700::new(&ipl_with(&prog));
    apu.dispatch().unwrap();
    apu.dispatch().unwrap();
    assert_eq!(apu.dispatch(), Ok(9));
    assert_eq!(apu.reg_y(), 0x03);
    assert_eq!(apu.reg_a(), 0xA8);
}

#[test]
fn call_and_ret_use_page_one_stack() {
    // call $ffc8 ; (at $ffc8) ret
    let prog = [0x3F, 0xC8, 0xFF, 0x00, 0x00, 0x00, 0x00, 0x00, 0x6F];
    let mut apu = Spc700::new(&ipl_with(&prog));
    assert_eq!(apu.dispatch(), Ok(8));
    assert_eq!(apu.pc(), 0xFFC8);
    assert_eq!(apu.reg_sp(), 0xFE); // two bytes pushed
    assert_eq!(apu.dispatch(), Ok(5));
    assert_eq!(apu.pc(), 0xFFC3); // back after the call operands
    assert_eq!(apu.reg_sp(), 0x00);
}

#[test]
fn mov_into_register_sets_nz() {
    // mov a, #$00 sets Z; mov a, #$80 sets N.
    let prog = [0xE8, 0x00, 0xE8, 0x80];
    let mut apu = Spc700::new(&ipl_with(&prog));
    apu.dispatch().unwrap();
    assert_eq!(apu.reg_psw() & 0x02, 0x02);
    apu.dispatch().unwrap();
    assert_eq!(apu.reg_psw() & 0x80, 0x80);
    assert_eq!(apu.reg_psw() & 0x02, 0);
}

#[test]
fn ror_stores_rotated_value() {
    // setc ; mov a, #$03 ; mov $10, a ; ror $10
    let prog = [0x80, 0xE8, 0x03, 0xC4, 0x10, 0x6B, 0x10];
    let mut apu = Spc700::new(&ipl_with(&prog));
    for _ in 0..4 {
        apu.dispatch().unwrap();
    }
    // 0x03 rotated right through a set carry: 0x81, and carry takes bit 0.
    assert_eq!(apu.load(0x10), 0x81);
    assert_eq!(apu.reg_psw() & 0x01, 0x01);
}
