//! Instruction-level tests of the audio coprocessor: logic, shifts,
//! increments, bit and branch instructions, word moves, addressing modes.

use snes_core::spc::Spc700;

fn ipl_with(program: &[u8]) -> [u8; 64] {
    assert!(program.len() <= 62);
    let mut ipl = [0u8; 64];
    ipl[..program.len()].copy_from_slice(program);
    ipl[62] = 0xC0;
    ipl[63] = 0xFF;
    ipl
}

fn run(program: &[u8], instructions: usize) -> Spc700 {
    let mut apu = Spc700::new(&ipl_with(program));
    for _ in 0..instructions {
        apu.dispatch().unwrap();
    }
    apu
}

#[test]
fn and_or_eor_with_accumulator() {
    // mov a, #$f0 ; and a, #$0f ; or a, #$3c ; eor a, #$ff
    let mut apu = Spc700::new(&ipl_with(&[0xE8, 0xF0, 0x28, 0x0F, 0x08, 0x3C, 0x48, 0xFF]));
    apu.dispatch().unwrap();
    apu.dispatch().unwrap();
    assert_eq!(apu.reg_a(), 0x00);
    assert_eq!(apu.reg_psw() & 0x02, 0x02); // Z
    apu.dispatch().unwrap();
    assert_eq!(apu.reg_a(), 0x3C);
    apu.dispatch().unwrap();
    assert_eq!(apu.reg_a(), 0xC3);
    assert_eq!(apu.reg_psw() & 0x80, 0x80); // N
}

#[test]
fn asl_takes_carry_from_bit7() {
    // mov a, #$81 ; asl a
    let apu = run(&[0xE8, 0x81, 0x1C], 2);
    assert_eq!(apu.reg_a(), 0x02);
    assert_eq!(apu.reg_psw() & 0x01, 0x01);
}

#[test]
fn lsr_takes_carry_from_bit0() {
    // mov a, #$03 ; lsr a ; lsr a
    let mut apu = Spc700::new(&ipl_with(&[0xE8, 0x03, 0x5C, 0x5C]));
    apu.dispatch().unwrap();
    apu.dispatch().unwrap();
    assert_eq!(apu.reg_a(), 0x01);
    assert_eq!(apu.reg_psw() & 0x01, 0x01);
    apu.dispatch().unwrap();
    assert_eq!(apu.reg_a(), 0x00);
    assert_eq!(apu.reg_psw() & 0x01, 0x01);
    assert_eq!(apu.reg_psw() & 0x02, 0x02); // Z
}

#[test]
fn inc_and_dec_wrap() {
    // mov a, #$ff ; inc a ; dec x
    let mut apu = Spc700::new(&ipl_with(&[0xE8, 0xFF, 0xBC, 0x1D]));
    apu.dispatch().unwrap();
    apu.dispatch().unwrap();
    assert_eq!(apu.reg_a(), 0x00);
    assert_eq!(apu.reg_psw() & 0x02, 0x02); // Z from the wrap to zero
    apu.dispatch().unwrap();
    assert_eq!(apu.reg_x(), 0xFF);
    assert_eq!(apu.reg_psw() & 0x80, 0x80); // N
}

#[test]
fn inc_memory_operand() {
    // mov $30, #$7f ; inc $30
    let mut apu = run(&[0x8F, 0x7F, 0x30, 0xAB, 0x30], 2);
    assert_eq!(apu.load(0x30), 0x80);
    assert_eq!(apu.reg_psw() & 0x80, 0x80);
}

#[test]
fn set1_sets_one_bit() {
    // mov $30, #$00 ; set1 $30.0
    let mut apu = run(&[0x8F, 0x00, 0x30, 0xA2, 0x30], 2);
    assert_eq!(apu.load(0x30), 0x01);
}

#[test]
fn bbc_branches_when_bit_set() {
    // mov $20, #$01 ; bbc $20.0, +2  (this core branches on a set bit)
    let mut apu = Spc700::new(&ipl_with(&[0x8F, 0x01, 0x20, 0x13, 0x20, 0x02]));
    apu.dispatch().unwrap();
    assert_eq!(apu.dispatch(), Ok(7)); // 5 + 2 for the taken branch
    assert_eq!(apu.pc(), 0xFFC8);
}

#[test]
fn bbc_falls_through_when_bit_clear() {
    // mov $20, #$00 ; bbc $20.0, +2
    let mut apu = Spc700::new(&ipl_with(&[0x8F, 0x00, 0x20, 0x13, 0x20, 0x02]));
    apu.dispatch().unwrap();
    assert_eq!(apu.dispatch(), Ok(5));
    assert_eq!(apu.pc(), 0xFFC6);
}

#[test]
fn dbnz_branches_when_result_reaches_zero() {
    // mov y, #$01 ; dbnz y, +0  (this core branches when Y hits zero)
    let mut apu = Spc700::new(&ipl_with(&[0x8D, 0x01, 0xFE, 0x00]));
    apu.dispatch().unwrap();
    assert_eq!(apu.dispatch(), Ok(7));
    assert_eq!(apu.reg_y(), 0x00);
}

#[test]
fn dbnz_falls_through_otherwise() {
    // mov y, #$02 ; dbnz y, +0
    let mut apu = Spc700::new(&ipl_with(&[0x8D, 0x02, 0xFE, 0x00]));
    apu.dispatch().unwrap();
    assert_eq!(apu.dispatch(), Ok(5));
    assert_eq!(apu.reg_y(), 0x01);
}

#[test]
fn cbne_branches_on_mismatch() {
    // mov a, #$05 ; cbne $10+x, +2 - the word pointer at $10 is zero, so
    // the operand is RAM byte 0 (zero), which differs from A
    let prog = [0xE8, 0x05, 0xDE, 0x10, 0x02];
    let mut apu = Spc700::new(&ipl_with(&prog));
    apu.dispatch().unwrap();
    assert_eq!(apu.dispatch(), Ok(8)); // 6 + 2 for the taken branch
}

#[test]
fn movw_loads_and_stores_word_pairs() {
    // mov $40, #$34 ; mov $41, #$12 ; movw ya, $40 ; movw $42, ya
    let prog = [0x8F, 0x34, 0x40, 0x8F, 0x12, 0x41, 0xBA, 0x40, 0xDA, 0x42];
    let mut apu = run(&prog, 4);
    assert_eq!(apu.reg_a(), 0x34);
    assert_eq!(apu.reg_y(), 0x12);
    assert_eq!(apu.load(0x42), 0x34);
    assert_eq!(apu.load(0x43), 0x12);
}

#[test]
fn mov_xinc_stores_and_increments_x() {
    // mov x, #$40 ; mov a, #$aa ; mov (x++), a
    let mut apu = run(&[0xCD, 0x40, 0xE8, 0xAA, 0xAF], 3);
    assert_eq!(apu.load(0x40), 0xAA);
    assert_eq!(apu.reg_x(), 0x41);
}

#[test]
fn push_then_pop_moves_value_through_the_stack() {
    // mov a, #$5a ; push a ; pop y
    let apu = run(&[0xE8, 0x5A, 0x2D, 0xEE], 3);
    assert_eq!(apu.reg_y(), 0x5A);
    assert_eq!(apu.reg_sp(), 0x00);
}

#[test]
fn indirect_indexed_store() {
    // pointer at $10/$11 = $0200; mov y, #$05 ; mov a, #$42 ;
    // mov (dp $10)+y, a lands at $0205
    let prog = [0x8F, 0x00, 0x10, 0x8F, 0x02, 0x11, 0x8D, 0x05, 0xE8, 0x42, 0xD7, 0x10];
    let mut apu = run(&prog, 5);
    assert_eq!(apu.load(0x0205), 0x42);
}

#[test]
fn indexed_indirect_load() {
    // mov a, #$77 ; mov $0300, a ; pointer at $12/$13 = $0300 ;
    // mov x, #$02 ; mov a, (dp $10+x)
    let prog = [
        0xE8, 0x77, 0xC5, 0x00, 0x03, 0x8F, 0x00, 0x12, 0x8F, 0x03, 0x13, 0xCD, 0x02, 0xE8, 0x00,
        0xF4, 0x10,
    ];
    let apu = run(&prog, 7);
    assert_eq!(apu.reg_a(), 0x77);
}

#[test]
fn abs_indexed_store() {
    // mov x, #$03 ; mov a, #$66 ; mov $0200+x, a
    let prog = [0xCD, 0x03, 0xE8, 0x66, 0xD5, 0x00, 0x02];
    let mut apu = run(&prog, 3);
    assert_eq!(apu.load(0x0203), 0x66);
}

#[test]
fn indirect_x_store() {
    // mov x, #$44 ; mov a, #$33 ; mov (x), a
    let prog = [0xCD, 0x44, 0xE8, 0x33, 0xC6];
    let mut apu = run(&prog, 3);
    assert_eq!(apu.load(0x44), 0x33);
}

#[test]
fn jump_absolute_indexed_indirect() {
    // mov x, #$02 ; jmp ($ffd0+x): the word at $ffd2 is the target
    let mut prog = [0u8; 22];
    prog[0] = 0xCD; // mov x, #$02
    prog[1] = 0x02;
    prog[2] = 0x1F; // jmp (abs+x)
    prog[3] = 0xD0;
    prog[4] = 0xFF;
    prog[18] = 0x34; // $ffd2: pointer to $1234
    prog[19] = 0x12;
    let mut apu = Spc700::new(&ipl_with(&prog));
    apu.dispatch().unwrap();
    apu.dispatch().unwrap();
    assert_eq!(apu.pc(), 0x1234);
}

#[test]
fn notc_complements_carry() {
    // notc ; notc
    let mut apu = Spc700::new(&ipl_with(&[0xED, 0xED]));
    apu.dispatch().unwrap();
    assert_eq!(apu.reg_psw() & 0x01, 0x01);
    apu.dispatch().unwrap();
    assert_eq!(apu.reg_psw() & 0x01, 0x00);
}

#[test]
fn mov_sp_x_copies_without_flags() {
    // mov x, #$80 ; mov sp, x - no flags change from the sp move
    let mut apu = Spc700::new(&ipl_with(&[0xCD, 0x80, 0xBD]));
    apu.dispatch().unwrap();
    let psw = apu.reg_psw();
    apu.dispatch().unwrap();
    assert_eq!(apu.reg_sp(), 0x80);
    assert_eq!(apu.reg_psw(), psw);
}
