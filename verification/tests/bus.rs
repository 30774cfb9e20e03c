//! Tests of the bus: address decoding, I/O penalties, multiplier/divider,
//! WRAM mirrors and the mailbox as the main CPU sees it.

use snes_core::bus::Peripherals;
use snes_core::bus_model::StoreEffect;

fn fresh_bus() -> Peripherals {
    let mut ipl = [0u8; 64];
    ipl[62] = 0xC0;
    ipl[63] = 0xFF;
    Peripherals::new(&ipl)
}

/// The penalty charged by one access, observed through the cycle counter.
fn penalty_of(p: &mut Peripherals, bank: u8, addr: u16) -> u32 {
    let before = p.cy;
    p.do_io_cycle(bank, addr);
    p.cy - before
}

#[test]
fn io_penalty_follows_the_speed_map() {
    let mut p = fresh_bus();
    assert_eq!(penalty_of(&mut p, 0x00, 0x0000), 2); // WRAM mirror: slow
    assert_eq!(penalty_of(&mut p, 0x00, 0x4100), 6); // joypad region: xslow
    assert_eq!(penalty_of(&mut p, 0x00, 0x2100), 0); // register region: fast
    assert_eq!(penalty_of(&mut p, 0x00, 0x8000), 2); // cartridge low: slow
    assert_eq!(penalty_of(&mut p, 0x40, 0x0000), 2);
    assert_eq!(penalty_of(&mut p, 0x7E, 0x1234), 2);
    assert_eq!(penalty_of(&mut p, 0x80, 0x1000), 2);
    assert_eq!(penalty_of(&mut p, 0x80, 0x4000), 6);
    assert_eq!(penalty_of(&mut p, 0x80, 0x8000), 2); // slowROM
    assert_eq!(penalty_of(&mut p, 0xC0, 0x0000), 2); // slowROM
}

#[test]
fn io_penalty_depends_only_on_memsel_for_high_banks() {
    let mut p = fresh_bus();
    assert_eq!(penalty_of(&mut p, 0x80, 0x8000), 2);
    assert_eq!(penalty_of(&mut p, 0xC0, 0x1234), 2);
    p.store(0x00, 0x420D, 0x01); // enable fastROM
    assert_eq!(penalty_of(&mut p, 0x80, 0x8000), 0);
    assert_eq!(penalty_of(&mut p, 0xC0, 0x1234), 0);
    // regions outside the fastROM window are unaffected
    assert_eq!(penalty_of(&mut p, 0x80, 0x1000), 2);
    assert_eq!(penalty_of(&mut p, 0x00, 0x0000), 2);
}

#[test]
fn multiply_on_write() {
    let mut p = fresh_bus();
    assert_eq!(p.store(0x00, 0x4202, 0x10), StoreEffect::Done);
    assert_eq!(p.store(0x00, 0x4203, 0x20), StoreEffect::Done);
    assert_eq!(p.load(0x00, 0x4216), Some(0x00)); // product low
    assert_eq!(p.load(0x00, 0x4217), Some(0x02)); // product high: 0x0200
}

#[test]
fn multiply_max_operands() {
    let mut p = fresh_bus();
    p.store(0x00, 0x4202, 0xFF);
    p.store(0x00, 0x4203, 0xFF);
    // 0xFF * 0xFF = 0xFE01
    assert_eq!(p.load(0x00, 0x4216), Some(0x01));
    assert_eq!(p.load(0x00, 0x4217), Some(0xFE));
}

#[test]
fn divide_by_zero_yields_all_ones_and_dividend() {
    let mut p = fresh_bus();
    p.store(0x00, 0x4204, 0x34);
    p.store(0x00, 0x4205, 0x12);
    p.store(0x00, 0x4206, 0x00);
    assert_eq!(p.load(0x00, 0x4214), Some(0xFF)); // quotient low
    assert_eq!(p.load(0x00, 0x4215), Some(0xFF)); // quotient high
    assert_eq!(p.load(0x00, 0x4216), Some(0x34)); // remainder = dividend
    assert_eq!(p.load(0x00, 0x4217), Some(0x12));
}

#[test]
fn divide_on_write() {
    let mut p = fresh_bus();
    p.store(0x00, 0x4204, 0x07); // dividend 0x0007
    p.store(0x00, 0x4205, 0x00);
    p.store(0x00, 0x4206, 0x02); // divide by 2
    assert_eq!(p.load(0x00, 0x4214), Some(0x03));
    assert_eq!(p.load(0x00, 0x4215), Some(0x00));
    assert_eq!(p.load(0x00, 0x4216), Some(0x01)); // remainder
    assert_eq!(p.load(0x00, 0x4217), Some(0x00));
}

#[test]
fn wram_mirrors_low_banks() {
    let mut p = fresh_bus();
    p.store(0x00, 0x0010, 0xAB);
    assert_eq!(p.load(0x7E, 0x0010), Some(0xAB));
    assert_eq!(p.load(0x30, 0x0010), Some(0xAB));
    assert_eq!(p.load(0xBF, 0x0010), Some(0xAB));
    p.store(0x7F, 0x0020, 0xCD); // second WRAM bank is not mirrored
    assert_eq!(p.load(0x7F, 0x0020), Some(0xCD));
    assert_eq!(p.load(0x00, 0x0020), Some(0x00));
}

#[test]
fn wram_data_port_auto_increments() {
    let mut p = fresh_bus();
    // point the WRAM address at 0x000040
    p.store(0x00, 0x2181, 0x40);
    p.store(0x00, 0x2182, 0x00);
    p.store(0x00, 0x2183, 0x00);
    p.store(0x00, 0x2180, 0x11);
    p.store(0x00, 0x2180, 0x22);
    p.store(0x00, 0x2180, 0x33);
    // rewind and read back through the port
    p.store(0x00, 0x2181, 0x40);
    p.store(0x00, 0x2182, 0x00);
    p.store(0x00, 0x2183, 0x00);
    assert_eq!(p.load(0x00, 0x2180), Some(0x11));
    assert_eq!(p.load(0x00, 0x2180), Some(0x22));
    assert_eq!(p.load(0x00, 0x2180), Some(0x33));
    assert_eq!(p.load(0x7E, 0x0041), Some(0x22));
}

#[test]
fn wram_high_address_byte_keeps_one_bit() {
    let mut p = fresh_bus();
    p.store(0x00, 0x2183, 0xFF); // only bit 0 is kept
    p.store(0x00, 0x2181, 0x00);
    p.store(0x00, 0x2182, 0x00);
    p.store(0x00, 0x2180, 0x77); // lands at 0x10000 = bank 0x7F
    assert_eq!(p.load(0x7F, 0x0000), Some(0x77));
}

#[test]
fn mailbox_from_the_main_cpu_side() {
    let mut p = fresh_bus();
    p.store(0x00, 0x2140, 0x42);
    // the audio core sees the byte in its inbound mailbox
    assert_eq!(p.apu.load(0xF4), 0x42);
    // the outbound direction is backed by audio RAM
    p.apu.store(0xF4, 0x99).unwrap();
    assert_eq!(p.load(0x00, 0x2140), Some(0x99));
    // the window repeats every four bytes
    p.store(0x00, 0x2145, 0x55);
    assert_eq!(p.apu.load(0xF5), 0x55);
}

#[test]
fn nmi_flag_reads_clear_it() {
    let mut p = fresh_bus();
    p.nmi = true;
    assert_eq!(p.load(0x00, 0x4210), Some(0x82)); // flag plus chip version
    assert_eq!(p.load(0x00, 0x4210), Some(0x02));
    p.irq = true;
    assert_eq!(p.load(0x00, 0x4211), Some(0x80));
    assert_eq!(p.load(0x00, 0x4211), Some(0x00));
}

#[test]
fn write_only_ppu_registers_read_zero() {
    let mut p = fresh_bus();
    p.store(0x00, 0x2100, 0x8F);
    assert_eq!(p.load(0x00, 0x2100), Some(0));
    // the readable half of the window returns what was stored there
    assert_eq!(p.load(0x00, 0x2134), Some(0));
}

#[test]
fn cartridge_regions_are_reported() {
    let mut p = fresh_bus();
    assert_eq!(p.load(0x40, 0x0000), None);
    assert_eq!(p.load(0x00, 0x8000), None);
    assert_eq!(p.load(0xC5, 0x1234), None);
    assert_eq!(p.store(0x40, 0x0000, 1), StoreEffect::Cartridge);
    assert_eq!(p.store(0x00, 0x8000, 1), StoreEffect::Cartridge);
}

#[test]
fn dma_trigger_is_reported_with_its_mask() {
    let mut p = fresh_bus();
    assert_eq!(p.store(0x00, 0x420B, 0x03), StoreEffect::Dma { mask: 0x03 });
    // the channel registers themselves are plain storage
    assert_eq!(p.store(0x00, 0x4321, 0x99), StoreEffect::Done);
    assert_eq!(p.load(0x00, 0x4321), Some(0x99));
}

#[test]
fn h_v_match_registers_assemble_nine_bits() {
    let mut p = fresh_bus();
    p.store(0x00, 0x4207, 0x56);
    p.store(0x00, 0x4208, 0x01);
    p.store(0x00, 0x4209, 0x23);
    p.store(0x00, 0x420A, 0x00);
    assert_eq!(p.htime, 0x156);
    assert_eq!(p.vtime, 0x023);
}
