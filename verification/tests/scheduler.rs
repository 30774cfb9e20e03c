//! Tests of the scheduler: debt charging, scanline events, interrupt
//! short-circuits and save states.

use snes_core::scheduler::{Event, Snes};

/// An IPL whose program loops forever (clrc ; bra back), so the audio core
/// always has a legal instruction to execute.
fn loop_ipl() -> [u8; 64] {
    let mut ipl = [0u8; 64];
    ipl[0] = 0x60; // clrc
    ipl[1] = 0x2F; // bra -3
    ipl[2] = 0xFD;
    ipl[62] = 0xC0;
    ipl[63] = 0xFF;
    ipl
}

#[test]
fn charge_is_floored_at_three_master_cycles() {
    let mut snes = Snes::new(&loop_ipl());
    // A waiting CPU reports zero cycles; the floor keeps the machine alive.
    let charged = snes.charge_cycles(0);
    assert_eq!(charged, 3);
    assert_eq!(snes.apu_master_cy_debt, 3);
    assert_eq!(snes.ppu_master_cy_debt, 3);
    assert_eq!(snes.master_cy, 3);
}

#[test]
fn charge_adds_six_per_cpu_cycle_plus_io() {
    let mut snes = Snes::new(&loop_ipl());
    snes.mem.cy = 100; // deferred I/O cycles from the last instruction
    let charged = snes.charge_cycles(10);
    assert_eq!(charged, 160);
    assert_eq!(snes.mem.cy, 0); // consumed
    assert_eq!(snes.apu_master_cy_debt, 160);
    assert_eq!(snes.ppu_master_cy_debt, 160);
    assert_eq!(snes.master_cy, 160);
}

#[test]
fn debts_grow_by_the_same_amount() {
    let mut snes = Snes::new(&loop_ipl());
    snes.apu_master_cy_debt = -5;
    snes.ppu_master_cy_debt = 17;
    let charged = snes.charge_cycles(4);
    assert_eq!(charged, 24);
    assert_eq!(snes.apu_master_cy_debt, 19);
    assert_eq!(snes.ppu_master_cy_debt, 41);
}

#[test]
fn apu_debt_is_drained_below_the_divider() {
    let mut snes = Snes::new(&loop_ipl());
    let ev = snes.run_cpu_instruction(40).unwrap();
    assert!(snes.apu_master_cy_debt <= 21);
    assert!(snes.ppu_master_cy_debt <= 0);
    assert!(!ev.contains(&Event::Nmi));
}

#[test]
fn frame_is_rendered_exactly_once_per_frame() {
    let mut snes = Snes::new(&loop_ipl());
    // Two full frames of 340 x 262 dots at 4 master cycles each.
    let frame_cycles: u64 = 340 * 262 * 4;
    let mut frames = 0u32;
    let mut steps = 0u32;
    while snes.master_cy < 2 * frame_cycles {
        let ev = snes.run_cpu_instruction(200).unwrap();
        frames += ev.iter().filter(|e| **e == Event::FrameDone).count() as u32;
        steps += 1;
        assert!(steps < 100_000);
    }
    assert_eq!(frames, 2);
}

#[test]
fn hdma_events_fire_with_the_enable_mask() {
    let mut snes = Snes::new(&loop_ipl());
    snes.mem.store(0x00, 0x420C, 0x05); // enable HDMA channels 0 and 2
    let mut init_seen = 0u32;
    let mut transfers = 0u32;
    // stop shortly before the frame boundary so the overshoot of the last
    // step cannot reach into the next frame
    let frame_cycles: u64 = 340 * 262 * 4 - 4000;
    while snes.master_cy < frame_cycles {
        let ev = snes.run_cpu_instruction(200).unwrap();
        for e in ev.iter() {
            match e {
                Event::HdmaInit { mask } => {
                    assert_eq!(*mask, 0x05);
                    init_seen += 1;
                }
                Event::HdmaTransfer { mask } => {
                    assert_eq!(*mask, 0x05);
                    transfers += 1;
                }
                _ => {}
            }
        }
    }
    assert_eq!(init_seen, 1); // once per frame, at (0, 6)
    assert_eq!(transfers, 225); // once per visible line, at dot 278
}

#[test]
fn nmi_breaks_the_drain_at_vblank_start() {
    let mut snes = Snes::new(&loop_ipl());
    snes.mem.store(0x00, 0x4200, 0x80); // enable the vertical-blank NMI
    let mut fired = false;
    for _ in 0..200_000 {
        // The CPU executes a wait instruction: zero cycles reported.
        let ev = snes.run_cpu_instruction(0).unwrap();
        if ev.contains(&Event::Nmi) {
            assert_eq!(*ev.last().unwrap(), Event::Nmi);
            assert!(snes.mem.nmi);
            assert_eq!(snes.mem.ppu.v_counter(), 225);
            assert_eq!(snes.mem.ppu.h_counter(), 0);
            fired = true;
            break;
        }
    }
    assert!(fired);
    // Reading 0x4210 afterwards clears the flag.
    assert_eq!(snes.mem.load(0x00, 0x4210), Some(0x82));
    assert!(!snes.mem.nmi);
}

#[test]
fn nmi_break_leaves_remaining_ppu_debt() {
    let mut snes = Snes::new(&loop_ipl());
    snes.mem.store(0x00, 0x4200, 0x80);
    // Creep up to the last visible scanline in sub-dot steps, then take one
    // step so large that the vertical blank must begin in the middle of it:
    // the break then leaves picture debt still owed.
    let mut steps = 0u64;
    while snes.mem.ppu.v_counter() != 224 {
        snes.run_cpu_instruction(0).unwrap();
        steps += 1;
        assert!(steps < 1_000_000);
    }
    let ev = snes.run_cpu_instruction(255).unwrap();
    assert_eq!(*ev.last().unwrap(), Event::Nmi);
    assert!(snes.ppu_master_cy_debt > 0);
}

#[test]
fn v_counter_match_raises_irq_and_breaks() {
    let mut snes = Snes::new(&loop_ipl());
    snes.mem.store(0x00, 0x4209, 0x05); // vtime = 5
    snes.mem.store(0x00, 0x420A, 0x00);
    snes.mem.store(0x00, 0x4200, 0x10); // enable the V counter IRQ
    let mut fired = false;
    for _ in 0..200_000 {
        let ev = snes.run_cpu_instruction(0).unwrap();
        if ev.contains(&Event::Irq) {
            assert_eq!(*ev.last().unwrap(), Event::Irq);
            assert!(snes.mem.irq);
            assert_eq!(snes.mem.ppu.v_counter(), 5);
            fired = true;
            break;
        }
    }
    assert!(fired);
    assert_eq!(snes.mem.load(0x00, 0x4211), Some(0x80)); // read clears
    assert!(!snes.mem.irq);
}

#[test]
fn auto_joypad_read_fires_only_when_enabled() {
    let mut snes = Snes::new(&loop_ipl());
    // stop shortly before the frame boundary so the overshoot of the last
    // step cannot reach into the next frame
    let frame_cycles: u64 = 340 * 262 * 4 - 4000;
    let mut seen = 0u32;
    while snes.master_cy < frame_cycles {
        let ev = snes.run_cpu_instruction(200).unwrap();
        seen += ev.iter().filter(|e| **e == Event::AutoJoypadRead).count() as u32;
    }
    assert_eq!(seen, 0); // bit 0 of 0x4200 is clear
    let mut snes = Snes::new(&loop_ipl());
    snes.mem.store(0x00, 0x4200, 0x01);
    let mut seen = 0u32;
    while snes.master_cy < frame_cycles {
        let ev = snes.run_cpu_instruction(200).unwrap();
        seen += ev.iter().filter(|e| **e == Event::AutoJoypadRead).count() as u32;
    }
    assert_eq!(seen, 1); // once per frame, at (225, 50)
}

#[test]
fn save_restore_roundtrip() {
    let mut snes = Snes::new(&loop_ipl());
    snes.mem.store(0x00, 0x0123, 0x77);
    snes.mem.store(0x00, 0x4202, 0x11);
    for _ in 0..50 {
        snes.run_cpu_instruction(20).unwrap();
    }
    // capture, record observables, run on, then restore
    let st = snes.save();
    let master = snes.master_cy;
    let apu_debt = snes.apu_master_cy_debt;
    let ppu_debt = snes.ppu_master_cy_debt;
    let pc = snes.mem.apu.pc();
    let a = snes.mem.apu.reg_a();
    let v = snes.mem.ppu.v_counter();
    let h = snes.mem.ppu.h_counter();
    for _ in 0..50 {
        snes.run_cpu_instruction(20).unwrap();
    }
    assert_ne!(snes.master_cy, master);
    snes.restore(&st);
    assert_eq!(snes.master_cy, master);
    assert_eq!(snes.apu_master_cy_debt, apu_debt);
    assert_eq!(snes.ppu_master_cy_debt, ppu_debt);
    assert_eq!(snes.mem.apu.pc(), pc);
    assert_eq!(snes.mem.apu.reg_a(), a);
    assert_eq!(snes.mem.ppu.v_counter(), v);
    assert_eq!(snes.mem.ppu.h_counter(), h);
    assert_eq!(snes.mem.load(0x00, 0x0123), Some(0x77));
    assert_eq!(snes.mem.load(0x00, 0x4202), Some(0x11));
}

#[test]
fn audio_fault_propagates_out_of_the_scheduler() {
    // An all-zero IPL leaves the audio core on an illegal opcode.
    let mut snes = Snes::new(&[0u8; 64]);
    assert!(snes.run_cpu_instruction(100).is_err());
}

#[test]
fn peripherals_accessors() {
    let mut snes = Snes::new(&loop_ipl());
    assert_eq!(snes.peripherals().wrmpya, 0xFF);
    snes.peripherals_mut().store(0x00, 0x4202, 0x21);
    assert_eq!(snes.peripherals().wrmpya, 0x21);
}
