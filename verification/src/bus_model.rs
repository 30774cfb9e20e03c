//! Mathematical model of the bus.
//!
//! `PeriView` is the abstract state of everything the coordinator owns on
//! the two address buses: the audio core, the picture processor model, the
//! 128 KiB of work RAM, the DMA channel registers, the system registers and
//! the accrued I/O penalty cycles. The spec functions here map the view
//! before a bus operation to the view after it; a load or store that the
//! cartridge must serve is reported instead of performed, and the deferred
//! DMA trigger of 0x420B is reported as an effect.

use vstd::prelude::*;
use vstd::wrapping::u32_specs;

use crate::ppu::PpuView;
use crate::spc_model::SpcView;

verus! {

/// Abstract state of the bus and the devices it owns.
#[verifier::ext_equal]
pub struct PeriView {
    pub apu: SpcView,
    pub ppu: PpuView,
    /// 128 KiB of work RAM.
    pub wram: Seq<u8>,
    /// Serial joypad bytes behind 0x4016/0x4017 (peripherals are external;
    /// these hold what they last produced).
    pub joy_ser: Seq<u8>,
    /// Auto-joypad-read buffer behind 0x4218-0x421F.
    pub joy_auto: Seq<u8>,
    /// The 8 DMA channels' 16 registers each, behind 0x4300-0x437F.
    pub dma_regs: Seq<u8>,
    /// 0x2181-0x2183: the auto-incrementing WRAM pointer (low, middle, high;
    /// the high byte keeps only its lowest bit).
    pub wmaddl: u8,
    pub wmaddm: u8,
    pub wmaddh: u8,
    /// 0x420C: HDMA channel enable mask.
    pub hdmaen: u8,
    /// 0x4200: interrupt and auto-joypad enable bits.
    pub nmien: u8,
    /// 0x4201: programmable I/O out-port.
    pub wrio: u8,
    /// 0x4202: first multiplicand.
    pub wrmpya: u8,
    /// 0x4203: second multiplicand; writing it multiplies.
    pub wrmpyb: u8,
    /// 0x4204/0x4205: dividend.
    pub wrdiv: u16,
    /// 0x4214/0x4215: quotient.
    pub rddiv: u16,
    /// 0x4216/0x4217: product or remainder.
    pub rdmpy: u16,
    /// 0x4207/0x4208: H match value (9 bits).
    pub htime: u16,
    /// 0x4209/0x420A: V match value (9 bits).
    pub vtime: u16,
    /// 0x420D bit 0: fastROM enable.
    pub memsel: bool,
    /// NMI flag; reading 0x4210 clears it.
    pub nmi: bool,
    /// IRQ flag; reading 0x4211 clears it.
    pub irq: bool,
    /// Accrued I/O penalty cycles, surfaced on the next CPU step.
    pub cy: u32,
}

/// Well-formedness of the bus state.
pub open spec fn spec_peri_wf(s: PeriView) -> bool {
    &&& crate::spc_model::spec_wf(s.apu)
    &&& s.ppu.v < crate::ppu::LINES_PER_FRAME
    &&& s.ppu.h < crate::ppu::DOTS_PER_LINE
    &&& s.ppu.regs.len() == 64
    &&& s.wram.len() == 0x20000
    &&& s.joy_ser.len() == 2
    &&& s.joy_auto.len() == 8
    &&& s.dma_regs.len() == 128
    &&& s.wmaddh <= 1
}

/// Master-cycle penalty of one bus access, decided by bank, address and the
/// fastROM flag alone.
pub open spec fn spec_io_penalty(bank: u8, addr: u16, memsel: bool) -> u32 {
    if bank <= 0x3F {
        if addr <= 0x1FFF || addr >= 0x6000 {
            2
        } else if 0x4000 <= addr && addr <= 0x41FF {
            6
        } else {
            0
        }
    } else if bank <= 0x7F {
        2
    } else if bank <= 0xBF {
        if addr <= 0x1FFF || (0x6000 <= addr && addr <= 0x7FFF) {
            2
        } else if 0x4000 <= addr && addr <= 0x41FF {
            6
        } else if addr >= 0x8000 {
            if memsel {
                0
            } else {
                2
            }
        } else {
            0
        }
    } else {
        if memsel {
            0
        } else {
            2
        }
    }
}

/// The state after the access penalty is charged.
pub open spec fn spec_charge_io(s: PeriView, bank: u8, addr: u16) -> PeriView {
    PeriView { cy: u32_specs::wrapping_add(s.cy, spec_io_penalty(bank, addr, s.memsel)), ..s }
}

/// The 17-bit WRAM pointer behind 0x2180.
pub open spec fn spec_wram_ptr(s: PeriView) -> int {
    (s.wmaddh as int) * 0x10000 + (s.wmaddm as int) * 0x100 + (s.wmaddl as int)
}

/// The state after the WRAM pointer advanced by one (its high byte keeps
/// only the lowest bit, so the pointer wraps at 128 KiB).
pub open spec fn spec_inc_wram_ptr(s: PeriView) -> PeriView {
    let new = spec_wram_ptr(s) + 1;
    PeriView {
        wmaddl: (new % 0x100) as u8,
        wmaddm: ((new / 0x100) % 0x100) as u8,
        wmaddh: ((new / 0x10000) % 2) as u8,
        ..s
    }
}

/// Whether the address decodes to one of the low system banks 0x00-0x3F or
/// 0x80-0xBF.
pub open spec fn spec_sys_bank(bank: u8) -> bool {
    bank <= 0x3F || (0x80 <= bank && bank <= 0xBF)
}

/// Whether a load is a fatal decoding error: the DMA window decodes a
/// channel from bits 4-7 of the address, and channels 8-15 do not exist.
pub open spec fn spec_bus_load_fault(bank: u8, addr: u16) -> bool {
    spec_sys_bank(bank) && 0x4380 <= addr && addr <= 0x43FF
}

/// The byte a bus load returns, or `None` when the cartridge must serve it.
/// Reads of write-only or open-bus registers return 0.
pub open spec fn spec_bus_load_val(s: PeriView, bank: u8, addr: u16) -> Option<u8> {
    if spec_sys_bank(bank) {
        if addr <= 0x1FFF {
            Some(s.wram[addr as int])
        } else if 0x2100 <= addr && addr <= 0x2133 {
            Some(0u8)
        } else if 0x2134 <= addr && addr <= 0x213F {
            Some(s.ppu.regs[addr - 0x2100])
        } else if 0x2140 <= addr && addr <= 0x217F {
            Some(s.apu.mem[0xF4 + (addr & 0b11)])
        } else if addr == 0x2180 {
            Some(s.wram[spec_wram_ptr(s)])
        } else if 0x2181 <= addr && addr <= 0x2183 {
            Some(0u8)
        } else if addr == 0x4016 || addr == 0x4017 {
            Some(s.joy_ser[addr - 0x4016])
        } else if addr == 0x4202 {
            Some(s.wrmpya)
        } else if addr == 0x4203 {
            Some(s.wrmpyb)
        } else if addr == 0x4210 {
            Some(((if s.nmi { 0x80u8 } else { 0u8 }) | 2) as u8)
        } else if addr == 0x4211 {
            Some(if s.irq { 0x80u8 } else { 0u8 })
        } else if addr == 0x4212 {
            Some(
                ((if s.ppu.v >= crate::ppu::VBLANK_START { 0x80u8 } else { 0u8 }) + (if s.ppu.h
                    >= crate::ppu::HBLANK_START {
                    0x40u8
                } else {
                    0u8
                })) as u8,
            )
        } else if addr == 0x4214 {
            Some((s.rddiv & 0xFF) as u8)
        } else if addr == 0x4215 {
            Some(((s.rddiv >> 8) & 0xFF) as u8)
        } else if addr == 0x4216 {
            Some((s.rdmpy & 0xFF) as u8)
        } else if addr == 0x4217 {
            Some(((s.rdmpy >> 8) & 0xFF) as u8)
        } else if 0x4218 <= addr && addr <= 0x421F {
            Some(s.joy_auto[addr - 0x4218])
        } else if 0x4300 <= addr && addr <= 0x437F {
            Some(s.dma_regs[(addr - 0x4300) as int])
        } else if addr >= 0x6000 {
            None
        } else {
            Some(0u8)
        }
    } else if bank == 0x7E || bank == 0x7F {
        Some(s.wram[(bank - 0x7E) * 0x10000 + addr])
    } else {
        None
    }
}

/// The state after a bus load: the access penalty is charged, the WRAM data
/// port advances its pointer, and reading an interrupt flag clears it.
pub open spec fn spec_bus_load_post(s: PeriView, bank: u8, addr: u16) -> PeriView {
    let s1 = spec_charge_io(s, bank, addr);
    if spec_sys_bank(bank) {
        if addr == 0x2180 {
            spec_inc_wram_ptr(s1)
        } else if addr == 0x4210 {
            PeriView { nmi: false, ..s1 }
        } else if addr == 0x4211 {
            PeriView { irq: false, ..s1 }
        } else {
            s1
        }
    } else {
        s1
    }
}

/// What a bus store asks of the caller: nothing, a cartridge write, or a
/// general DMA transfer whose cycle cost comes back as deferred I/O cycles.
#[derive(Clone, Copy, PartialEq, Eq, Structural, Debug)]
pub enum StoreEffect {
    /// The store was performed by the coordinator itself.
    Done,
    /// The store belongs to the cartridge.
    Cartridge,
    /// The store hit 0x420B: the DMA engine must run the channels in `mask`.
    Dma { mask: u8 },
}

/// Whether a bus store is a fatal decoding error: a store to an address no
/// device claims, an out-of-range H/V match high byte, or a DMA channel
/// that does not exist.
pub open spec fn spec_bus_store_fault(bank: u8, addr: u16, value: u8) -> bool {
    if spec_sys_bank(bank) {
        if addr <= 0x21FF && !(0x2000 <= addr && addr <= 0x20FF) {
            false
        } else if addr == 0x4016 || addr == 0x4200 || addr == 0x4201 || addr == 0x4202 || addr
            == 0x4203 || addr == 0x4204 || addr == 0x4205 || addr == 0x4206 || addr == 0x4207
            || addr == 0x4209 || addr == 0x420B || addr == 0x420C || addr == 0x420D {
            false
        } else if addr == 0x4208 || addr == 0x420A {
            value > 1
        } else if 0x4300 <= addr && addr <= 0x437F {
            false
        } else if 0x4380 <= addr && addr <= 0x43FF {
            true
        } else if addr >= 0x8000 {
            false
        } else {
            true
        }
    } else {
        false
    }
}

/// The effect a non-faulting bus store reports.
pub open spec fn spec_bus_store_effect(bank: u8, addr: u16, value: u8) -> StoreEffect {
    if spec_sys_bank(bank) {
        if addr == 0x420B {
            StoreEffect::Dma { mask: value }
        } else if addr >= 0x8000 {
            StoreEffect::Cartridge
        } else {
            StoreEffect::Done
        }
    } else if bank == 0x7E || bank == 0x7F {
        StoreEffect::Done
    } else {
        StoreEffect::Cartridge
    }
}

/// The state after a non-faulting bus store (the access penalty included).
pub open spec fn spec_bus_store_post(s: PeriView, bank: u8, addr: u16, value: u8) -> PeriView {
    let s1 = spec_charge_io(s, bank, addr);
    if spec_sys_bank(bank) {
        if addr <= 0x1FFF {
            PeriView { wram: s1.wram.update(addr as int, value), ..s1 }
        } else if 0x2100 <= addr && addr <= 0x2133 {
            PeriView {
                ppu: PpuView { regs: s1.ppu.regs.update(addr - 0x2100, value), ..s1.ppu },
                ..s1
            }
        } else if 0x2134 <= addr && addr <= 0x213F {
            s1  // read-only picture-processor registers: the store is ignored
        } else if 0x2140 <= addr && addr <= 0x217F {
            PeriView {
                apu: SpcView {
                    io_vals: s1.apu.io_vals.update((addr & 0b11) as int, value),
                    ..s1.apu
                },
                ..s1
            }
        } else if addr == 0x2180 {
            let s2 = PeriView { wram: s1.wram.update(spec_wram_ptr(s1), value), ..s1 };
            spec_inc_wram_ptr(s2)
        } else if addr == 0x2181 {
            PeriView { wmaddl: value, ..s1 }
        } else if addr == 0x2182 {
            PeriView { wmaddm: value, ..s1 }
        } else if addr == 0x2183 {
            PeriView { wmaddh: (value & 1) as u8, ..s1 }
        } else if addr <= 0x21FF {
            s1  // invalid mirror region: the store is ignored with a warning
        } else if addr == 0x4016 {
            PeriView { joy_ser: s1.joy_ser.update(0, value), ..s1 }
        } else if addr == 0x4200 {
            PeriView { nmien: value, ..s1 }
        } else if addr == 0x4201 {
            PeriView {
                wrio: value,
                ppu: PpuView { can_latch: value & 0x80 != 0, ..s1.ppu },
                ..s1
            }
        } else if addr == 0x4202 {
            PeriView { wrmpya: value, ..s1 }
        } else if addr == 0x4203 {
            PeriView { wrmpyb: value, rdmpy: (s1.wrmpya as int * value as int) as u16, ..s1 }
        } else if addr == 0x4204 {
            PeriView { wrdiv: ((s1.wrdiv & 0xFF00) | (value as u16)) as u16, ..s1 }
        } else if addr == 0x4205 {
            PeriView { wrdiv: (((value as u16) << 8) | (s1.wrdiv & 0xFF)) as u16, ..s1 }
        } else if addr == 0x4206 {
            // Division by zero yields the all-ones quotient and leaves the
            // dividend as the remainder.
            if value == 0 {
                PeriView { rddiv: 0xFFFF, rdmpy: s1.wrdiv, ..s1 }
            } else {
                PeriView {
                    rddiv: (s1.wrdiv as int / value as int) as u16,
                    rdmpy: (s1.wrdiv as int % value as int) as u16,
                    ..s1
                }
            }
        } else if addr == 0x4207 {
            PeriView { htime: ((s1.htime & 0xFF00) | (value as u16)) as u16, ..s1 }
        } else if addr == 0x4208 {
            PeriView { htime: (((value as u16) << 8) | (s1.htime & 0xFF)) as u16, ..s1 }
        } else if addr == 0x4209 {
            PeriView { vtime: ((s1.vtime & 0xFF00) | (value as u16)) as u16, ..s1 }
        } else if addr == 0x420A {
            PeriView { vtime: (((value as u16) << 8) | (s1.vtime & 0xFF)) as u16, ..s1 }
        } else if addr == 0x420B {
            s1  // the DMA transfer itself is the caller's: see `StoreEffect`
        } else if addr == 0x420C {
            PeriView { hdmaen: value, ..s1 }
        } else if addr == 0x420D {
            PeriView { memsel: value & 1 != 0, ..s1 }
        } else if 0x4300 <= addr && addr <= 0x437F {
            PeriView { dma_regs: s1.dma_regs.update((addr - 0x4300) as int, value), ..s1 }
        } else {
            s1  // cartridge region: the store is the caller's
        }
    } else if bank == 0x7E || bank == 0x7F {
        PeriView { wram: s1.wram.update((bank - 0x7E) * 0x10000 + addr, value), ..s1 }
    } else {
        s1  // cartridge banks: the store is the caller's
    }
}

} // verus!
