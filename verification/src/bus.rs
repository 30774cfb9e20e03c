//! The bus: decodes 24-bit addresses into WRAM, the picture-processor
//! window, the audio-core mailbox, the system registers and the cartridge,
//! charging the access penalty of each region.
//!
//! Loads and stores the cartridge must serve are reported to the caller
//! instead of performed (`None` / `StoreEffect::Cartridge`): the ROM mapper
//! is out of scope. The DMA trigger at 0x420B is likewise reported, and its
//! cycle cost comes back through `add_io_cycles` as deferred I/O cycles.

use vstd::prelude::*;

use crate::bus_model::PeriView;
use crate::bus_model::StoreEffect;
use crate::bus_model::spec_bus_load_fault;
use crate::bus_model::spec_bus_load_post;
use crate::bus_model::spec_bus_load_val;
use crate::bus_model::spec_bus_store_effect;
use crate::bus_model::spec_bus_store_fault;
use crate::bus_model::spec_bus_store_post;
use crate::bus_model::spec_charge_io;
use crate::bus_model::spec_inc_wram_ptr;
use crate::bus_model::spec_io_penalty;
use crate::bus_model::spec_peri_wf;
use crate::bus_model::spec_wram_ptr;
use crate::ppu::Ppu;
use crate::spc::Spc700;

verus! {

/// Everything connected to the main CPU through its two address buses.
pub struct Peripherals {
    pub apu: Spc700,
    pub ppu: Ppu,
    /// The 128 KiB of work RAM (separate from cartridge RAM).
    pub wram: Vec<u8>,
    /// Serial joypad bytes behind 0x4016/0x4017; the external peripherals
    /// decide what they hold.
    pub joy_ser: [u8; 2],
    /// Auto-joypad-read buffer behind 0x4218-0x421F; the external input
    /// subsystem fills it when the scheduler requests an auto-read.
    pub joy_auto: [u8; 8],
    /// The 8 DMA channels' 16 registers each, behind 0x4300-0x437F; the
    /// transfers themselves are the external DMA engine's.
    pub dma_regs: Vec<u8>,
    /// 0x2181 - WRAM address low byte.
    pub wmaddl: u8,
    /// 0x2182 - WRAM address middle byte.
    pub wmaddm: u8,
    /// 0x2183 - WRAM address high byte (only bit 0 is kept).
    pub wmaddh: u8,
    /// 0x420C - HDMA enable mask.
    pub hdmaen: u8,
    /// 0x4200 - interrupt and auto-joypad enable bits.
    pub nmien: u8,
    /// 0x4201 - programmable I/O out-port.
    pub wrio: u8,
    /// 0x4202 - first multiplicand.
    pub wrmpya: u8,
    /// 0x4203 - second multiplicand; writing it multiplies.
    pub wrmpyb: u8,
    /// 0x4204/0x4205 - dividend.
    pub wrdiv: u16,
    /// 0x4214/0x4215 - quotient.
    pub rddiv: u16,
    /// 0x4216/0x4217 - product or remainder.
    pub rdmpy: u16,
    /// 0x4207/0x4208 - H match value.
    pub htime: u16,
    /// 0x4209/0x420A - V match value.
    pub vtime: u16,
    /// 0x420D bit 0 - fastROM enable.
    pub memsel: bool,
    /// NMI flag; reading 0x4210 clears it.
    pub nmi: bool,
    /// IRQ flag; reading 0x4211 clears it.
    pub irq: bool,
    /// Accrued I/O penalty cycles, added to the next CPU step and reset.
    pub cy: u32,
}

impl View for Peripherals {
    type V = PeriView;

    open spec fn view(&self) -> PeriView {
        PeriView {
            apu: self.apu@,
            ppu: self.ppu@,
            wram: self.wram@,
            joy_ser: self.joy_ser@,
            joy_auto: self.joy_auto@,
            dma_regs: self.dma_regs@,
            wmaddl: self.wmaddl,
            wmaddm: self.wmaddm,
            wmaddh: self.wmaddh,
            hdmaen: self.hdmaen,
            nmien: self.nmien,
            wrio: self.wrio,
            wrmpya: self.wrmpya,
            wrmpyb: self.wrmpyb,
            wrdiv: self.wrdiv,
            rddiv: self.rddiv,
            rdmpy: self.rdmpy,
            htime: self.htime,
            vtime: self.vtime,
            memsel: self.memsel,
            nmi: self.nmi,
            irq: self.irq,
            cy: self.cy,
        }
    }
}

/// Low byte of a word.
fn word_lo(w: u16) -> (r: u8)
    ensures
        r == (w & 0xFF) as u8,
{
    proof {
        assert(w & 0xFF <= 0xFF) by (bit_vector);
    }
    (w & 0xFF) as u8
}

/// High byte of a word.
fn word_hi(w: u16) -> (r: u8)
    ensures
        r == ((w >> 8) & 0xFF) as u8,
{
    proof {
        assert((w >> 8) & 0xFF <= 0xFF) by (bit_vector);
    }
    ((w >> 8) & 0xFF) as u8
}

impl Peripherals {
    pub open spec fn wf(&self) -> bool {
        spec_peri_wf(self@)
    }

    /// A fresh bus with the reset values of the system registers; the audio
    /// core boots from the given IPL image.
    pub fn new(ipl_boot: &[u8; 64]) -> (r: Peripherals)
        ensures
            r.wf(),
            r@.wrdiv == 0xFFFF && r@.htime == 0x1FF && r@.vtime == 0x1FF,
            r@.memsel == false && r@.wrio == 0xFF && r@.wrmpya == 0xFF,
            r@.hdmaen == 0 && r@.nmien == 0 && r@.wrmpyb == 0 && r@.rddiv == 0 && r@.rdmpy == 0,
            r@.nmi == false && r@.irq == false && r@.cy == 0,
            r@.wmaddl == 0 && r@.wmaddm == 0 && r@.wmaddh == 0,
            forall|i: int| 0 <= i < 0x20000 ==> r@.wram[i] == 0u8,
            r@.ppu.v == 0 && r@.ppu.h == 0,
            r.apu.wf(),
            forall|i: int| 0 <= i < 0xFFC0 ==> r@.apu.mem[i] == 0u8,
            forall|i: int| 0xFFC0 <= i < 0x10000 ==> r@.apu.mem[i] == ipl_boot@[i - 0xFFC0],
            r@.apu.pc == crate::spc_model::spec_word(r@.apu.mem[0xFFFE], r@.apu.mem[0xFFFF]),
            r@.apu.a == 0 && r@.apu.x == 0 && r@.apu.y == 0 && r@.apu.sp == 0 && r@.apu.psw == 0,
    {
        Peripherals {
            apu: Spc700::new(ipl_boot),
            ppu: Ppu::new(),
            wram: vec![0u8; 0x20000],
            joy_ser: [0, 0],
            joy_auto: [0, 0, 0, 0, 0, 0, 0, 0],
            dma_regs: vec![0u8; 128],
            wmaddl: 0,
            wmaddm: 0,
            wmaddh: 0,
            hdmaen: 0,
            nmien: 0,
            wrio: 0xFF,
            wrmpya: 0xFF,
            wrmpyb: 0,
            wrdiv: 0xFFFF,
            rddiv: 0,
            rdmpy: 0,
            htime: 0x1FF,
            vtime: 0x1FF,
            memsel: false,
            nmi: false,
            irq: false,
            cy: 0,
        }
    }

    /// Whether the NMI of the vertical blank is enabled.
    pub fn nmi_enabled(&self) -> (r: bool)
        ensures
            r == (self@.nmien & 0x80 != 0),
    {
        self.nmien & 0x80 != 0
    }

    /// Whether the V counter match IRQ is enabled.
    pub fn v_irq_enabled(&self) -> (r: bool)
        ensures
            r == (self@.nmien & 0x10 != 0),
    {
        self.nmien & 0x10 != 0
    }

    /// Whether the H counter match IRQ is enabled.
    pub fn h_irq_enabled(&self) -> (r: bool)
        ensures
            r == (self@.nmien & 0x20 != 0),
    {
        self.nmien & 0x20 != 0
    }

    /// Charge the access penalty of one bus access. The penalty is a pure
    /// function of bank, address and the fastROM flag.
    pub fn do_io_cycle(&mut self, bank: u8, addr: u16)
        requires
            old(self).wf(),
            old(self)@.cy <= 0xFFFF_0000,
        ensures
            final(self).wf(),
            final(self)@ == spec_charge_io(old(self)@, bank, addr),
            final(self)@.cy == old(self)@.cy + spec_io_penalty(bank, addr, old(self)@.memsel),
    {
        let penalty: u32 = if bank <= 0x3F {
            if addr <= 0x1FFF || addr >= 0x6000 {
                2
            } else if 0x4000 <= addr && addr <= 0x41FF {
                6
            } else {
                0
            }
        } else if bank <= 0x7F {
            2
        } else if bank <= 0xBF {
            if addr <= 0x1FFF || (0x6000 <= addr && addr <= 0x7FFF) {
                2
            } else if 0x4000 <= addr && addr <= 0x41FF {
                6
            } else if addr >= 0x8000 {
                if self.memsel {
                    0
                } else {
                    2
                }
            } else {
                0
            }
        } else {
            if self.memsel {
                0
            } else {
                2
            }
        };
        self.cy = self.cy + penalty;
        proof {
            assert(self@ =~= spec_charge_io(old(self)@, bank, addr));
        }
    }

    /// Credit deferred cycles (DMA, HDMA and similar costs the caller ran on
    /// the coordinator's behalf); they surface on the next CPU step.
    pub fn add_io_cycles(&mut self, n: u32)
        requires
            old(self).wf(),
            old(self)@.cy + n <= u32::MAX,
        ensures
            final(self).wf(),
            final(self)@ == (PeriView { cy: (old(self)@.cy + n) as u32, ..old(self)@ }),
    {
        self.cy = self.cy + n;
        proof {
            assert(self@ =~= (PeriView { cy: (old(self)@.cy + n) as u32, ..old(self)@ }));
        }
    }

    /// Store one byte of the auto-joypad-read buffer; the external input
    /// subsystem calls this when the scheduler requests an auto-read.
    pub fn set_auto_joypad(&mut self, i: u8, value: u8)
        requires
            old(self).wf(),
            i < 8,
        ensures
            final(self).wf(),
            final(self)@ == (PeriView {
                joy_auto: old(self)@.joy_auto.update(i as int, value),
                ..old(self)@
            }),
    {
        self.joy_auto[i as usize] = value;
        proof {
            assert(self@ =~= (PeriView {
                joy_auto: old(self)@.joy_auto.update(i as int, value),
                ..old(self)@
            }));
        }
    }

    /// Read the WRAM pointer behind 0x2180 and advance it (wrapping within
    /// the 128 KiB of WRAM).
    fn get_and_inc_wram_addr(&mut self) -> (r: usize)
        requires
            old(self).wf(),
        ensures
            final(self).wf(),
            r == spec_wram_ptr(old(self)@),
            r < 0x20000,
            final(self)@ == spec_inc_wram_ptr(old(self)@),
    {
        let addr = (self.wmaddh as usize) * 0x10000 + (self.wmaddm as usize) * 0x100 + (
        self.wmaddl as usize);
        let new_addr = addr + 1;
        self.wmaddl = (new_addr % 0x100) as u8;
        self.wmaddm = ((new_addr / 0x100) % 0x100) as u8;
        self.wmaddh = ((new_addr / 0x10000) % 2) as u8;
        proof {
            assert(self@ =~= spec_inc_wram_ptr(old(self)@));
        }
        addr
    }

    /// One load from the main CPU's address space. Returns `None` exactly
    /// when the cartridge must serve the address; the access penalty is
    /// charged either way. Reads of write-only or open-bus registers
    /// return 0.
    pub fn load(&mut self, bank: u8, addr: u16) -> (r: Option<u8>)
        requires
            old(self).wf(),
            old(self)@.cy <= 0xFFFF_0000,
            !spec_bus_load_fault(bank, addr),
        ensures
            final(self).wf(),
            r == spec_bus_load_val(old(self)@, bank, addr),
            final(self)@ == spec_bus_load_post(old(self)@, bank, addr),
    {
        self.do_io_cycle(bank, addr);
        if (bank <= 0x3F) || (0x80 <= bank && bank <= 0xBF) {
            if addr <= 0x1FFF {
                Some(self.wram[addr as usize])
            } else if 0x2100 <= addr && addr <= 0x2133 {
                // write-only picture-processor registers
                Some(0)
            } else if 0x2134 <= addr && addr <= 0x213F {
                Some(self.ppu.load(addr))
            } else if 0x2140 <= addr && addr <= 0x217F {
                proof {
                    assert(addr & 0b11 < 4) by (bit_vector);
                }
                Some(self.apu.read_port((addr & 0b11) as u8))
            } else if addr == 0x2180 {
                let p = self.get_and_inc_wram_addr();
                proof {
                    assert(self@ =~= spec_bus_load_post(old(self)@, bank, addr));
                }
                Some(self.wram[p])
            } else if 0x2181 <= addr && addr <= 0x2183 {
                // the WRAM pointer itself reads as open bus
                Some(0)
            } else if addr == 0x4016 || addr == 0x4017 {
                Some(self.joy_ser[(addr - 0x4016) as usize])
            } else if addr == 0x4202 {
                Some(self.wrmpya)
            } else if addr == 0x4203 {
                Some(self.wrmpyb)
            } else if addr == 0x4210 {
                // NMI flag plus the constant chip version; reading clears
                let v: u8 = if self.nmi {
                    0x82
                } else {
                    2
                };
                self.nmi = false;
                proof {
                    assert(self@ =~= spec_bus_load_post(old(self)@, bank, addr));
                    assert((0x80u8 | 2) == 0x82u8 && (0u8 | 2) == 2u8) by (bit_vector);
                }
                Some(v)
            } else if addr == 0x4211 {
                let v: u8 = if self.irq {
                    0x80
                } else {
                    0
                };
                self.irq = false;
                proof {
                    assert(self@ =~= spec_bus_load_post(old(self)@, bank, addr));
                }
                Some(v)
            } else if addr == 0x4212 {
                let vb: u8 = if self.ppu.in_v_blank() {
                    0x80
                } else {
                    0
                };
                let hb: u8 = if self.ppu.in_h_blank() {
                    0x40
                } else {
                    0
                };
                Some(vb + hb)
            } else if addr == 0x4214 {
                Some(word_lo(self.rddiv))
            } else if addr == 0x4215 {
                Some(word_hi(self.rddiv))
            } else if addr == 0x4216 {
                Some(word_lo(self.rdmpy))
            } else if addr == 0x4217 {
                Some(word_hi(self.rdmpy))
            } else if 0x4218 <= addr && addr <= 0x421F {
                Some(self.joy_auto[(addr - 0x4218) as usize])
            } else if 0x4300 <= addr && addr <= 0x437F {
                Some(self.dma_regs[(addr - 0x4300) as usize])
            } else if addr >= 0x6000 {
                None
            } else {
                // unmapped: open bus
                Some(0)
            }
        } else if bank == 0x7E || bank == 0x7F {
            Some(self.wram[((bank - 0x7E) as usize) * 0x10000 + addr as usize])
        } else {
            None
        }
    }

    /// One store into the main CPU's address space. The returned effect
    /// names what the caller must still do (nothing, a cartridge write, or
    /// a DMA transfer); the access penalty is charged either way.
    pub fn store(&mut self, bank: u8, addr: u16, value: u8) -> (r: StoreEffect)
        requires
            old(self).wf(),
            old(self)@.cy <= 0xFFFF_0000,
            !spec_bus_store_fault(bank, addr, value),
        ensures
            final(self).wf(),
            r == spec_bus_store_effect(bank, addr, value),
            final(self)@ == spec_bus_store_post(old(self)@, bank, addr, value),
    {
        self.do_io_cycle(bank, addr);
        if (bank <= 0x3F) || (0x80 <= bank && bank <= 0xBF) {
            if addr <= 0x1FFF {
                self.wram[addr as usize] = value;
                proof {
                    assert(self@ =~= spec_bus_store_post(old(self)@, bank, addr, value));
                }
                StoreEffect::Done
            } else if 0x2100 <= addr && addr <= 0x2133 {
                self.ppu.store(addr, value);
                proof {
                    assert(self@ =~= spec_bus_store_post(old(self)@, bank, addr, value));
                }
                StoreEffect::Done
            } else if 0x2134 <= addr && addr <= 0x213F {
                // read-only picture-processor registers: ignored
                StoreEffect::Done
            } else if 0x2140 <= addr && addr <= 0x217F {
                proof {
                    assert(addr & 0b11 < 4) by (bit_vector);
                }
                self.apu.store_port((addr & 0b11) as u8, value);
                proof {
                    assert(self@ =~= spec_bus_store_post(old(self)@, bank, addr, value));
                }
                StoreEffect::Done
            } else if addr == 0x2180 {
                let p = self.get_and_inc_wram_addr();
                self.wram[p] = value;
                proof {
                    assert(self@ =~= spec_bus_store_post(old(self)@, bank, addr, value));
                }
                StoreEffect::Done
            } else if addr == 0x2181 {
                self.wmaddl = value;
                proof {
                    assert(self@ =~= spec_bus_store_post(old(self)@, bank, addr, value));
                }
                StoreEffect::Done
            } else if addr == 0x2182 {
                self.wmaddm = value;
                proof {
                    assert(self@ =~= spec_bus_store_post(old(self)@, bank, addr, value));
                }
                StoreEffect::Done
            } else if addr == 0x2183 {
                self.wmaddh = value & 1;
                proof {
                    assert(value & 1 <= 1) by (bit_vector);
                    assert(self@ =~= spec_bus_store_post(old(self)@, bank, addr, value));
                }
                StoreEffect::Done
            } else if addr <= 0x21FF {
                // invalid mirror region: ignored
                StoreEffect::Done
            } else if addr == 0x4016 {
                self.joy_ser[0] = value;
                proof {
                    assert(self@ =~= spec_bus_store_post(old(self)@, bank, addr, value));
                }
                StoreEffect::Done
            } else if addr == 0x4200 {
                self.nmien = value;
                proof {
                    assert(self@ =~= spec_bus_store_post(old(self)@, bank, addr, value));
                }
                StoreEffect::Done
            } else if addr == 0x4201 {
                self.wrio = value;
                self.ppu.set_can_latch(value & 0x80 != 0);
                proof {
                    assert(self@ =~= spec_bus_store_post(old(self)@, bank, addr, value));
                }
                StoreEffect::Done
            } else if addr == 0x4202 {
                self.wrmpya = value;
                proof {
                    assert(self@ =~= spec_bus_store_post(old(self)@, bank, addr, value));
                }
                StoreEffect::Done
            } else if addr == 0x4203 {
                // writing the second multiplicand performs the multiply
                self.wrmpyb = value;
                let a16 = self.wrmpya as u16;
                let b16 = value as u16;
                proof {
                    assert(a16 * b16 <= 65025) by (nonlinear_arith)
                        requires
                            a16 <= 255,
                            b16 <= 255,
                    ;
                }
                self.rdmpy = a16 * b16;
                proof {
                    assert(self@ =~= spec_bus_store_post(old(self)@, bank, addr, value));
                }
                StoreEffect::Done
            } else if addr == 0x4204 {
                self.wrdiv = (self.wrdiv & 0xFF00) | (value as u16);
                proof {
                    assert(self@ =~= spec_bus_store_post(old(self)@, bank, addr, value));
                }
                StoreEffect::Done
            } else if addr == 0x4205 {
                self.wrdiv = ((value as u16) << 8) | (self.wrdiv & 0xFF);
                proof {
                    assert(self@ =~= spec_bus_store_post(old(self)@, bank, addr, value));
                }
                StoreEffect::Done
            } else if addr == 0x4206 {
                // writing the divisor performs the division; dividing by
                // zero yields the all-ones quotient and leaves the dividend
                // as the remainder
                if value == 0 {
                    self.rddiv = 0xFFFF;
                    self.rdmpy = self.wrdiv;
                } else {
                    let d = value as u16;
                    self.rddiv = self.wrdiv / d;
                    self.rdmpy = self.wrdiv % d;
                }
                proof {
                    assert(self@ =~= spec_bus_store_post(old(self)@, bank, addr, value));
                }
                StoreEffect::Done
            } else if addr == 0x4207 {
                self.htime = (self.htime & 0xFF00) | (value as u16);
                proof {
                    assert(self@ =~= spec_bus_store_post(old(self)@, bank, addr, value));
                }
                StoreEffect::Done
            } else if addr == 0x4208 {
                self.htime = ((value as u16) << 8) | (self.htime & 0xFF);
                proof {
                    assert(self@ =~= spec_bus_store_post(old(self)@, bank, addr, value));
                }
                StoreEffect::Done
            } else if addr == 0x4209 {
                self.vtime = (self.vtime & 0xFF00) | (value as u16);
                proof {
                    assert(self@ =~= spec_bus_store_post(old(self)@, bank, addr, value));
                }
                StoreEffect::Done
            } else if addr == 0x420A {
                self.vtime = ((value as u16) << 8) | (self.vtime & 0xFF);
                proof {
                    assert(self@ =~= spec_bus_store_post(old(self)@, bank, addr, value));
                }
                StoreEffect::Done
            } else if addr == 0x420B {
                // general DMA: the transfer is the external engine's
                StoreEffect::Dma { mask: value }
            } else if addr == 0x420C {
                self.hdmaen = value;
                proof {
                    assert(self@ =~= spec_bus_store_post(old(self)@, bank, addr, value));
                }
                StoreEffect::Done
            } else if addr == 0x420D {
                self.memsel = value & 1 != 0;
                proof {
                    assert(self@ =~= spec_bus_store_post(old(self)@, bank, addr, value));
                }
                StoreEffect::Done
            } else if 0x4300 <= addr && addr <= 0x437F {
                self.dma_regs[(addr - 0x4300) as usize] = value;
                proof {
                    assert(self@ =~= spec_bus_store_post(old(self)@, bank, addr, value));
                }
                StoreEffect::Done
            } else {
                // 0x8000-0xFFFF: the cartridge's
                StoreEffect::Cartridge
            }
        } else if bank == 0x7E || bank == 0x7F {
            self.wram[((bank - 0x7E) as usize) * 0x10000 + addr as usize] = value;
            proof {
                assert(self@ =~= spec_bus_store_post(old(self)@, bank, addr, value));
            }
            StoreEffect::Done
        } else {
            StoreEffect::Cartridge
        }
    }

    /// An exact copy of the bus state (for save states).
    pub fn duplicate(&self) -> (r: Peripherals)
        requires
            self.wf(),
        ensures
            r.wf(),
            r@ == self@,
    {
        let wram = self.wram.clone();
        let dma_regs = self.dma_regs.clone();
        proof {
            assert forall|i: int| 0 <= i < self.wram@.len() implies wram@[i] == self.wram@[i] by {}
            assert(wram@ =~= self.wram@);
            assert forall|i: int| 0 <= i < self.dma_regs@.len() implies dma_regs@[i]
                == self.dma_regs@[i] by {}
            assert(dma_regs@ =~= self.dma_regs@);
        }
        let r = Peripherals {
            apu: self.apu.duplicate(),
            ppu: self.ppu.duplicate(),
            wram,
            joy_ser: self.joy_ser,
            joy_auto: self.joy_auto,
            dma_regs,
            wmaddl: self.wmaddl,
            wmaddm: self.wmaddm,
            wmaddh: self.wmaddh,
            hdmaen: self.hdmaen,
            nmien: self.nmien,
            wrio: self.wrio,
            wrmpya: self.wrmpya,
            wrmpyb: self.wrmpyb,
            wrdiv: self.wrdiv,
            rddiv: self.rddiv,
            rdmpy: self.rdmpy,
            htime: self.htime,
            vtime: self.vtime,
            memsel: self.memsel,
            nmi: self.nmi,
            irq: self.irq,
            cy: self.cy,
        };
        proof {
            assert(r@ =~= self@);
        }
        r
    }
}

} // verus!
