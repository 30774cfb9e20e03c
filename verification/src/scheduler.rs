//! The scheduler: interleaves the main CPU, the audio core and the picture
//! processor on the shared master clock.
//!
//! The main CPU itself is an external collaborator: the caller runs one of
//! its instructions, hands the elapsed CPU cycles to
//! `run_cpu_instruction`, and receives back the events whose work belongs
//! outside the core (DMA rounds, the finished frame, interrupt raises, the
//! auto-joypad read). Cycle debts owed to the audio core and the picture
//! processor are kept signed, and a raised interrupt short-circuits the
//! picture drain so the CPU can service it at once.

use vstd::prelude::*;

use crate::bus::Peripherals;
use crate::bus_model::PeriView;
use crate::bus_model::spec_peri_wf;
use crate::exec_model::spec_exec_op;
use crate::op_model::spec_implemented;
use crate::op_model::spec_tick_timers;
use crate::ppu::PpuView;
use crate::ppu::spec_ppu_step;
use crate::spc::Fault;
use crate::spc_model::SpcView;
use crate::spc_model::spec_fetchb_post;
use crate::spc_model::spec_fetchb_val;
use vstd::wrapping::u32_specs;

verus! {

/// The approximated audio-core clock divider: the audio core is stepped
/// once for every 21 master cycles owed to it.
pub const APU_DIVIDER: i64 = 21;

/// Master cycles per CPU clock.
pub const CPU_CYCLE: i64 = 6;

/// Work the scheduler asks of its caller, in the order it arose.
#[derive(Clone, Copy, PartialEq, Eq, Structural, Debug)]
pub enum Event {
    /// Initialize H-DMA for the channels in `mask`; credit the cycles spent
    /// through `add_io_cycles`.
    HdmaInit { mask: u8 },
    /// One H-DMA transfer round for the channels in `mask`; credit the
    /// cycles spent through `add_io_cycles`.
    HdmaTransfer { mask: u8 },
    /// The last visible dot was rendered: hand the framebuffer to the
    /// renderer.
    FrameDone,
    /// Vertical blanking begins: notify the input subsystem of a new frame.
    NewFrame,
    /// Perform the auto-joypad read and store the result through
    /// `set_auto_joypad`.
    AutoJoypadRead,
    /// The NMI was raised; the caller triggers it on the main CPU.
    Nmi,
    /// The IRQ was raised; the caller triggers it on the main CPU.
    Irq,
}

/// What the event table does at one (scanline, dot) position.
#[derive(Clone, Copy, PartialEq, Eq, Structural, Debug)]
pub enum ScanAction {
    /// (0, 0): clear the pending NMI.
    ClearNmi,
    /// (0, 6): initialize H-DMA.
    HdmaInit,
    /// (0..=224, 278): one H-DMA transfer round.
    HdmaTransfer,
    /// (224, 256): the frame is complete.
    FrameDone,
    /// (225, 0): vertical blanking begins; the NMI is raised.
    VBlankStart,
    /// (225, 50): the auto-joypad read runs if enabled.
    AutoJoypad,
    /// (any, 180): charge the DRAM refresh.
    DramRefresh,
    /// Every other position.
    Idle,
}

/// The scanline event table as a pure function of the counters.
pub open spec fn spec_scan_action(v: u16, h: u16) -> ScanAction {
    if v == 0 && h == 0 {
        ScanAction::ClearNmi
    } else if v == 0 && h == 6 {
        ScanAction::HdmaInit
    } else if v <= 224 && h == 278 {
        ScanAction::HdmaTransfer
    } else if v == 224 && h == 256 {
        ScanAction::FrameDone
    } else if v == 225 && h == 0 {
        ScanAction::VBlankStart
    } else if v == 225 && h == 50 {
        ScanAction::AutoJoypad
    } else if h == 180 {
        ScanAction::DramRefresh
    } else {
        ScanAction::Idle
    }
}

/// Classify one (scanline, dot) position. The frame handoff happens exactly
/// at (224, 256), so it fires exactly once per frame pass of the counters.
pub fn scan_action(v: u16, h: u16) -> (r: ScanAction)
    ensures
        r == spec_scan_action(v, h),
        r == ScanAction::FrameDone <==> (v == 224 && h == 256),
{
    if v == 0 && h == 0 {
        ScanAction::ClearNmi
    } else if v == 0 && h == 6 {
        ScanAction::HdmaInit
    } else if v <= 224 && h == 278 {
        ScanAction::HdmaTransfer
    } else if v == 224 && h == 256 {
        ScanAction::FrameDone
    } else if v == 225 && h == 0 {
        ScanAction::VBlankStart
    } else if v == 225 && h == 50 {
        ScanAction::AutoJoypad
    } else if h == 180 {
        ScanAction::DramRefresh
    } else {
        ScanAction::Idle
    }
}

/// The master cycles one CPU instruction charges: six per CPU cycle plus
/// the accrued I/O penalty, floored at three so that a waiting CPU still
/// lets the rest of the machine advance.
pub open spec fn spec_master_charge(cpu_cycles: u8, io_cy: u32) -> int {
    let c = 6 * cpu_cycles + io_cy;
    if c < 3 {
        3
    } else {
        c
    }
}

// ---------------------------------------------------------------------------
// The two drain passes as recursive spec functions
// ---------------------------------------------------------------------------

/// Whether one audio-core dispatch from this state faults (an opcode outside
/// the implemented table, or an illegal test-register store during the
/// instruction).
pub open spec fn spec_apu_step_fault(apu: SpcView) -> bool {
    let op = spec_fetchb_val(apu);
    !spec_implemented(op) || spec_exec_op(spec_fetchb_post(apu), op).1
}

/// The audio core after one dispatched instruction: the fetched opcode's
/// transition, then the timers advance by the consumed cycles.
pub open spec fn spec_apu_step_post(apu: SpcView) -> SpcView {
    let op = spec_fetchb_val(apu);
    let done = spec_exec_op(spec_fetchb_post(apu), op).0;
    spec_tick_timers(done, done.cy)
}

/// The cycle count one dispatched instruction consumes.
pub open spec fn spec_apu_step_cy(apu: SpcView) -> u8 {
    spec_exec_op(spec_fetchb_post(apu), spec_fetchb_val(apu)).0.cy
}

/// Drain the audio debt: step the audio core while more than one of its
/// cycles (one `APU_DIVIDER` of master cycles) is owed, paying 21 master
/// cycles per consumed core cycle. Returns the core, the remaining debt and
/// whether a step faulted (the core is then left at the step that faulted).
/// A real step consumes at least two cycles; the measure clamps the payment
/// at that bound so the recursion is well founded.
pub open spec fn spec_apu_drain(apu: SpcView, debt: int) -> (SpcView, int, bool)
    decreases (if debt > APU_DIVIDER { debt } else { 0 }),
{
    if debt > APU_DIVIDER {
        if spec_apu_step_fault(apu) {
            (apu, debt, true)
        } else {
            let cy = spec_apu_step_cy(apu) as int;
            let step = if cy >= 2 { cy } else { 2 };
            spec_apu_drain(spec_apu_step_post(apu), debt - step * 21)
        }
    } else {
        (apu, debt, false)
    }
}

/// The scheduler-owned state one picture-drain pass reads and writes: the
/// counters, the interrupt flags, the deferred I/O cycles, the remaining
/// debt and the events handed to the caller.
#[verifier::ext_equal]
pub struct DrainState {
    pub v: u16,
    pub h: u16,
    pub nmi: bool,
    pub irq: bool,
    pub cy: u32,
    pub debt: int,
    pub events: Seq<Event>,
}

/// One dot of the picture drain: advance the counters, pay four master
/// cycles of debt, dispatch the scanline event table at the new position,
/// then check the counter-match IRQs. The flag is the short-circuit: the
/// drain breaks right after a raised NMI or IRQ.
pub open spec fn spec_drain_dot(
    s: DrainState,
    nmien: u8,
    hdmaen: u8,
    vtime: u16,
    htime: u16,
) -> (DrainState, bool) {
    let (v2, h2) = spec_ppu_step(s.v, s.h);
    let base = DrainState { v: v2, h: h2, debt: s.debt - 4, ..s };
    let stepped = match spec_scan_action(v2, h2) {
        ScanAction::ClearNmi => (DrainState { nmi: false, ..base }, false),
        ScanAction::HdmaInit => (
            DrainState { events: base.events.push(Event::HdmaInit { mask: hdmaen }), ..base },
            false,
        ),
        ScanAction::HdmaTransfer => (
            DrainState {
                events: base.events.push(Event::HdmaTransfer { mask: hdmaen }),
                ..base
            },
            false,
        ),
        ScanAction::FrameDone => (
            DrainState { events: base.events.push(Event::FrameDone), ..base },
            false,
        ),
        ScanAction::VBlankStart => {
            let b = DrainState { nmi: true, events: base.events.push(Event::NewFrame), ..base };
            if nmien & 0x80 != 0 {
                (DrainState { events: b.events.push(Event::Nmi), ..b }, true)
            } else {
                (b, false)
            }
        },
        ScanAction::AutoJoypad => (
            if nmien & 1 != 0 {
                DrainState { events: base.events.push(Event::AutoJoypadRead), ..base }
            } else {
                base
            },
            false,
        ),
        ScanAction::DramRefresh => (
            DrainState { cy: u32_specs::wrapping_add(base.cy, 40), ..base },
            false,
        ),
        ScanAction::Idle => (base, false),
    };
    if stepped.1 {
        stepped
    } else {
        let s1 = stepped.0;
        if v2 == vtime && nmien & 0x10 != 0 {
            (DrainState { irq: true, events: s1.events.push(Event::Irq), ..s1 }, true)
        } else if h2 == htime && nmien & 0x20 != 0 {
            (DrainState { irq: true, events: s1.events.push(Event::Irq), ..s1 }, true)
        } else {
            (s1, false)
        }
    }
}

/// Drain the picture debt dot by dot until it is paid or an interrupt
/// short-circuits the pass.
pub open spec fn spec_ppu_drain(
    s: DrainState,
    nmien: u8,
    hdmaen: u8,
    vtime: u16,
    htime: u16,
) -> DrainState
    decreases (if s.debt > 0 { s.debt } else { 0 }),
{
    if s.debt > 0 {
        let stepped = spec_drain_dot(s, nmien, hdmaen, vtime, htime);
        if stepped.1 {
            stepped.0
        } else {
            spec_ppu_drain(stepped.0, nmien, hdmaen, vtime, htime)
        }
    } else {
        s
    }
}

/// Abstract state of the whole coordinator.
#[verifier::ext_equal]
pub struct SnesView {
    pub mem: PeriView,
    pub master_cy: u64,
    pub apu_master_cy_debt: i64,
    pub ppu_master_cy_debt: i64,
}

/// The coordinator: the bus plus the master clock and the cycle debts.
pub struct Snes {
    pub mem: Peripherals,
    /// Master cycles elapsed since power-on.
    pub master_cy: u64,
    /// Master cycles owed to the audio core (signed: one step may overpay).
    pub apu_master_cy_debt: i64,
    /// Master cycles owed to the picture processor (signed likewise).
    pub ppu_master_cy_debt: i64,
}

impl View for Snes {
    type V = SnesView;

    open spec fn view(&self) -> SnesView {
        SnesView {
            mem: self.mem@,
            master_cy: self.master_cy,
            apu_master_cy_debt: self.apu_master_cy_debt,
            ppu_master_cy_debt: self.ppu_master_cy_debt,
        }
    }
}

/// A saved copy of the whole coordinator state.
pub struct SaveState {
    state: Snes,
}

impl View for SaveState {
    type V = SnesView;

    closed spec fn view(&self) -> SnesView {
        self.state@
    }
}

impl SaveState {
    pub open spec fn wf(&self) -> bool {
        spec_peri_wf(self@.mem)
    }
}

impl Snes {
    pub open spec fn wf(&self) -> bool {
        self.mem.wf()
    }

    /// A fresh machine; the audio core boots from the given IPL image.
    pub fn new(ipl_boot: &[u8; 64]) -> (r: Snes)
        ensures
            r.wf(),
            r.master_cy == 0,
            r.apu_master_cy_debt == 0,
            r.ppu_master_cy_debt == 0,
            r.mem@.cy == 0,
            r.mem@.nmien == 0 && r.mem@.nmi == false && r.mem@.irq == false,
            r.mem@.ppu.v == 0 && r.mem@.ppu.h == 0,
    {
        Snes {
            mem: Peripherals::new(ipl_boot),
            master_cy: 0,
            apu_master_cy_debt: 0,
            ppu_master_cy_debt: 0,
        }
    }

    /// The bus and everything on it.
    pub fn peripherals(&self) -> (r: &Peripherals)
        ensures
            *r == self.mem,
    {
        &self.mem
    }

    /// Mutable access to the bus and everything on it.
    pub fn peripherals_mut(&mut self) -> (r: &mut Peripherals)
        ensures
            *r == old(self).mem,
            *final(self) == (Snes { mem: *final(r), ..*old(self) }),
    {
        &mut self.mem
    }

    /// Charge the master cycles of one finished CPU instruction: both debts
    /// and the master clock grow by exactly the floored amount, and the
    /// accrued I/O cycles are consumed.
    pub fn charge_cycles(&mut self, cpu_cycles: u8) -> (charged: i64)
        requires
            old(self).wf(),
            old(self).mem@.cy <= 0x0100_0000,
            old(self).master_cy <= 0xFFFF_FFFF_0000_0000,
            -0x0100_0000_0000 <= old(self).apu_master_cy_debt <= 0x0100_0000,
            -0x0100_0000_0000 <= old(self).ppu_master_cy_debt <= 0x0100_0000,
        ensures
            final(self).wf(),
            charged == spec_master_charge(cpu_cycles, old(self).mem@.cy),
            3 <= charged <= 0x0100_0600,
            final(self).apu_master_cy_debt == old(self).apu_master_cy_debt + charged,
            final(self).ppu_master_cy_debt == old(self).ppu_master_cy_debt + charged,
            final(self).master_cy == old(self).master_cy + charged,
            final(self).mem@ == (PeriView { cy: 0, ..old(self).mem@ }),
    {
        let cpu_master_cy: i64 = (cpu_cycles as i64) * CPU_CYCLE + (self.mem.cy as i64);
        self.mem.cy = 0;
        let charged: i64 = if cpu_master_cy < 3 {
            3
        } else {
            cpu_master_cy
        };
        self.master_cy = self.master_cy + (charged as u64);
        self.apu_master_cy_debt = self.apu_master_cy_debt + charged;
        self.ppu_master_cy_debt = self.ppu_master_cy_debt + charged;
        proof {
            assert(self.mem@ =~= (PeriView { cy: 0, ..old(self).mem@ }));
        }
        charged
    }

    /// One dot of the picture drain: advance the counters, pay four master
    /// cycles of debt, dispatch the scanline event table at the new
    /// position, then check the counter-match IRQs. Returns whether a
    /// raised interrupt short-circuits the drain. The transition is exactly
    /// `spec_drain_dot` of the state before the dot.
    #[verifier::rlimit(100)]
    #[verifier::spinoff_prover]
    fn drain_one_dot(&mut self, events: &mut Vec<Event>) -> (brk: bool)
        requires
            old(self).wf(),
            old(self).mem@.cy <= 0xF000_0000,
            old(self).ppu_master_cy_debt >= -0x0200_0000_0000,
        ensures
            final(self).wf(),
            ({
                let pre = DrainState {
                    v: old(self).mem@.ppu.v,
                    h: old(self).mem@.ppu.h,
                    nmi: old(self).mem@.nmi,
                    irq: old(self).mem@.irq,
                    cy: old(self).mem@.cy,
                    debt: old(self).ppu_master_cy_debt as int,
                    events: old(events)@,
                };
                let stepped = spec_drain_dot(
                    pre,
                    old(self).mem@.nmien,
                    old(self).mem@.hdmaen,
                    old(self).mem@.vtime,
                    old(self).mem@.htime,
                );
                &&& brk == stepped.1
                &&& (DrainState {
                    v: final(self).mem@.ppu.v,
                    h: final(self).mem@.ppu.h,
                    nmi: final(self).mem@.nmi,
                    irq: final(self).mem@.irq,
                    cy: final(self).mem@.cy,
                    debt: final(self).ppu_master_cy_debt as int,
                    events: final(events)@,
                }) == stepped.0
                &&& final(self).mem@ == (PeriView {
                    ppu: (PpuView {
                        v: final(self).mem@.ppu.v,
                        h: final(self).mem@.ppu.h,
                        ..old(self).mem@.ppu
                    }),
                    nmi: final(self).mem@.nmi,
                    irq: final(self).mem@.irq,
                    cy: final(self).mem@.cy,
                    ..old(self).mem@
                })
                &&& final(self).master_cy == old(self).master_cy
                &&& final(self).apu_master_cy_debt == old(self).apu_master_cy_debt
                &&& final(self).ppu_master_cy_debt == old(self).ppu_master_cy_debt - 4
                &&& final(self).mem@.cy <= old(self).mem@.cy + 40
                &&& (stepped.1 ==> final(events)@.len() > 0 && (final(events)@.last()
                    == Event::Nmi || final(events)@.last() == Event::Irq))
            }),
    {
        let ghost pre = DrainState {
            v: self.mem@.ppu.v,
            h: self.mem@.ppu.h,
            nmi: self.mem@.nmi,
            irq: self.mem@.irq,
            cy: self.mem@.cy,
            debt: self.ppu_master_cy_debt as int,
            events: events@,
        };
        let pcy = self.mem.ppu.update();
        self.ppu_master_cy_debt = self.ppu_master_cy_debt - (pcy as i64);
        let v = self.mem.ppu.v_counter();
        let h = self.mem.ppu.h_counter();
        let mut brk = false;
        match scan_action(v, h) {
            ScanAction::ClearNmi => {
                self.mem.nmi = false;
            },
            ScanAction::HdmaInit => {
                let mask = self.mem.hdmaen;
                events.push(Event::HdmaInit { mask });
            },
            ScanAction::HdmaTransfer => {
                let mask = self.mem.hdmaen;
                events.push(Event::HdmaTransfer { mask });
            },
            ScanAction::FrameDone => {
                events.push(Event::FrameDone);
            },
            ScanAction::VBlankStart => {
                events.push(Event::NewFrame);
                self.mem.nmi = true;
                if self.mem.nmi_enabled() {
                    events.push(Event::Nmi);
                    brk = true;
                }
            },
            ScanAction::AutoJoypad => {
                if self.mem.nmien & 1 != 0 {
                    events.push(Event::AutoJoypadRead);
                }
            },
            ScanAction::DramRefresh => {
                // approximate DRAM refresh charge
                self.mem.cy = self.mem.cy + 40;
            },
            ScanAction::Idle => {},
        }
        if !brk {
            if v == self.mem.vtime && self.mem.v_irq_enabled() {
                self.mem.irq = true;
                events.push(Event::Irq);
                brk = true;
            } else if h == self.mem.htime && self.mem.h_irq_enabled() {
                self.mem.irq = true;
                events.push(Event::Irq);
                brk = true;
            }
        }
        proof {
            let stepped = spec_drain_dot(
                pre,
                old(self).mem@.nmien,
                old(self).mem@.hdmaen,
                old(self).mem@.vtime,
                old(self).mem@.htime,
            );
            assert((DrainState {
                v: self.mem@.ppu.v,
                h: self.mem@.ppu.h,
                nmi: self.mem@.nmi,
                irq: self.mem@.irq,
                cy: self.mem@.cy,
                debt: self.ppu_master_cy_debt as int,
                events: events@,
            }) =~= stepped.0);
            assert(self.mem@ =~= (PeriView {
                ppu: (PpuView { v: self.mem@.ppu.v, h: self.mem@.ppu.h, ..old(self).mem@.ppu }),
                nmi: self.mem@.nmi,
                irq: self.mem@.irq,
                cy: self.mem@.cy,
                ..old(self).mem@
            }));
        }
        brk
    }

    /// Step the audio core while more than one of its cycles (one
    /// `APU_DIVIDER` of master cycles) is owed. The transition is exactly
    /// `spec_apu_drain` of the entry state, and a fault of the audio core is
    /// returned if and only if the drain meets one.
    #[verifier::rlimit(100)]
    #[verifier::spinoff_prover]
    #[verifier::loop_isolation(false)]
    fn drain_audio(&mut self) -> (r: Result<(), Fault>)
        requires
            old(self).wf(),
            old(self).apu_master_cy_debt <= 0x0200_0600,
        ensures
            final(self).wf(),
            ({
                let drained = spec_apu_drain(
                    old(self).mem@.apu,
                    old(self).apu_master_cy_debt as int,
                );
                &&& (r is Err <==> drained.2)
                &&& (r is Ok ==> final(self).mem@ == (PeriView {
                    apu: drained.0,
                    ..old(self).mem@
                }))
                &&& (r is Ok ==> final(self).apu_master_cy_debt == drained.1)
                &&& (r is Ok ==> final(self).apu_master_cy_debt <= APU_DIVIDER)
                &&& final(self).master_cy == old(self).master_cy
                &&& final(self).ppu_master_cy_debt == old(self).ppu_master_cy_debt
            }),
    {
        let ghost apu0 = old(self).mem@.apu;
        let ghost adebt0 = old(self).apu_master_cy_debt as int;
        let ghost mem1 = old(self).mem@;
        while self.apu_master_cy_debt > APU_DIVIDER
            invariant
                self.wf(),
                self.master_cy == old(self).master_cy,
                self.ppu_master_cy_debt == old(self).ppu_master_cy_debt,
                self.apu_master_cy_debt <= 0x0200_0600,
                self.mem@ == (PeriView { apu: self.mem@.apu, ..mem1 }),
                spec_apu_drain(self.mem@.apu, self.apu_master_cy_debt as int) == spec_apu_drain(
                    apu0,
                    adebt0,
                ),
            decreases self.apu_master_cy_debt + 300,
        {
            let ghost apu_pre = self.mem@.apu;
            let ghost debt_pre = self.apu_master_cy_debt as int;
            let cy = match self.mem.apu.dispatch() {
                Ok(c) => c,
                Err(f) => {
                    proof {
                        assert(spec_apu_step_fault(apu_pre));
                        assert(spec_apu_drain(apu0, adebt0).2);
                    }
                    return Err(f);
                },
            };
            proof {
                assert(self.mem@.apu == spec_apu_step_post(apu_pre));
                assert(cy == spec_apu_step_cy(apu_pre));
                assert(self.mem@ =~= (PeriView { apu: self.mem@.apu, ..mem1 }));
            }
            self.apu_master_cy_debt = self.apu_master_cy_debt - (cy as i64) * APU_DIVIDER;
            proof {
                assert(spec_apu_drain(self.mem@.apu, self.apu_master_cy_debt as int)
                    == spec_apu_drain(apu_pre, debt_pre));
            }
        }
        proof {
            assert(spec_apu_drain(apu0, adebt0) == (
                self.mem@.apu,
                self.apu_master_cy_debt as int,
                false,
            ));
        }
        Ok(())
    }

    /// Drain the picture debt dot by dot, dispatching the scanline event
    /// table at every position. The transition and the collected events are
    /// exactly `spec_ppu_drain` of the entry state; a raised NMI or IRQ
    /// short-circuits the pass and is then the last event.
    #[verifier::rlimit(100)]
    #[verifier::spinoff_prover]
    fn drain_picture(&mut self, events: &mut Vec<Event>)
        requires
            old(self).wf(),
            old(self).mem@.cy == 0,
            old(events)@ == Seq::<Event>::empty(),
            old(self).ppu_master_cy_debt <= 0x0200_0600,
        ensures
            final(self).wf(),
            ({
                let d0 = DrainState {
                    v: old(self).mem@.ppu.v,
                    h: old(self).mem@.ppu.h,
                    nmi: old(self).mem@.nmi,
                    irq: old(self).mem@.irq,
                    cy: 0,
                    debt: old(self).ppu_master_cy_debt as int,
                    events: Seq::empty(),
                };
                let dfin = spec_ppu_drain(
                    d0,
                    old(self).mem@.nmien,
                    old(self).mem@.hdmaen,
                    old(self).mem@.vtime,
                    old(self).mem@.htime,
                );
                &&& final(self).mem@ == (PeriView {
                    ppu: (PpuView { v: dfin.v, h: dfin.h, ..old(self).mem@.ppu }),
                    nmi: dfin.nmi,
                    irq: dfin.irq,
                    cy: dfin.cy,
                    ..old(self).mem@
                })
                &&& final(self).ppu_master_cy_debt == dfin.debt
                &&& final(events)@ == dfin.events
                &&& final(self).master_cy == old(self).master_cy
                &&& final(self).apu_master_cy_debt == old(self).apu_master_cy_debt
                &&& (final(self).ppu_master_cy_debt <= 0 || (final(events)@.len() > 0
                    && (final(events)@.last() == Event::Nmi || final(events)@.last()
                    == Event::Irq)))
            }),
    {
        let ghost mem2 = old(self).mem@;
        let ghost nmien0 = old(self).mem@.nmien;
        let ghost hdmaen0 = old(self).mem@.hdmaen;
        let ghost vtime0 = old(self).mem@.vtime;
        let ghost htime0 = old(self).mem@.htime;
        let ghost entry = old(self).ppu_master_cy_debt;
        let ghost d0 = DrainState {
            v: old(self).mem@.ppu.v,
            h: old(self).mem@.ppu.h,
            nmi: old(self).mem@.nmi,
            irq: old(self).mem@.irq,
            cy: 0,
            debt: entry as int,
            events: Seq::empty(),
        };
        proof {
            assert(self.mem@ =~= (PeriView {
                ppu: (PpuView { v: self.mem@.ppu.v, h: self.mem@.ppu.h, ..mem2.ppu }),
                nmi: self.mem@.nmi,
                irq: self.mem@.irq,
                cy: self.mem@.cy,
                ..mem2
            }));
        }
        while self.ppu_master_cy_debt > 0
            invariant_except_break
                spec_ppu_drain(
                    DrainState {
                        v: self.mem@.ppu.v,
                        h: self.mem@.ppu.h,
                        nmi: self.mem@.nmi,
                        irq: self.mem@.irq,
                        cy: self.mem@.cy,
                        debt: self.ppu_master_cy_debt as int,
                        events: events@,
                    },
                    nmien0,
                    hdmaen0,
                    vtime0,
                    htime0,
                ) == spec_ppu_drain(d0, nmien0, hdmaen0, vtime0, htime0),
            invariant
                self.wf(),
                self.master_cy == old(self).master_cy,
                self.apu_master_cy_debt == old(self).apu_master_cy_debt,
                self.ppu_master_cy_debt <= entry,
                entry <= 0x0200_0600,
                nmien0 == mem2.nmien && hdmaen0 == mem2.hdmaen && vtime0 == mem2.vtime && htime0
                    == mem2.htime,
                self.mem@.cy <= 10 * (entry - self.ppu_master_cy_debt),
                self.mem@ == (PeriView {
                    ppu: (PpuView { v: self.mem@.ppu.v, h: self.mem@.ppu.h, ..mem2.ppu }),
                    nmi: self.mem@.nmi,
                    irq: self.mem@.irq,
                    cy: self.mem@.cy,
                    ..mem2
                }),
            ensures
                self.wf(),
                self.master_cy == old(self).master_cy,
                self.apu_master_cy_debt == old(self).apu_master_cy_debt,
                self.mem@ == (PeriView {
                    ppu: (PpuView { v: self.mem@.ppu.v, h: self.mem@.ppu.h, ..mem2.ppu }),
                    nmi: self.mem@.nmi,
                    irq: self.mem@.irq,
                    cy: self.mem@.cy,
                    ..mem2
                }),
                (DrainState {
                    v: self.mem@.ppu.v,
                    h: self.mem@.ppu.h,
                    nmi: self.mem@.nmi,
                    irq: self.mem@.irq,
                    cy: self.mem@.cy,
                    debt: self.ppu_master_cy_debt as int,
                    events: events@,
                }) == spec_ppu_drain(d0, nmien0, hdmaen0, vtime0, htime0),
                self.ppu_master_cy_debt <= 0 || (events@.len() > 0 && (events@.last()
                    == Event::Nmi || events@.last() == Event::Irq)),
            decreases self.ppu_master_cy_debt + 4,
        {
            let ghost pre = DrainState {
                v: self.mem@.ppu.v,
                h: self.mem@.ppu.h,
                nmi: self.mem@.nmi,
                irq: self.mem@.irq,
                cy: self.mem@.cy,
                debt: self.ppu_master_cy_debt as int,
                events: events@,
            };
            let ghost memb = self.mem@;
            proof {
                assert(self.mem@.nmien == nmien0 && self.mem@.hdmaen == hdmaen0
                    && self.mem@.vtime == vtime0 && self.mem@.htime == htime0);
            }
            let brk = self.drain_one_dot(events);
            proof {
                let stepped = spec_drain_dot(pre, nmien0, hdmaen0, vtime0, htime0);
                assert(self.mem@ == (PeriView {
                    ppu: (PpuView { v: self.mem@.ppu.v, h: self.mem@.ppu.h, ..memb.ppu }),
                    nmi: self.mem@.nmi,
                    irq: self.mem@.irq,
                    cy: self.mem@.cy,
                    ..memb
                }));
                assert(self.mem@.ppu =~= (PpuView {
                    v: self.mem@.ppu.v,
                    h: self.mem@.ppu.h,
                    ..mem2.ppu
                }));
                assert(self.mem@ =~= (PeriView {
                    ppu: (PpuView { v: self.mem@.ppu.v, h: self.mem@.ppu.h, ..mem2.ppu }),
                    nmi: self.mem@.nmi,
                    irq: self.mem@.irq,
                    cy: self.mem@.cy,
                    ..mem2
                }));
                reveal_with_fuel(spec_ppu_drain, 2);
                assert(pre.debt > 0);
                assert(brk == stepped.1);
                if brk {
                    assert(spec_ppu_drain(pre, nmien0, hdmaen0, vtime0, htime0) == stepped.0);
                } else {
                    assert(spec_ppu_drain(pre, nmien0, hdmaen0, vtime0, htime0)
                        == spec_ppu_drain(stepped.0, nmien0, hdmaen0, vtime0, htime0));
                }
            }
            if brk {
                break ;
            }
        }
    }

    /// Account one finished main-CPU instruction and run the machine up to
    /// date: charge the debts, step the audio core while more than one of
    /// its cycles is owed, then drain the picture processor dot by dot,
    /// dispatching the scanline event table after every dot. A raised NMI
    /// or IRQ breaks the drain (it is then the last event returned) so the
    /// CPU can service it immediately, even while picture debt remains.
    ///
    /// The contract is the whole pass: the audio core, both debts, the
    /// counters, the interrupt flags, the deferred cycles and the returned
    /// events are exactly `spec_apu_drain` and `spec_ppu_drain` of the
    /// charged state, and a fault of the audio core is returned if and only
    /// if the audio drain meets one.
    pub fn run_cpu_instruction(&mut self, cpu_cycles: u8) -> (r: Result<Vec<Event>, Fault>)
        requires
            old(self).wf(),
            old(self).mem@.cy <= 0x0100_0000,
            old(self).master_cy <= 0xFFFF_FFFF_0000_0000,
            -0x0100_0000_0000 <= old(self).apu_master_cy_debt <= 0x0100_0000,
            -0x0100_0000_0000 <= old(self).ppu_master_cy_debt <= 0x0100_0000,
        ensures
            final(self).wf(),
            ({
                let charged = spec_master_charge(cpu_cycles, old(self).mem@.cy);
                let drained = spec_apu_drain(
                    old(self).mem@.apu,
                    old(self).apu_master_cy_debt + charged,
                );
                let d0 = DrainState {
                    v: old(self).mem@.ppu.v,
                    h: old(self).mem@.ppu.h,
                    nmi: old(self).mem@.nmi,
                    irq: old(self).mem@.irq,
                    cy: 0,
                    debt: old(self).ppu_master_cy_debt + charged,
                    events: Seq::empty(),
                };
                let dfin = spec_ppu_drain(
                    d0,
                    old(self).mem@.nmien,
                    old(self).mem@.hdmaen,
                    old(self).mem@.vtime,
                    old(self).mem@.htime,
                );
                &&& (r is Err <==> drained.2)
                &&& (r is Ok ==> final(self).master_cy == old(self).master_cy + charged)
                &&& (r is Ok ==> final(self).apu_master_cy_debt == drained.1)
                &&& (r is Ok ==> final(self).apu_master_cy_debt <= APU_DIVIDER)
                &&& (r is Ok ==> final(self).ppu_master_cy_debt == dfin.debt)
                &&& (r matches Ok(ev) ==> ev@ == dfin.events)
                &&& (r is Ok ==> final(self).mem@ == (PeriView {
                    apu: drained.0,
                    ppu: (PpuView { v: dfin.v, h: dfin.h, ..old(self).mem@.ppu }),
                    nmi: dfin.nmi,
                    irq: dfin.irq,
                    cy: dfin.cy,
                    ..old(self).mem@
                }))
                &&& (r matches Ok(ev) ==> (final(self).ppu_master_cy_debt <= 0 || (ev@.len() > 0
                    && (ev@.last() == Event::Nmi || ev@.last() == Event::Irq))))
            }),
    {
        let mut events: Vec<Event> = Vec::new();
        let charged = self.charge_cycles(cpu_cycles);
        proof {
            assert(events@ =~= Seq::<Event>::empty());
        }
        let ghost memc = self.mem@;
        let ghost adebt1 = self.apu_master_cy_debt;
        proof {
            assert(memc.apu == old(self).mem@.apu);
            assert(adebt1 as int == old(self).apu_master_cy_debt + spec_master_charge(
                cpu_cycles,
                old(self).mem@.cy,
            ));
        }
        if let Err(f) = self.drain_audio() {
            return Err(f);
        }
        let ghost mema = self.mem@;
        let ghost pdebt1 = self.ppu_master_cy_debt;
        self.drain_picture(&mut events);
        proof {
            let charged_i = spec_master_charge(cpu_cycles, old(self).mem@.cy);
            let drained = spec_apu_drain(
                old(self).mem@.apu,
                old(self).apu_master_cy_debt + charged_i,
            );
            let d0 = DrainState {
                v: old(self).mem@.ppu.v,
                h: old(self).mem@.ppu.h,
                nmi: old(self).mem@.nmi,
                irq: old(self).mem@.irq,
                cy: 0,
                debt: old(self).ppu_master_cy_debt + charged_i,
                events: Seq::empty(),
            };
            assert((DrainState {
                v: mema.ppu.v,
                h: mema.ppu.h,
                nmi: mema.nmi,
                irq: mema.irq,
                cy: 0,
                debt: pdebt1 as int,
                events: Seq::empty(),
            }) =~= d0);
            assert(mema.nmien == old(self).mem@.nmien && mema.hdmaen == old(self).mem@.hdmaen
                && mema.vtime == old(self).mem@.vtime && mema.htime == old(self).mem@.htime);
            let dfin = spec_ppu_drain(
                d0,
                old(self).mem@.nmien,
                old(self).mem@.hdmaen,
                old(self).mem@.vtime,
                old(self).mem@.htime,
            );
            assert(mema.ppu =~= old(self).mem@.ppu);
            assert(self.mem@ =~= (PeriView {
                apu: drained.0,
                ppu: (PpuView { v: dfin.v, h: dfin.h, ..old(self).mem@.ppu }),
                nmi: dfin.nmi,
                irq: dfin.irq,
                cy: dfin.cy,
                ..old(self).mem@
            }));
        }
        Ok(events)
    }

    /// Capture the whole machine state.
    pub fn save(&self) -> (st: SaveState)
        requires
            self.wf(),
        ensures
            st.wf(),
            st@ == self@,
    {
        SaveState {
            state: Snes {
                mem: self.mem.duplicate(),
                master_cy: self.master_cy,
                apu_master_cy_debt: self.apu_master_cy_debt,
                ppu_master_cy_debt: self.ppu_master_cy_debt,
            },
        }
    }

    /// Restore the whole machine state from a capture.
    pub fn restore(&mut self, st: &SaveState)
        requires
            st.wf(),
        ensures
            final(self).wf(),
            final(self)@ == st@,
    {
        self.mem = st.state.mem.duplicate();
        self.master_cy = st.state.master_cy;
        self.apu_master_cy_debt = st.state.apu_master_cy_debt;
        self.ppu_master_cy_debt = st.state.ppu_master_cy_debt;
        proof {
            assert(self@ =~= st@);
        }
    }
}

/// Law: a state capture restored is the captured state exactly - `save`
/// yields the machine's abstract state and `restore` reinstates it, so the
/// round trip is the identity on every component of the state.
pub proof fn lemma_save_restore_roundtrip(s0: SnesView, captured: SnesView, s1: SnesView)
    requires
        captured == s0,  // what `save` ensures of its capture
        s1 == captured,  // what `restore` ensures of the restored machine
    ensures
        s1 == s0,
{
}

} // verus!
