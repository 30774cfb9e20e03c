//! The three programmable timers of the audio coprocessor.
//!
//! Timers 0 and 1 tick once every 128 coprocessor cycles, timer 2 once every
//! 16. Each tick advances an internal stage counter; when the stage counter
//! reaches the programmed divider it is reset and the 4-bit output nibble is
//! bumped (wrapping modulo 16). A divider of zero behaves as 256, because the
//! stage counter itself wraps as an 8-bit value.

use vstd::prelude::*;

verus! {

/// One programmable timer.
#[derive(Clone, Copy, PartialEq, Eq, Structural, Debug)]
pub struct Timer {
    /// 4-bit output nibble, read (and thereby cleared) through 0xFD-0xFF.
    pub val: u8,
    /// Divider written through 0xFA-0xFC.
    pub div: u8,
    /// Enable bit from the control register at 0xF1.
    pub enabled: bool,
    /// Stage counter: counts period ticks toward `div`.
    pub stage: u8,
    /// Cycle accumulator; always below the timer's period.
    pub acc: u16,
}

/// One period tick: bump the stage counter and, when it reaches the divider,
/// reset it and bump the output nibble modulo 16.
pub open spec fn spec_tick(t: Timer) -> Timer {
    let stage2 = vstd::wrapping::u8_specs::wrapping_add(t.stage, 1);
    if stage2 == t.div {
        Timer { stage: 0, val: vstd::wrapping::u8_specs::wrapping_add(t.val, 1) & 0x0F, ..t }
    } else {
        Timer { stage: stage2, ..t }
    }
}

/// One drain step: subtract the period from the accumulator and, if the timer
/// is enabled, perform a period tick.
pub open spec fn spec_drain_once(t: Timer, period: u16) -> Timer {
    let t2 = Timer { acc: (t.acc - period) as u16, ..t };
    if t.enabled {
        spec_tick(t2)
    } else {
        t2
    }
}

/// Drain the accumulator until it is below the period, ticking along the way.
pub open spec fn spec_drain(t: Timer, period: u16) -> Timer
    decreases t.acc,
{
    if period > 0 && t.acc >= period {
        spec_drain(spec_drain_once(t, period), period)
    } else {
        t
    }
}

/// The timer after the enable bit is written: a rising edge resets the
/// internal accumulator and stage counter.
pub open spec fn spec_set_enable(t: Timer, e: bool) -> Timer {
    if e && !t.enabled {
        Timer { enabled: true, acc: 0, stage: 0, ..t }
    } else {
        Timer { enabled: e, ..t }
    }
}

/// The timer after a step of `cy` cycles: the accumulator advances by `cy`
/// and is then drained against the period.
pub open spec fn spec_update(t: Timer, period: u16, cy: u8) -> Timer {
    spec_drain(Timer { acc: (t.acc + cy) as u16, ..t }, period)
}

impl Timer {
    pub fn new() -> (r: Timer)
        ensures
            r == (Timer { val: 0, div: 0, enabled: false, stage: 0, acc: 0 }),
    {
        Timer { val: 0, div: 0, enabled: false, stage: 0, acc: 0 }
    }

    /// Write the enable bit; a rising edge resets the internal state.
    pub fn set_enable(&mut self, e: bool)
        ensures
            *final(self) == spec_set_enable(*old(self), e),
    {
        if e && !self.enabled {
            self.acc = 0;
            self.stage = 0;
        }
        self.enabled = e;
    }

    /// Advance the timer by the cycle count of one executed instruction.
    pub fn update(&mut self, period: u16, cy: u8)
        requires
            old(self).acc < period,
            period <= 128,
        ensures
            *final(self) == spec_update(*old(self), period, cy),
            final(self).acc < period,
    {
        self.acc = self.acc + cy as u16;
        let ghost entry = *self;
        while self.acc >= period
            invariant
                period > 0,
                period <= 128,
                spec_drain(*self, period) == spec_drain(entry, period),
            decreases self.acc,
        {
            let ghost before = *self;
            self.acc = self.acc - period;
            if self.enabled {
                self.stage = self.stage.wrapping_add(1);
                if self.stage == self.div {
                    self.stage = 0;
                    self.val = self.val.wrapping_add(1) & 0x0F;
                }
            }
            proof {
                assert(*self == spec_drain_once(before, period));
            }
        }
    }
}

} // verus!
