use vstd::prelude::*;

use crate::registers::{wr, Reg, RegWrite, Registers};

verus! {

/// MCG register offsets.
pub const MCG_C1: usize = 0x00;
pub const MCG_C2: usize = 0x01;
pub const MCG_C5: usize = 0x04;
pub const MCG_C6: usize = 0x05;

/// A condition on the MCG status register (S) that bring-up waits for.
#[derive(Clone, Copy, Debug, PartialEq, Eq, Structural)]
pub enum ClockWait {
    /// OSCINIT0 set: the crystal oscillator is running.
    OscillatorReady,
    /// IREFST clear: the FLL reference is the external clock.
    ExternalReference,
    /// CLKST = 10: the external reference clocks the system.
    ExternalClockSelected,
    /// PLLST set: the PLL is the PLLS clock source.
    PllSelected,
    /// LOCK0 set: the PLL has locked.
    PllLocked,
    /// CLKST = 11: the PLL clocks the system.
    PllClockSelected,
}

/// Whether MCG status `s` meets `w`.
pub open spec fn status_meets(w: ClockWait, s: u8) -> bool {
    match w {
        ClockWait::OscillatorReady => s & 0x02 != 0,
        ClockWait::ExternalReference => s & 0x10 == 0,
        ClockWait::ExternalClockSelected => s & 0x0C == 0x08,
        ClockWait::PllSelected => s & 0x20 != 0,
        ClockWait::PllLocked => s & 0x40 != 0,
        ClockWait::PllClockSelected => s & 0x0C == 0x0C,
    }
}

impl ClockWait {
    /// Whether MCG status `s` meets this condition.
    pub fn met_by(self, s: u8) -> (r: bool)
        ensures
            r == status_meets(self, s),
    {
        match self {
            ClockWait::OscillatorReady => s & 0x02 != 0,
            ClockWait::ExternalReference => s & 0x10 == 0,
            ClockWait::ExternalClockSelected => s & 0x0C == 0x08,
            ClockWait::PllSelected => s & 0x20 != 0,
            ClockWait::PllLocked => s & 0x40 != 0,
            ClockWait::PllClockSelected => s & 0x0C == 0x0C,
        }
    }
}

/// One step of clock bring-up.
#[derive(Clone, Copy, Debug, PartialEq, Eq, Structural)]
pub enum ClockStep {
    /// Write a register.
    Write(RegWrite),
    /// Wait until the MCG status meets a condition.
    Wait(ClockWait),
    /// Bring-up is complete: the core runs at 48 MHz from the PLL.
    Done,
}

/// Clock bring-up, in order: watchdog off; external crystal selected as the
/// reference (FBE mode) and awaited; PLL divider and PLL enabled and
/// awaited; PLL selected as the system clock (PEE mode) and awaited; timers
/// clocked from the PLL.
pub open spec fn clock_script(i: nat) -> ClockStep {
    if i == 0 {
        ClockStep::Write(wr(Reg::SimCopc, 0))
    } else if i == 1 {
        ClockStep::Write(wr(Reg::Mcg(MCG_C2), 0x14))
    } else if i == 2 {
        ClockStep::Write(wr(Reg::Mcg(MCG_C1), 0x90))
    } else if i == 3 {
        ClockStep::Wait(ClockWait::OscillatorReady)
    } else if i == 4 {
        ClockStep::Wait(ClockWait::ExternalReference)
    } else if i == 5 {
        ClockStep::Wait(ClockWait::ExternalClockSelected)
    } else if i == 6 {
        ClockStep::Write(wr(Reg::Mcg(MCG_C5), 0x03))
    } else if i == 7 {
        ClockStep::Write(wr(Reg::Mcg(MCG_C6), 0x40))
    } else if i == 8 {
        ClockStep::Wait(ClockWait::PllSelected)
    } else if i == 9 {
        ClockStep::Wait(ClockWait::PllLocked)
    } else if i == 10 {
        ClockStep::Write(wr(Reg::Mcg(MCG_C1), 0x10))
    } else if i == 11 {
        ClockStep::Wait(ClockWait::PllClockSelected)
    } else if i == 12 {
        ClockStep::Write(wr(Reg::SimSopt2, 0x0101_0000))
    } else {
        ClockStep::Done
    }
}

/// Progress through clock bring-up.
pub struct ClockSetup {
    step: u8,
}

impl ClockSetup {
    #[verifier::type_invariant]
    spec fn inv(self) -> bool {
        self.step <= 13
    }

    /// Index of the step to carry out next.
    pub closed spec fn position(&self) -> nat {
        self.step as nat
    }

    /// Every step has been carried out: watchdog off, the PLL locked and
    /// clocking the system, timers clocked from the PLL.
    pub open spec fn is_done(&self) -> bool {
        self.position() == 13
    }

    /// Whether every step has been carried out.
    pub fn finished(&self) -> (r: bool)
        ensures
            r == self.is_done(),
    {
        proof {
            use_type_invariant(self);
        }
        self.step == 13
    }

    /// Bring-up at its first step.
    pub fn new() -> (r: Self)
        ensures
            r.position() == 0,
    {
        ClockSetup { step: 0 }
    }

    /// The step to carry out next.
    pub fn action(&self) -> (r: ClockStep)
        ensures
            r == clock_script(self.position()),
    {
        proof {
            use_type_invariant(self);
        }
        match self.step {
            0 => ClockStep::Write(RegWrite { reg: Reg::SimCopc, value: 0 }),
            1 => ClockStep::Write(RegWrite { reg: Reg::Mcg(MCG_C2), value: 0x14 }),
            2 => ClockStep::Write(RegWrite { reg: Reg::Mcg(MCG_C1), value: 0x90 }),
            3 => ClockStep::Wait(ClockWait::OscillatorReady),
            4 => ClockStep::Wait(ClockWait::ExternalReference),
            5 => ClockStep::Wait(ClockWait::ExternalClockSelected),
            6 => ClockStep::Write(RegWrite { reg: Reg::Mcg(MCG_C5), value: 0x03 }),
            7 => ClockStep::Write(RegWrite { reg: Reg::Mcg(MCG_C6), value: 0x40 }),
            8 => ClockStep::Wait(ClockWait::PllSelected),
            9 => ClockStep::Wait(ClockWait::PllLocked),
            10 => ClockStep::Write(RegWrite { reg: Reg::Mcg(MCG_C1), value: 0x10 }),
            11 => ClockStep::Wait(ClockWait::PllClockSelected),
            12 => ClockStep::Write(RegWrite { reg: Reg::SimSopt2, value: 0x0101_0000 }),
            _ => ClockStep::Done,
        }
    }

    /// Carries out the current step against the register image: a write is
    /// logged and bring-up moves on; a wait moves on only if the MCG status
    /// held in the image meets its condition. Returns whether bring-up moved
    /// on.
    pub fn step(&mut self, regs: &mut Registers) -> (moved: bool)
        requires
            old(self).position() < 13,
        ensures
            final(regs)@ == old(regs)@,
            final(regs).wf() == old(regs).wf(),
            clock_script(old(self).position()) matches ClockStep::Write(w) ==> moved
                && final(regs).log@ == old(regs).log@.push(w),
            clock_script(old(self).position()) matches ClockStep::Wait(c) ==> moved == status_meets(
                c,
                old(regs).mcg_s,
            ) && final(regs).log@ == old(regs).log@,
            moved ==> final(self).position() == old(self).position() + 1,
            !moved ==> final(self).position() == old(self).position(),
    {
        match self.action() {
            ClockStep::Write(w) => {
                regs.record(w.reg, w.value);
                self.step = self.step + 1;
                true
            },
            ClockStep::Wait(c) => {
                if c.met_by(regs.mcg_s) {
                    self.step = self.step + 1;
                    true
                } else {
                    false
                }
            },
            ClockStep::Done => false,
        }
    }
}

} // verus!
