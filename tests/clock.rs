use frdm_kl25_hal::clock::{ClockSetup, ClockStep, ClockWait};
use frdm_kl25_hal::registers::{Reg, RegWrite, Registers};

#[test]
fn clock_bring_up_sequence() {
    let mut regs = Registers::new();
    let mut setup = ClockSetup::new();
    let mut waits = Vec::new();
    loop {
        match setup.action() {
            ClockStep::Done => break,
            ClockStep::Write(_) => assert!(setup.step(&mut regs)),
            ClockStep::Wait(w) => {
                waits.push(w);
                // A status that meets nothing keeps the wait pending.
                let never: u8 = if w == ClockWait::ExternalReference { 0x10 } else { 0x00 };
                regs.mcg_s = never;
                assert!(!setup.step(&mut regs));
                let status: u8 = match w {
                    ClockWait::OscillatorReady => 0x02,
                    ClockWait::ExternalReference => 0x00,
                    ClockWait::ExternalClockSelected => 0x08,
                    ClockWait::PllSelected => 0x20,
                    ClockWait::PllLocked => 0x40,
                    ClockWait::PllClockSelected => 0x0C,
                };
                regs.mcg_s = status;
                assert!(setup.step(&mut regs));
            }
        }
    }
    assert_eq!(
        regs.log,
        vec![
            RegWrite { reg: Reg::SimCopc, value: 0 },
            RegWrite { reg: Reg::Mcg(1), value: 0x14 },
            RegWrite { reg: Reg::Mcg(0), value: 0x90 },
            RegWrite { reg: Reg::Mcg(4), value: 0x03 },
            RegWrite { reg: Reg::Mcg(5), value: 0x40 },
            RegWrite { reg: Reg::Mcg(0), value: 0x10 },
            RegWrite { reg: Reg::SimSopt2, value: 0x0101_0000 },
        ]
    );
    assert_eq!(
        waits,
        vec![
            ClockWait::OscillatorReady,
            ClockWait::ExternalReference,
            ClockWait::ExternalClockSelected,
            ClockWait::PllSelected,
            ClockWait::PllLocked,
            ClockWait::PllClockSelected,
        ]
    );
}

#[test]
fn clock_status_conditions() {
    assert!(ClockWait::ExternalClockSelected.met_by(0x08 | 0x02));
    assert!(!ClockWait::ExternalClockSelected.met_by(0x0C));
    assert!(ClockWait::PllClockSelected.met_by(0x0C));
    assert!(!ClockWait::OscillatorReady.met_by(0xFD));
    assert!(ClockWait::ExternalReference.met_by(0xEF));
}
