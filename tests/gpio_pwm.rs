use frdm_kl25_hal::gpio::{Input, Output};
use frdm_kl25_hal::mux::Alternate;
use frdm_kl25_hal::registers::{Reg, RegWrite, Registers};
use frdm_kl25_hal::tpm::pwm::Pwm;
use frdm_kl25_hal::clock::{ClockSetup, ClockStep, ClockWait};
use frdm_kl25_hal::Peripherals;

/// The token set, after clock bring-up has run against a register image
/// whose clock generator reports each awaited status.
fn gpio_board() -> Peripherals {
    let mut regs = Registers::new();
    let mut clocks = ClockSetup::new();
    loop {
        match clocks.action() {
            ClockStep::Done => break,
            ClockStep::Write(_) => {}
            ClockStep::Wait(w) => {
                regs.mcg_s = match w {
                    ClockWait::OscillatorReady => 0x02,
                    ClockWait::ExternalReference => 0x00,
                    ClockWait::ExternalClockSelected => 0x08,
                    ClockWait::PllSelected => 0x20,
                    ClockWait::PllLocked => 0x40,
                    ClockWait::PllClockSelected => 0x0C,
                };
            }
        }
        assert!(clocks.step(&mut regs));
    }
    assert!(clocks.finished());
    Peripherals::steal(clocks)
}

#[test]
fn output_pin_setup_and_levels() {
    let p = gpio_board();
    let mut regs = Registers::new();
    let mut led = Output::new(&mut regs, p.pins.PTB18);
    assert_eq!(regs.scgc5, 0x0400);
    assert_eq!(regs.pin_mux[32 + 18], 1);
    assert_eq!(regs.gpio[1].pddr, 1 << 18);
    led.set_high(&mut regs);
    assert_eq!(regs.gpio[1].pdor, 1 << 18);
    led.set(&mut regs, true);
    assert_eq!(regs.gpio[1].pdor, 1 << 18);
    led.set_low(&mut regs);
    assert_eq!(regs.gpio[1].pdor, 0);
    let _pin = led.release();
}

#[test]
fn input_pin_reads_sampled_level() {
    let p = gpio_board();
    let mut regs = Registers::new();
    regs.gpio[0].pddr = 0xFFFF_FFFF;
    let mut button = Input::new(&mut regs, p.pins.PTA31);
    assert_eq!(regs.gpio[0].pddr, 0x7FFF_FFFF);
    assert_eq!(regs.scgc5, 0x0200);
    assert!(!button.get(&regs));
    assert!(button.is_low(&regs));
    regs.gpio[0].pdir = 0x8000_0000;
    assert!(button.get(&regs));
    assert!(button.is_high(&regs));
    assert!(!button.is_low(&regs));
}

#[test]
fn alternate_mux_values() {
    assert_eq!(Alternate::Analog.mux_value(), 0);
    assert_eq!(Alternate::Gpio.mux_value(), 1);
    assert_eq!(Alternate::Alt5.mux_value(), 5);
    assert_eq!(Alternate::Alt7.mux_value(), 7);
}

#[test]
fn pwm_timer_setup() {
    let p = gpio_board();
    let mut regs = Registers::new();
    regs.tpm_channels[0].csc = 0x28;
    regs.tpm_channels[6].csc = 0x28;
    regs.tpm_channels[7].csc = 0x28;
    regs.tpm_channels[8].csc = 0x28;
    let _pwm = Pwm::new(&mut regs, p.tpm1);
    assert_eq!(regs.scgc6, 0x0200_0000);
    assert_eq!(regs.tpm[1].sc, 0x08);
    assert_eq!(regs.tpm[1].modulo, 0xFFFE);
    assert_eq!(regs.tpm_channels[6].csc, 0);
    assert_eq!(regs.tpm_channels[7].csc, 0);
    assert_eq!(regs.tpm_channels[8].csc, 0x28);
    assert_eq!(regs.tpm_channels[0].csc, 0x28);
    assert_eq!(regs.tpm[0].modulo, 0xFFFF);
}

#[test]
fn pwm_tpm0_disables_all_six_channels() {
    let p = gpio_board();
    let mut regs = Registers::new();
    for i in 0..18 {
        regs.tpm_channels[i].csc = 0x28;
    }
    let _pwm = Pwm::new(&mut regs, p.tpm0);
    for i in 0..6 {
        assert_eq!(regs.tpm_channels[i].csc, 0);
    }
    for i in 6..18 {
        assert_eq!(regs.tpm_channels[i].csc, 0x28);
    }
    assert_eq!(regs.scgc6, 0x0100_0000);
}

#[test]
fn pwm_channel_on_pin_and_duty_cycle() {
    let p = gpio_board();
    let mut regs = Registers::new();
    let mut pwm2 = Pwm::new(&mut regs, p.tpm2);
    let channels = pwm2.split();
    regs.tpm_channels[13].cv = 77;
    let start = regs.log.len();
    let setup = channels.channel1.use_with(&mut regs, p.pins.PTB19);
    assert_eq!(regs.pin_mux[32 + 19], 3);
    assert_eq!(regs.scgc5, 0x0400);
    assert_eq!(regs.tpm_channels[13].csc, 0);
    assert_eq!(regs.tpm_channels[13].cv, 77);
    assert!(setup.is_disabled(&regs));
    let mut g = setup.enable(&mut regs);
    assert!(g.is_enabled(&regs));
    assert_eq!(
        regs.log[start..].to_vec(),
        vec![
            RegWrite { reg: Reg::SimScgc5, value: 0x0400 },
            RegWrite { reg: Reg::PortPcrMux(32 + 19), value: 3 },
            RegWrite { reg: Reg::TpmCnsc(13), value: 0 },
            RegWrite { reg: Reg::TpmCnv(13), value: 0 },
            RegWrite { reg: Reg::TpmCnsc(13), value: 0x28 },
        ]
    );
    assert_eq!(regs.tpm_channels[13].csc, 0x28);
    assert_eq!(regs.tpm_channels[13].cv, 0);
    assert_eq!(g.max_duty_cycle(), u16::MAX);
    g.set_duty_cycle(&mut regs, 0x1234);
    assert_eq!(regs.tpm_channels[13].cv, 0x1234);
    assert_eq!(regs.tpm_channels[12].cv, 0);
    let (_channel, pin) = g.release();
    let _out = Output::new(&mut regs, pin);
    assert_eq!(regs.pin_mux[32 + 19], 1);
}

#[test]
fn pwm_tpm0_split_hands_out_six_channels() {
    let p = gpio_board();
    let mut regs = Registers::new();
    let mut pwm0 = Pwm::new(&mut regs, p.tpm0);
    let channels = pwm0.split();
    let mut c = channels.channel5.use_with(&mut regs, p.pins.PTD5).enable(&mut regs);
    assert_eq!(regs.pin_mux[3 * 32 + 5], 4);
    c.set_duty_cycle(&mut regs, 9);
    assert_eq!(regs.tpm_channels[5].cv, 9);
    let _c1 = channels.channel1.use_with(&mut regs, p.pins.PTA4).enable(&mut regs);
    assert_eq!(regs.tpm_channels[1].csc, 0x28);
}

#[test]
fn disabled_channel_waits_for_mode_bits() {
    let p = gpio_board();
    let mut regs = Registers::new();
    let mut pwm1 = Pwm::new(&mut regs, p.tpm1);
    let channels = pwm1.split();
    assert_eq!(channels.channel1.number(), 1);
    let setup = channels.channel0.use_with(&mut regs, p.pins.PTB0);
    assert_eq!(setup.number(), 0);
    // The device still reports the old mode until the disable takes effect.
    regs.tpm_channels[6].csc = 0x28;
    assert!(!setup.is_disabled(&regs));
    regs.tpm_channels[6].csc = 0;
    assert!(setup.is_disabled(&regs));
    let c = setup.enable(&mut regs);
    regs.tpm_channels[6].csc = 0;
    assert!(!c.is_enabled(&regs));
    regs.tpm_channels[6].csc = 0x28;
    assert!(c.is_enabled(&regs));
}

#[test]
fn pwm_new_stops_counter_first_and_restarts_it_last() {
    let p = gpio_board();
    let mut regs = Registers::new();
    let _pwm = Pwm::new(&mut regs, p.tpm2);
    assert_eq!(
        regs.log,
        vec![
            RegWrite { reg: Reg::SimScgc6, value: 0x0400_0000 },
            RegWrite { reg: Reg::TpmSc(2), value: 0 },
            RegWrite { reg: Reg::TpmMod(2), value: 0xFFFE },
            RegWrite { reg: Reg::TpmCnsc(12), value: 0 },
            RegWrite { reg: Reg::TpmCnsc(13), value: 0 },
            RegWrite { reg: Reg::TpmSc(2), value: 0x08 },
        ]
    );
}

#[test]
fn output_writes_and_levels_are_logged() {
    let p = gpio_board();
    let mut regs = Registers::new();
    let mut led = Output::new(&mut regs, p.pins.PTA2);
    led.set_high(&mut regs);
    led.set_low(&mut regs);
    assert_eq!(
        regs.log,
        vec![
            RegWrite { reg: Reg::SimScgc5, value: 0x0200 },
            RegWrite { reg: Reg::PortPcrMux(2), value: 1 },
            RegWrite { reg: Reg::GpioPddr(0), value: 1 << 2 },
            RegWrite { reg: Reg::GpioPsor(0), value: 1 << 2 },
            RegWrite { reg: Reg::GpioPcor(0), value: 1 << 2 },
        ]
    );
}
