use frdm_kl25_hal::mc33hb2001::{
    decode_response, idle_frame, read_frame, write_frame, BridgeMode, Configuration, ControlMode,
    CurrentLimit, Input, Register, Setup, SetupAction, SetupFault, SetupSequence, SlewRate, Status,
    StatusMask,
};

#[test]
fn default_configuration_fields() {
    let c = Configuration::new();
    assert_eq!(c.into_bits(), 0x0D98);
    assert!(!c.check_for_open_load());
    assert!(c.enable_thermal_management());
    assert!(c.enable_active_current_limit());
    assert_eq!(c.current_limit(), CurrentLimit::Lim7_0);
    assert_eq!(c.slew_rate(), SlewRate::Sr2_0);
    assert!(c.enable());
    assert_eq!(c.bridge_mode(), BridgeMode::HBridge);
    assert_eq!(c.control_mode(), ControlMode::Parallel);
    assert_eq!(c.virtual_input_1(), Input::Low);
    assert_eq!(c.virtual_input_2(), Input::Low);
}

#[test]
fn configuration_builders_set_their_bits() {
    let base = Configuration::new()
        .with_bridge_mode(BridgeMode::HBridge)
        .with_control_mode(ControlMode::Spi)
        .with_virtual_input_1(Input::High);
    assert_eq!(base.into_bits(), 0x0D9D);
    assert_eq!(base.with_virtual_input_2(Input::High).into_bits(), 0x0D9F);
    assert_eq!(base.with_virtual_input_2(Input::Low).into_bits(), 0x0D9D);
    let c = Configuration::from_bits(0)
        .with_current_limit(CurrentLimit::Lim10_7)
        .with_slew_rate(SlewRate::Sr0_25)
        .with_check_for_open_load(true);
    assert_eq!(c.into_bits(), 0x13E0);
    assert_eq!(c.current_limit(), CurrentLimit::Lim10_7);
    assert_eq!(c.slew_rate(), SlewRate::Sr0_25);
    assert_eq!(c.with_enable(true).with_enable(false).into_bits(), 0x13E0);
}

#[test]
fn status_and_mask_fields() {
    let s = Status::from_bits(0x0801);
    assert!(s.spi_framing_error());
    assert!(s.overtemperature_shutdown());
    assert!(!s.overcurrent());
    assert_eq!(Status::new().with_open_load(true).into_bits(), 0x0008);
    let m = StatusMask::from_bits(0x1000);
    assert!(m.disable_overvoltage());
    assert!(!m.spi_framing_error());
    assert_eq!(StatusMask::new().with_spi_framing_error(true).into_bits(), 0x0800);
}

#[test]
fn enum_encodings() {
    assert_eq!(CurrentLimit::Lim5_4.into_bits(), 0);
    assert_eq!(CurrentLimit::from_bits(3), CurrentLimit::Lim10_7);
    assert_eq!(SlewRate::Sr16_0.into_bits(), 1);
    assert_eq!(SlewRate::from_bits(7), SlewRate::Sr0_25);
    assert_eq!(SlewRate::from_bits(0), SlewRate::Bypass);
    assert_eq!(BridgeMode::from_bits(0), BridgeMode::HalfBridge);
    assert_eq!(BridgeMode::HBridge.into_bits(), 1);
    assert_eq!(ControlMode::from_bits(1), ControlMode::Spi);
    assert_eq!(ControlMode::Parallel.into_bits(), 0);
    assert_eq!(Input::from_bits(1), Input::High);
    assert_eq!(Input::Low.into_bits(), 0);
}

#[test]
fn frames() {
    assert_eq!(write_frame(Register::ConfigAndControl, 0x0D98), [0xED, 0x98]);
    assert_eq!(write_frame(Register::Status, 0xFFFF), [0xBF, 0xFF]);
    assert_eq!(write_frame(Register::FaultStatusMask, 0x0001), [0xC0, 0x01]);
    assert_eq!(read_frame(Register::Identification), [0x00, 0x00]);
    assert_eq!(read_frame(Register::Status), [0x20, 0x00]);
    assert_eq!(read_frame(Register::ConfigAndControl), [0x60, 0x00]);
    assert_eq!(idle_frame(), [0, 0]);
    assert_eq!(decode_response([0xFF, 0xFF]), 0x1FFF);
    assert_eq!(decode_response([0x00, 0x02]), 0x0002);
    assert_eq!(decode_response([0x6D, 0xD8]), 0x0DD8);
}

fn run_setup(ident: u16, read_back: u16) -> (Vec<SetupAction>, Result<(), SetupFault>) {
    let mut seq = SetupSequence::new();
    let mut actions = Vec::new();
    loop {
        let a = seq.action();
        actions.push(a);
        let value = match a {
            SetupAction::Finished => return (actions, Ok(())),
            SetupAction::Read(Register::Identification) => ident,
            SetupAction::Read(Register::ConfigAndControl) => read_back,
            _ => 0,
        };
        if let Err(e) = seq.advance(value) {
            return (actions, Err(e));
        }
    }
}

#[test]
fn setup_sequence_succeeds() {
    let (actions, r) = run_setup(0x0002, 0x0DD8);
    assert_eq!(r, Ok(()));
    assert_eq!(
        actions,
        vec![
            SetupAction::DisableLow,
            SetupAction::EnableHigh,
            SetupAction::DelayMs(1),
            SetupAction::Read(Register::Identification),
            SetupAction::Read(Register::FaultStatusMask),
            SetupAction::Read(Register::ConfigAndControl),
            SetupAction::Read(Register::Status),
            SetupAction::Write(Register::ConfigAndControl, 0x0DD8),
            SetupAction::Read(Register::ConfigAndControl),
            SetupAction::Write(Register::ConfigAndControl, 0x0D98),
            SetupAction::Finished,
        ]
    );
}

#[test]
fn setup_rejects_wrong_ident() {
    let (actions, r) = run_setup(0x0005, 0x0DD8);
    assert_eq!(r, Err(SetupFault::IncorrectIdent(5)));
    assert_eq!(actions.len(), 4);
}

#[test]
fn setup_rejects_failed_read_back() {
    let (actions, r) = run_setup(0x0002, 0x0D98);
    assert_eq!(r, Err(SetupFault::CouldNotModifyRegisters));
    assert_eq!(actions.len(), 9);
}

#[test]
fn setup_error_from_fault() {
    let e: Setup<(), (), ()> = Setup::from_fault(SetupFault::IncorrectIdent(7));
    assert!(matches!(e, Setup::IncorrectIdent(7)));
    let e: Setup<(), (), ()> = Setup::from_fault(SetupFault::CouldNotModifyRegisters);
    assert!(matches!(e, Setup::CouldNotModifyRegisters));
}

#[test]
fn with_changes_only_its_field() {
    let c = Configuration::from_bits(0xFFFF).with_slew_rate(SlewRate::Bypass);
    assert_eq!(c.into_bits(), 0xFF1F);
    assert_eq!(c.slew_rate(), SlewRate::Bypass);
    assert_eq!(c.current_limit(), CurrentLimit::Lim10_7);
    let c = c.with_virtual_input_1(Input::Low);
    assert_eq!(c.into_bits(), 0xFF1E);
    assert_eq!(c.virtual_input_1(), Input::Low);
    assert_eq!(c.virtual_input_2(), Input::High);
    let m = StatusMask::from_bits(0xFFFF).with_overcurrent(false);
    assert_eq!(m.into_bits(), 0xFFFB);
    assert!(!m.overcurrent());
}
