//! Protocol of the MC33HB2001 H-bridge driver on an SPI bus.

pub use bitfields::{
    BridgeMode, Configuration, ControlMode, CurrentLimit, Input, SlewRate, Status, StatusMask,
};

pub mod bitfields;

use vstd::prelude::*;

verus! {

/// Value of the identification register.
pub const IDENT: u16 = 0x0002;
/// Configuration written at the end of setup (every field at its default).
pub const DEFAULT_CONFIGURATION: u16 = 0x0D98;
/// Configuration written during setup to check that registers can be changed.
pub const TEST_CONFIGURATION: u16 = 0x0DD8;
/// The 13 data bits of a frame.
pub const DATA_MASK: u16 = 0x1FFF;
/// Frame bit that marks a write.
pub const WRITE_FLAG: u16 = 0x8000;

/// Possible setup errors.
pub enum Setup<ESPI, EEN, EDIS> {
    /// Error with the SPI bus.
    Spi(ESPI),
    /// Error enabling the device.
    Enable(EEN),
    /// Error setting disable low.
    Disable(EDIS),
    /// The identification read back was not [`IDENT`].
    IncorrectIdent(u16),
    /// A modified register did not read back as written.
    CouldNotModifyRegisters,
}

/// A setup failure that the device itself reports, as opposed to a failure
/// of the bus or of a pin.
#[derive(Clone, Copy, Debug, PartialEq, Eq, Structural)]
pub enum SetupFault {
    /// The identification read back was this value, not [`IDENT`].
    IncorrectIdent(u16),
    /// The configuration register did not read back as written.
    CouldNotModifyRegisters,
}

impl<ESPI, EEN, EDIS> Setup<ESPI, EEN, EDIS> {
    /// The setup error for a fault the device reported.
    pub fn from_fault(f: SetupFault) -> (r: Self)
        ensures
            f matches SetupFault::IncorrectIdent(v) ==> r matches Setup::IncorrectIdent(w) && w == v,
            f is CouldNotModifyRegisters ==> r is CouldNotModifyRegisters,
    {
        match f {
            SetupFault::IncorrectIdent(v) => Setup::IncorrectIdent(v),
            SetupFault::CouldNotModifyRegisters => Setup::CouldNotModifyRegisters,
        }
    }
}

/// A register of the device.
#[derive(Clone, Copy, Debug, PartialEq, Eq, Structural)]
pub enum Register {
    Identification,
    Status,
    FaultStatusMask,
    ConfigAndControl,
}

/// The address bits of `r` in a frame.
pub open spec fn register_address(r: Register) -> u16 {
    match r {
        Register::Identification => 0x0000,
        Register::Status => 0x2000,
        Register::FaultStatusMask => 0x4000,
        Register::ConfigAndControl => 0x6000,
    }
}

impl Register {
    /// The register's address bits in a frame.
    pub fn address(self) -> (r: u16)
        ensures
            r == register_address(self),
    {
        match self {
            Register::Identification => 0x0000,
            Register::Status => 0x2000,
            Register::FaultStatusMask => 0x4000,
            Register::ConfigAndControl => 0x6000,
        }
    }
}

/// The frame word that writes `data` to `reg`: the 13 data bits, the write
/// flag and the register's address.
pub open spec fn write_word(reg: Register, data: u16) -> u16 {
    (data & DATA_MASK) | WRITE_FLAG | register_address(reg)
}

/// The two bytes of `w`, most significant first.
pub open spec fn be_bytes(w: u16) -> Seq<u8> {
    seq![(w >> 8u16) as u8, (w & 0xFF) as u8]
}

/// The 16-bit word that two bytes hold, most significant first.
pub open spec fn be_word(b: Seq<u8>) -> u16 {
    ((b[0] as u16) << 8u16) | (b[1] as u16)
}

fn to_be_bytes(w: u16) -> (r: [u8; 2])
    ensures
        r@ == be_bytes(w),
{
    let r = [(w >> 8u16) as u8, (w & 0xFF) as u8];
    assert(r@ =~= be_bytes(w));
    r
}

/// The frame that writes `data` to `reg`.
pub fn write_frame(reg: Register, data: u16) -> (r: [u8; 2])
    ensures
        r@ == be_bytes(write_word(reg, data)),
{
    to_be_bytes((data & DATA_MASK) | WRITE_FLAG | reg.address())
}

/// The frame that asks for the content of `reg`. The answer arrives in the
/// frame that follows, since the device answers one chip-select cycle late.
pub fn read_frame(reg: Register) -> (r: [u8; 2])
    ensures
        r@ == be_bytes(register_address(reg)),
{
    to_be_bytes(reg.address())
}

/// The frame sent to collect the answer to a read.
pub fn idle_frame() -> (r: [u8; 2])
    ensures
        r@ == seq![0u8, 0u8],
{
    let r = [0u8, 0u8];
    assert(r@ =~= seq![0u8, 0u8]);
    r
}

/// The register content that a received frame carries: its 13 data bits.
pub fn decode_response(buf: [u8; 2]) -> (r: u16)
    ensures
        r == be_word(buf@) & DATA_MASK,
{
    (((buf[0] as u16) << 8u16) | (buf[1] as u16)) & DATA_MASK
}

/// One step of the setup sequence, for the caller to carry out.
#[derive(Clone, Copy, Debug, PartialEq, Eq, Structural)]
pub enum SetupAction {
    /// Drive the DIS pin low.
    DisableLow,
    /// Drive the ENBL pin high.
    EnableHigh,
    /// Wait this many milliseconds.
    DelayMs(u32),
    /// Read a register and report its content.
    Read(Register),
    /// Write a value to a register.
    Write(Register, u16),
    /// Setup is complete.
    Finished,
}

/// Index of the step that reads the identification register.
pub const STEP_READ_IDENT: u8 = 3;
/// Index of the step that reads back the test configuration.
pub const STEP_READ_BACK: u8 = 8;
/// Index of the final step.
pub const STEP_FINISHED: u8 = 10;

/// The setup sequence: enable the device, let it settle, read the
/// identification and the other registers, check that the configuration
/// register takes a test value, then write the default configuration.
pub open spec fn setup_script(step: nat) -> SetupAction {
    if step == 0 {
        SetupAction::DisableLow
    } else if step == 1 {
        SetupAction::EnableHigh
    } else if step == 2 {
        SetupAction::DelayMs(1)
    } else if step == 3 {
        SetupAction::Read(Register::Identification)
    } else if step == 4 {
        SetupAction::Read(Register::FaultStatusMask)
    } else if step == 5 {
        SetupAction::Read(Register::ConfigAndControl)
    } else if step == 6 {
        SetupAction::Read(Register::Status)
    } else if step == 7 {
        SetupAction::Write(Register::ConfigAndControl, TEST_CONFIGURATION)
    } else if step == 8 {
        SetupAction::Read(Register::ConfigAndControl)
    } else if step == 9 {
        SetupAction::Write(Register::ConfigAndControl, DEFAULT_CONFIGURATION)
    } else {
        SetupAction::Finished
    }
}

/// Progress through the setup sequence.
pub struct SetupSequence {
    step: u8,
}

impl SetupSequence {
    #[verifier::type_invariant]
    spec fn inv(self) -> bool {
        self.step <= STEP_FINISHED
    }

    /// Index of the step to carry out next.
    pub closed spec fn position(&self) -> nat {
        self.step as nat
    }

    /// The sequence at its first step.
    pub fn new() -> (r: Self)
        ensures
            r.position() == 0,
    {
        SetupSequence { step: 0 }
    }

    /// The step to carry out next.
    pub fn action(&self) -> (r: SetupAction)
        ensures
            r == setup_script(self.position()),
            r is Finished <==> self.position() == STEP_FINISHED,
    {
        proof {
            use_type_invariant(self);
        }
        match self.step {
            0 => SetupAction::DisableLow,
            1 => SetupAction::EnableHigh,
            2 => SetupAction::DelayMs(1),
            3 => SetupAction::Read(Register::Identification),
            4 => SetupAction::Read(Register::FaultStatusMask),
            5 => SetupAction::Read(Register::ConfigAndControl),
            6 => SetupAction::Read(Register::Status),
            7 => SetupAction::Write(Register::ConfigAndControl, TEST_CONFIGURATION),
            8 => SetupAction::Read(Register::ConfigAndControl),
            9 => SetupAction::Write(Register::ConfigAndControl, DEFAULT_CONFIGURATION),
            _ => SetupAction::Finished,
        }
    }

    /// Records that the current step was carried out; `value` is what a read
    /// returned (ignored for other steps). Fails, staying at the step, when
    /// the identification is not [`IDENT`] or the test configuration does
    /// not read back.
    pub fn advance(&mut self, value: u16) -> (r: Result<(), SetupFault>)
        requires
            old(self).position() < STEP_FINISHED,
        ensures
            old(self).position() == STEP_READ_IDENT && value != IDENT ==> r == Err::<(), SetupFault>(
                SetupFault::IncorrectIdent(value),
            ),
            old(self).position() == STEP_READ_BACK && value != TEST_CONFIGURATION ==> r == Err::<
                (),
                SetupFault,
            >(SetupFault::CouldNotModifyRegisters),
            r is Err ==> final(self).position() == old(self).position(),
            r is Ok <==> !(old(self).position() == STEP_READ_IDENT && value != IDENT) && !(
            old(self).position() == STEP_READ_BACK && value != TEST_CONFIGURATION),
            r is Ok ==> final(self).position() == old(self).position() + 1,
    {
        if self.step == STEP_READ_IDENT && value != IDENT {
            return Err(SetupFault::IncorrectIdent(value));
        }
        if self.step == STEP_READ_BACK && value != TEST_CONFIGURATION {
            return Err(SetupFault::CouldNotModifyRegisters);
        }
        self.step = self.step + 1;
        Ok(())
    }
}

} // verus!
