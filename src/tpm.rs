use vstd::prelude::*;

use crate::mux::Alternate;
use crate::pins::{PTA0, PTA1, PTA2, PTA3, PTA4, PTA5, PTA12, PTA13, PTB0, PTB1, PTB2, PTB3, PTB18, PTB19, PTC1, PTC2, PTC3, PTC4, PTC8, PTC9, PTD0, PTD1, PTD2, PTD3, PTD4, PTD5, PTE20, PTE21, PTE22, PTE23, PTE24, PTE25, PTE29, PTE30, PTE31};
use crate::sealed::Sealed;
use crate::registers::{wr, Reg, RegisterFile, Registers, TpmChannelRegs, TpmRegs};

pub mod pwm;

verus! {

/// A timer (TPM) token.
pub trait Timer: Sealed {
    /// The timer number.
    spec fn timer() -> nat;

    /// The timer number, at run time.
    fn index() -> (r: usize)
        ensures
            r == Self::timer(),
            r < 3,
    ;
}

/// Token for timer TPM0.
pub struct Tpm0 {
    _private: (),
}

impl Tpm0 {
    pub(crate) fn new() -> Self {
        Tpm0 { _private: () }
    }
}

impl Sealed for Tpm0 {}

impl Timer for Tpm0 {
    open spec fn timer() -> nat {
        0
    }

    fn index() -> (r: usize) {
        0
    }
}

/// Token for timer TPM1.
pub struct Tpm1 {
    _private: (),
}

impl Tpm1 {
    pub(crate) fn new() -> Self {
        Tpm1 { _private: () }
    }
}

impl Sealed for Tpm1 {}

impl Timer for Tpm1 {
    open spec fn timer() -> nat {
        1
    }

    fn index() -> (r: usize) {
        1
    }
}

/// Token for timer TPM2.
pub struct Tpm2 {
    _private: (),
}

impl Tpm2 {
    pub(crate) fn new() -> Self {
        Tpm2 { _private: () }
    }
}

impl Sealed for Tpm2 {}

impl Timer for Tpm2 {
    open spec fn timer() -> nat {
        2
    }

    fn index() -> (r: usize) {
        2
    }
}

/// How many channels timer `t` has: six on TPM0, two on TPM1 and TPM2.
pub open spec fn channel_count(t: nat) -> nat {
    if t == 0 {
        6
    } else {
        2
    }
}

/// The SCGC6 bit that gates the clock of timer `t`.
pub open spec fn timer_gate(t: nat) -> u32 {
    if t == 0 {
        0x0100_0000
    } else if t == 1 {
        0x0200_0000
    } else {
        0x0400_0000
    }
}

/// SC: counter clocked by the module clock (CMOD = 01).
pub const SC_COUNTING: u32 = 0x08;
/// CnSC: edge-aligned PWM, high-true pulses (MSB and ELSB set).
pub const CNSC_EDGE_PWM: u32 = 0x28;
/// CnSC: the mode and edge selection bits (MSB, MSA, ELSB, ELSA).
pub const CNSC_MODE_BITS: u32 = 0x3C;

/// A pin that can carry channel `CHANNEL` of timer `T`.
pub trait TimerPin<T, const CHANNEL: u32> {
    spec fn timer_alternate() -> Alternate;

    fn timer_alt() -> (r: Alternate)
        ensures
            r == Self::timer_alternate(),
    ;
}

impl TimerPin<Tpm1, 0> for PTE20 {
    open spec fn timer_alternate() -> Alternate {
        Alternate::Alt3
    }

    fn timer_alt() -> (r: Alternate) {
        Alternate::Alt3
    }
}

impl TimerPin<Tpm1, 1> for PTE21 {
    open spec fn timer_alternate() -> Alternate {
        Alternate::Alt3
    }

    fn timer_alt() -> (r: Alternate) {
        Alternate::Alt3
    }
}

impl TimerPin<Tpm2, 0> for PTE22 {
    open spec fn timer_alternate() -> Alternate {
        Alternate::Alt3
    }

    fn timer_alt() -> (r: Alternate) {
        Alternate::Alt3
    }
}

impl TimerPin<Tpm2, 1> for PTE23 {
    open spec fn timer_alternate() -> Alternate {
        Alternate::Alt3
    }

    fn timer_alt() -> (r: Alternate) {
        Alternate::Alt3
    }
}

impl TimerPin<Tpm0, 2> for PTE29 {
    open spec fn timer_alternate() -> Alternate {
        Alternate::Alt3
    }

    fn timer_alt() -> (r: Alternate) {
        Alternate::Alt3
    }
}

impl TimerPin<Tpm0, 3> for PTE30 {
    open spec fn timer_alternate() -> Alternate {
        Alternate::Alt3
    }

    fn timer_alt() -> (r: Alternate) {
        Alternate::Alt3
    }
}

impl TimerPin<Tpm0, 4> for PTE31 {
    open spec fn timer_alternate() -> Alternate {
        Alternate::Alt3
    }

    fn timer_alt() -> (r: Alternate) {
        Alternate::Alt3
    }
}

impl TimerPin<Tpm0, 0> for PTE24 {
    open spec fn timer_alternate() -> Alternate {
        Alternate::Alt3
    }

    fn timer_alt() -> (r: Alternate) {
        Alternate::Alt3
    }
}

impl TimerPin<Tpm0, 1> for PTE25 {
    open spec fn timer_alternate() -> Alternate {
        Alternate::Alt3
    }

    fn timer_alt() -> (r: Alternate) {
        Alternate::Alt3
    }
}

impl TimerPin<Tpm0, 5> for PTA0 {
    open spec fn timer_alternate() -> Alternate {
        Alternate::Alt3
    }

    fn timer_alt() -> (r: Alternate) {
        Alternate::Alt3
    }
}

impl TimerPin<Tpm2, 0> for PTA1 {
    open spec fn timer_alternate() -> Alternate {
        Alternate::Alt3
    }

    fn timer_alt() -> (r: Alternate) {
        Alternate::Alt3
    }
}

impl TimerPin<Tpm2, 1> for PTA2 {
    open spec fn timer_alternate() -> Alternate {
        Alternate::Alt3
    }

    fn timer_alt() -> (r: Alternate) {
        Alternate::Alt3
    }
}

impl TimerPin<Tpm0, 0> for PTA3 {
    open spec fn timer_alternate() -> Alternate {
        Alternate::Alt3
    }

    fn timer_alt() -> (r: Alternate) {
        Alternate::Alt3
    }
}

impl TimerPin<Tpm0, 1> for PTA4 {
    open spec fn timer_alternate() -> Alternate {
        Alternate::Alt3
    }

    fn timer_alt() -> (r: Alternate) {
        Alternate::Alt3
    }
}

impl TimerPin<Tpm0, 2> for PTA5 {
    open spec fn timer_alternate() -> Alternate {
        Alternate::Alt3
    }

    fn timer_alt() -> (r: Alternate) {
        Alternate::Alt3
    }
}

impl TimerPin<Tpm1, 0> for PTA12 {
    open spec fn timer_alternate() -> Alternate {
        Alternate::Alt3
    }

    fn timer_alt() -> (r: Alternate) {
        Alternate::Alt3
    }
}

impl TimerPin<Tpm1, 1> for PTA13 {
    open spec fn timer_alternate() -> Alternate {
        Alternate::Alt3
    }

    fn timer_alt() -> (r: Alternate) {
        Alternate::Alt3
    }
}

impl TimerPin<Tpm1, 0> for PTB0 {
    open spec fn timer_alternate() -> Alternate {
        Alternate::Alt3
    }

    fn timer_alt() -> (r: Alternate) {
        Alternate::Alt3
    }
}

impl TimerPin<Tpm1, 1> for PTB1 {
    open spec fn timer_alternate() -> Alternate {
        Alternate::Alt3
    }

    fn timer_alt() -> (r: Alternate) {
        Alternate::Alt3
    }
}

impl TimerPin<Tpm2, 0> for PTB2 {
    open spec fn timer_alternate() -> Alternate {
        Alternate::Alt3
    }

    fn timer_alt() -> (r: Alternate) {
        Alternate::Alt3
    }
}

impl TimerPin<Tpm2, 1> for PTB3 {
    open spec fn timer_alternate() -> Alternate {
        Alternate::Alt3
    }

    fn timer_alt() -> (r: Alternate) {
        Alternate::Alt3
    }
}

impl TimerPin<Tpm2, 0> for PTB18 {
    open spec fn timer_alternate() -> Alternate {
        Alternate::Alt3
    }

    fn timer_alt() -> (r: Alternate) {
        Alternate::Alt3
    }
}

impl TimerPin<Tpm2, 1> for PTB19 {
    open spec fn timer_alternate() -> Alternate {
        Alternate::Alt3
    }

    fn timer_alt() -> (r: Alternate) {
        Alternate::Alt3
    }
}

impl TimerPin<Tpm0, 0> for PTC1 {
    open spec fn timer_alternate() -> Alternate {
        Alternate::Alt4
    }

    fn timer_alt() -> (r: Alternate) {
        Alternate::Alt4
    }
}

impl TimerPin<Tpm0, 1> for PTC2 {
    open spec fn timer_alternate() -> Alternate {
        Alternate::Alt4
    }

    fn timer_alt() -> (r: Alternate) {
        Alternate::Alt4
    }
}

impl TimerPin<Tpm0, 2> for PTC3 {
    open spec fn timer_alternate() -> Alternate {
        Alternate::Alt4
    }

    fn timer_alt() -> (r: Alternate) {
        Alternate::Alt4
    }
}

impl TimerPin<Tpm0, 3> for PTC4 {
    open spec fn timer_alternate() -> Alternate {
        Alternate::Alt4
    }

    fn timer_alt() -> (r: Alternate) {
        Alternate::Alt4
    }
}

impl TimerPin<Tpm0, 4> for PTC8 {
    open spec fn timer_alternate() -> Alternate {
        Alternate::Alt3
    }

    fn timer_alt() -> (r: Alternate) {
        Alternate::Alt3
    }
}

impl TimerPin<Tpm0, 5> for PTC9 {
    open spec fn timer_alternate() -> Alternate {
        Alternate::Alt3
    }

    fn timer_alt() -> (r: Alternate) {
        Alternate::Alt3
    }
}

impl TimerPin<Tpm0, 0> for PTD0 {
    open spec fn timer_alternate() -> Alternate {
        Alternate::Alt4
    }

    fn timer_alt() -> (r: Alternate) {
        Alternate::Alt4
    }
}

impl TimerPin<Tpm0, 1> for PTD1 {
    open spec fn timer_alternate() -> Alternate {
        Alternate::Alt4
    }

    fn timer_alt() -> (r: Alternate) {
        Alternate::Alt4
    }
}

impl TimerPin<Tpm0, 2> for PTD2 {
    open spec fn timer_alternate() -> Alternate {
        Alternate::Alt4
    }

    fn timer_alt() -> (r: Alternate) {
        Alternate::Alt4
    }
}

impl TimerPin<Tpm0, 3> for PTD3 {
    open spec fn timer_alternate() -> Alternate {
        Alternate::Alt4
    }

    fn timer_alt() -> (r: Alternate) {
        Alternate::Alt4
    }
}

impl TimerPin<Tpm0, 4> for PTD4 {
    open spec fn timer_alternate() -> Alternate {
        Alternate::Alt4
    }

    fn timer_alt() -> (r: Alternate) {
        Alternate::Alt4
    }
}

impl TimerPin<Tpm0, 5> for PTD5 {
    open spec fn timer_alternate() -> Alternate {
        Alternate::Alt4
    }

    fn timer_alt() -> (r: Alternate) {
        Alternate::Alt4
    }
}

/// Position of channel `ch` of timer `t` in the timer channel registers.
pub open spec fn channel_slot(t: nat, ch: nat) -> int {
    (t * 6 + ch) as int
}

/// The register file with the clock of timer `t` on.
pub open spec fn with_timer_clock(f: RegisterFile, t: nat) -> RegisterFile {
    RegisterFile { scgc6: f.scgc6 | timer_gate(t), ..f }
}

/// The register file with timer `t`'s SC register set to `sc`.
pub open spec fn with_timer_sc(f: RegisterFile, t: nat, sc: u32) -> RegisterFile {
    RegisterFile { tpm: f.tpm.update(t as int, TpmRegs { sc, ..f.tpm[t as int] }), ..f }
}

/// The register file with timer `t`'s modulo set to `m`.
pub open spec fn with_modulo(f: RegisterFile, t: nat, m: u16) -> RegisterFile {
    RegisterFile { tpm: f.tpm.update(t as int, TpmRegs { modulo: m, ..f.tpm[t as int] }), ..f }
}

/// The register file with channel `ch` of timer `t` given control word `csc`.
pub open spec fn with_channel_control(f: RegisterFile, t: nat, ch: nat, csc: u32) -> RegisterFile {
    let i = channel_slot(t, ch);
    RegisterFile { tpm_channels: f.tpm_channels.update(i, TpmChannelRegs { csc, ..f.tpm_channels[i] }), ..f }
}

/// The register file with channel `ch` of timer `t` given compare value `v`.
pub open spec fn with_channel_value(f: RegisterFile, t: nat, ch: nat, v: u16) -> RegisterFile {
    let i = channel_slot(t, ch);
    RegisterFile {
        tpm_channels: f.tpm_channels.update(i, TpmChannelRegs { cv: v, ..f.tpm_channels[i] }),
        ..f
    }
}

fn ensure_clock_active<T: Timer>(regs: &mut Registers)
    requires
        old(regs).wf(),
    ensures
        final(regs).wf(),
        final(regs)@ == with_timer_clock(old(regs)@, T::timer()),
        final(regs).log@ == old(regs).log@.push(wr(Reg::SimScgc6, old(regs).scgc6 | timer_gate(T::timer()))),
{
    let t = T::index();
    let gate: u32 = if t == 0 {
        0x0100_0000
    } else if t == 1 {
        0x0200_0000
    } else {
        0x0400_0000
    };
    regs.scgc6 = regs.scgc6 | gate;
    regs.record(Reg::SimScgc6, regs.scgc6);
}

fn enable_timer<T: Timer>(regs: &mut Registers, enable: bool)
    requires
        old(regs).wf(),
    ensures
        final(regs).wf(),
        final(regs)@ == with_timer_sc(old(regs)@, T::timer(), if enable { SC_COUNTING } else { 0 }),
        final(regs).log@ == old(regs).log@.push(
            wr(Reg::TpmSc(T::timer() as usize), if enable { SC_COUNTING } else { 0 }),
        ),
{
    let t = T::index();
    let r = regs.tpm[t];
    let sc: u32 = if enable {
        SC_COUNTING
    } else {
        0
    };
    regs.tpm.set(t, TpmRegs { sc, ..r });
    regs.record(Reg::TpmSc(t), sc);
    proof {
        assert(regs@ =~~= with_timer_sc(old(regs)@, T::timer(), sc));
    }
}

fn set_timer_mod_value<T: Timer>(regs: &mut Registers, val: u16)
    requires
        old(regs).wf(),
    ensures
        final(regs).wf(),
        final(regs)@ == with_modulo(old(regs)@, T::timer(), val),
        final(regs).log@ == old(regs).log@.push(wr(Reg::TpmMod(T::timer() as usize), val as u32)),
{
    let t = T::index();
    let r = regs.tpm[t];
    regs.tpm.set(t, TpmRegs { modulo: val, ..r });
    regs.record(Reg::TpmMod(t), val as u32);
    proof {
        assert(regs@ =~~= with_modulo(old(regs)@, T::timer(), val));
    }
}

fn set_channel_control<T: Timer>(regs: &mut Registers, channel: u32, csc: u32)
    requires
        old(regs).wf(),
        channel < channel_count(T::timer()),
    ensures
        final(regs).wf(),
        final(regs)@ == with_channel_control(old(regs)@, T::timer(), channel as nat, csc),
        final(regs).log@ == old(regs).log@.push(
            wr(Reg::TpmCnsc(channel_slot(T::timer(), channel as nat) as usize), csc),
        ),
{
    let i = T::index() * 6 + channel as usize;
    let r = regs.tpm_channels[i];
    regs.tpm_channels.set(i, TpmChannelRegs { csc, ..r });
    regs.record(Reg::TpmCnsc(i), csc);
    proof {
        assert(regs@ =~~= with_channel_control(old(regs)@, T::timer(), channel as nat, csc));
    }
}

fn disable_channel<T: Timer>(regs: &mut Registers, channel: u32)
    requires
        old(regs).wf(),
        channel < channel_count(T::timer()),
    ensures
        final(regs).wf(),
        final(regs)@ == with_channel_control(old(regs)@, T::timer(), channel as nat, 0),
        final(regs).log@ == old(regs).log@.push(
            wr(Reg::TpmCnsc(channel_slot(T::timer(), channel as nat) as usize), 0),
        ),
{
    set_channel_control::<T>(regs, channel, 0);
}

fn configure_for_pwm<T: Timer>(regs: &mut Registers, channel: u32)
    requires
        old(regs).wf(),
        channel < channel_count(T::timer()),
    ensures
        final(regs).wf(),
        final(regs)@ == with_channel_control(old(regs)@, T::timer(), channel as nat, CNSC_EDGE_PWM),
        final(regs).log@ == old(regs).log@.push(
            wr(Reg::TpmCnsc(channel_slot(T::timer(), channel as nat) as usize), CNSC_EDGE_PWM),
        ),
{
    set_channel_control::<T>(regs, channel, CNSC_EDGE_PWM);
}

fn set_channel_value<T: Timer>(regs: &mut Registers, channel: u32, val: u16)
    requires
        old(regs).wf(),
        channel < channel_count(T::timer()),
    ensures
        final(regs).wf(),
        final(regs)@ == with_channel_value(old(regs)@, T::timer(), channel as nat, val),
        final(regs).log@ == old(regs).log@.push(
            wr(Reg::TpmCnv(channel_slot(T::timer(), channel as nat) as usize), val as u32),
        ),
{
    let i = T::index() * 6 + channel as usize;
    let r = regs.tpm_channels[i];
    regs.tpm_channels.set(i, TpmChannelRegs { cv: val, ..r });
    regs.record(Reg::TpmCnv(i), val as u32);
    proof {
        assert(regs@ =~~= with_channel_value(old(regs)@, T::timer(), channel as nat, val));
    }
}

} // verus!
