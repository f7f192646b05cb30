use vstd::prelude::*;

use crate::mux::{set_alternate, with_alternate, Alternate};
use crate::pins::{enable_port_clock, with_port_clock, Pin};
use crate::registers::{wr, GpioRegs, Reg, RegWrite, RegisterFile, Registers};

verus! {

/// The data register bit of pin `index`.
pub open spec fn pin_bit(index: nat) -> u32 {
    1u32 << (index as u32)
}

/// The register file with pin (`port`, `index`) made an output (`out`) or an
/// input.
pub open spec fn with_direction(f: RegisterFile, port: nat, index: nat, out: bool) -> RegisterFile {
    let g = f.gpio[port as int];
    let pddr = if out {
        g.pddr | pin_bit(index)
    } else {
        g.pddr & !pin_bit(index)
    };
    RegisterFile { gpio: f.gpio.update(port as int, GpioRegs { pddr, ..g }), ..f }
}

/// The register file with output pin (`port`, `index`) driven `high` or low.
pub open spec fn with_level(f: RegisterFile, port: nat, index: nat, high: bool) -> RegisterFile {
    let g = f.gpio[port as int];
    let pdor = if high {
        g.pdor | pin_bit(index)
    } else {
        g.pdor & !pin_bit(index)
    };
    RegisterFile { gpio: f.gpio.update(port as int, GpioRegs { pdor, ..g }), ..f }
}

/// The write that drives pin (`port`, `index`) high (through the set
/// register) or low (through the clear register).
pub open spec fn level_write(port: nat, index: nat, high: bool) -> RegWrite {
    if high {
        wr(Reg::GpioPsor(port as usize), pin_bit(index))
    } else {
        wr(Reg::GpioPcor(port as usize), pin_bit(index))
    }
}

/// The writes that set up pin (`port`, `index`) as a GPIO starting from `f`:
/// port clock, multiplexer, then direction.
pub open spec fn gpio_writes(f: RegisterFile, port: nat, index: nat, out: bool) -> Seq<RegWrite> {
    seq![
        wr(Reg::SimScgc5, f.scgc5 | crate::pins::port_gate(port)),
        wr(Reg::PortPcrMux(crate::pins::pin_slot_of(port, index) as usize), 1),
        wr(Reg::GpioPddr(port as usize), gpio_configured(f, port, index, out).gpio[port as int].pddr),
    ]
}

/// The sampled input level of pin (`port`, `index`).
pub open spec fn input_level(f: RegisterFile, port: nat, index: nat) -> bool {
    (f.gpio[port as int].pdir >> (index as u32)) & 1 != 0
}

/// The register file after pin (`port`, `index`) is set up as a GPIO: port
/// clock on, multiplexer on GPIO, direction `out`.
pub open spec fn gpio_configured(f: RegisterFile, port: nat, index: nat, out: bool) -> RegisterFile {
    with_direction(
        with_alternate(with_port_clock(f, port), port, index, Alternate::Gpio),
        port,
        index,
        out,
    )
}

/// A pin driven as a digital output.
pub struct Output<P> {
    _pin: P,
}

/// A pin read as a digital input.
pub struct Input<P> {
    _pin: P,
}

fn set_data_direction<P: Pin>(regs: &mut Registers, pin: &P, out: bool)
    requires
        old(regs).wf(),
    ensures
        final(regs).wf(),
        final(regs)@ == with_direction(old(regs)@, P::port(), P::pin(), out),
        final(regs).log@ == old(regs).log@.push(
            wr(Reg::GpioPddr(P::port() as usize), final(regs).gpio@[P::port() as int].pddr),
        ),
{
    let (port, index) = pin.location();
    let bit: u32 = 1u32 << index;
    let g = regs.gpio[port];
    let pddr = if out {
        g.pddr | bit
    } else {
        g.pddr & !bit
    };
    regs.gpio.set(port, GpioRegs { pddr, ..g });
    regs.record(Reg::GpioPddr(port), pddr);
    proof {
        assert(regs@ =~~= with_direction(old(regs)@, P::port(), P::pin(), out));
    }
}

fn set_data_output<P: Pin>(regs: &mut Registers, pin: &P, high: bool)
    requires
        old(regs).wf(),
    ensures
        final(regs).wf(),
        final(regs)@ == with_level(old(regs)@, P::port(), P::pin(), high),
        final(regs).log@ == old(regs).log@.push(level_write(P::port(), P::pin(), high)),
{
    let (port, index) = pin.location();
    let bit: u32 = 1u32 << index;
    let g = regs.gpio[port];
    let pdor = if high {
        g.pdor | bit
    } else {
        g.pdor & !bit
    };
    regs.gpio.set(port, GpioRegs { pdor, ..g });
    if high {
        regs.record(Reg::GpioPsor(port), bit);
    } else {
        regs.record(Reg::GpioPcor(port), bit);
    }
    proof {
        assert(regs@ =~~= with_level(old(regs)@, P::port(), P::pin(), high));
    }
}

fn data_input<P: Pin>(regs: &Registers, pin: &P) -> (r: bool)
    requires
        regs.wf(),
    ensures
        r == input_level(regs@, P::port(), P::pin()),
{
    let (port, index) = pin.location();
    (regs.gpio[port].pdir >> index) & 1 != 0
}

impl<P> Output<P> {
    /// The pin token held.
    pub closed spec fn token(&self) -> P {
        self._pin
    }
}

impl<P> Input<P> {
    /// The pin token held.
    pub closed spec fn token(&self) -> P {
        self._pin
    }
}

impl<P: Pin> Output<P> {
    /// Makes `pin` a digital output: switches on its port clock, selects GPIO
    /// on its multiplexer and sets its direction to output.
    pub fn new(regs: &mut Registers, pin: P) -> (r: Self)
        requires
            old(regs).wf(),
        ensures
            final(regs).wf(),
            final(regs)@ == gpio_configured(old(regs)@, P::port(), P::pin(), true),
            final(regs).log@ == old(regs).log@ + gpio_writes(old(regs)@, P::port(), P::pin(), true),
            r.token() == pin,
    {
        let ghost log0 = regs.log@;
        enable_port_clock(regs, &pin);
        set_alternate(regs, &pin, Alternate::Gpio);
        set_data_direction(regs, &pin, true);
        proof {
            assert(regs.log@ =~= log0 + gpio_writes(old(regs)@, P::port(), P::pin(), true));
        }
        Output { _pin: pin }
    }

    /// Drives the pin high (`true`) or low.
    pub fn set(&mut self, regs: &mut Registers, high: bool)
        requires
            old(regs).wf(),
        ensures
            final(regs).wf(),
            final(regs)@ == with_level(old(regs)@, P::port(), P::pin(), high),
            final(regs).log@ == old(regs).log@.push(level_write(P::port(), P::pin(), high)),
    {
        set_data_output(regs, &self._pin, high);
    }

    /// Drives the pin low.
    pub fn set_low(&mut self, regs: &mut Registers)
        requires
            old(regs).wf(),
        ensures
            final(regs).wf(),
            final(regs)@ == with_level(old(regs)@, P::port(), P::pin(), false),
            final(regs).log@ == old(regs).log@.push(level_write(P::port(), P::pin(), false)),
    {
        self.set(regs, false);
    }

    /// Drives the pin high.
    pub fn set_high(&mut self, regs: &mut Registers)
        requires
            old(regs).wf(),
        ensures
            final(regs).wf(),
            final(regs)@ == with_level(old(regs)@, P::port(), P::pin(), true),
            final(regs).log@ == old(regs).log@.push(level_write(P::port(), P::pin(), true)),
    {
        self.set(regs, true);
    }

    /// Gives the pin token back; the pin keeps its configuration.
    pub fn release(self) -> (r: P)
        ensures
            r == self.token(),
    {
        self._pin
    }
}

impl<P: Pin> Input<P> {
    /// Makes `pin` a digital input: switches on its port clock, selects GPIO
    /// on its multiplexer and sets its direction to input.
    pub fn new(regs: &mut Registers, pin: P) -> (r: Self)
        requires
            old(regs).wf(),
        ensures
            final(regs).wf(),
            final(regs)@ == gpio_configured(old(regs)@, P::port(), P::pin(), false),
            final(regs).log@ == old(regs).log@ + gpio_writes(old(regs)@, P::port(), P::pin(), false),
            r.token() == pin,
    {
        let ghost log0 = regs.log@;
        enable_port_clock(regs, &pin);
        set_alternate(regs, &pin, Alternate::Gpio);
        set_data_direction(regs, &pin, false);
        proof {
            assert(regs.log@ =~= log0 + gpio_writes(old(regs)@, P::port(), P::pin(), false));
        }
        Input { _pin: pin }
    }

    /// The pin's sampled level: `true` when high.
    pub fn get(&mut self, regs: &Registers) -> (r: bool)
        requires
            regs.wf(),
        ensures
            r == input_level(regs@, P::port(), P::pin()),
    {
        data_input(regs, &self._pin)
    }

    /// Whether the pin reads high.
    pub fn is_high(&mut self, regs: &Registers) -> (r: bool)
        requires
            regs.wf(),
        ensures
            r == input_level(regs@, P::port(), P::pin()),
    {
        self.get(regs)
    }

    /// Whether the pin reads low.
    pub fn is_low(&mut self, regs: &Registers) -> (r: bool)
        requires
            regs.wf(),
        ensures
            r == !input_level(regs@, P::port(), P::pin()),
    {
        !self.get(regs)
    }

    /// Gives the pin token back; the pin keeps its configuration.
    pub fn release(self) -> (r: P)
        ensures
            r == self.token(),
    {
        self._pin
    }
}

} // verus!
