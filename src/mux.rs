use vstd::prelude::*;

use crate::pins::{pin_slot_of, Pin};
use crate::registers::{wr, Reg, RegisterFile, Registers};

verus! {

/// The function a pin's multiplexer selects.
#[derive(Clone, Copy, Debug, PartialEq, Eq, Structural)]
pub enum Alternate {
    /// Pin disabled (analog).
    Analog,
    /// General-purpose I/O (alternative 1).
    Gpio,
    Alt2,
    Alt3,
    Alt4,
    Alt5,
    Alt6,
    Alt7,
}

/// The MUX field value that selects `a`.
pub open spec fn mux_field(a: Alternate) -> u8 {
    match a {
        Alternate::Analog => 0,
        Alternate::Gpio => 1,
        Alternate::Alt2 => 2,
        Alternate::Alt3 => 3,
        Alternate::Alt4 => 4,
        Alternate::Alt5 => 5,
        Alternate::Alt6 => 6,
        Alternate::Alt7 => 7,
    }
}

impl Alternate {
    /// The MUX field value that selects this function.
    pub fn mux_value(self) -> (r: u8)
        ensures
            r == mux_field(self),
            r < 8,
    {
        match self {
            Alternate::Analog => 0,
            Alternate::Gpio => 1,
            Alternate::Alt2 => 2,
            Alternate::Alt3 => 3,
            Alternate::Alt4 => 4,
            Alternate::Alt5 => 5,
            Alternate::Alt6 => 6,
            Alternate::Alt7 => 7,
        }
    }
}

/// The register file with pin (`port`, `index`) switched to `a`.
pub open spec fn with_alternate(f: RegisterFile, port: nat, index: nat, a: Alternate) -> RegisterFile {
    RegisterFile { pin_mux: f.pin_mux.update(pin_slot_of(port, index), mux_field(a)), ..f }
}

/// Selects function `a` on `pin`.
pub fn set_alternate<P: Pin>(regs: &mut Registers, pin: &P, a: Alternate)
    requires
        old(regs).wf(),
    ensures
        final(regs).wf(),
        final(regs)@ == with_alternate(old(regs)@, P::port(), P::pin(), a),
        final(regs).log@ == old(regs).log@.push(
            wr(Reg::PortPcrMux(pin_slot_of(P::port(), P::pin()) as usize), mux_field(a) as u32),
        ),
{
    let (port, index) = pin.location();
    let slot = port * 32 + index as usize;
    let v = a.mux_value();
    regs.pin_mux.set(slot, v);
    regs.record(Reg::PortPcrMux(slot), v as u32);
    proof {
        assert(regs@ =~~= with_alternate(old(regs)@, P::port(), P::pin(), a));
    }
}

} // verus!
