use vstd::prelude::*;

use crate::sealed::Sealed;
use crate::registers::{wr, Reg, RegisterFile, Registers};

verus! {

/// A pin token: exclusive ownership of one physical pin.
pub trait Pin: Sealed {
    /// The pin's port: 0 for port A up to 4 for port E.
    spec fn port() -> nat;

    /// The pin's number within its port.
    spec fn pin() -> nat;

    /// The pin's port and number.
    fn location(&self) -> (r: (usize, u32))
        ensures
            r.0 == Self::port(),
            r.1 == Self::pin(),
            r.0 < 5,
            r.1 < 32,
    ;
}

/// The token of pin `INDEX` of port `PORT`. Only [`Pins::new`] makes them, one
/// for each physical pin.
pub struct PortPin<const PORT: usize, const INDEX: u32> {
    _private: (),
}

impl<const PORT: usize, const INDEX: u32> PortPin<PORT, INDEX> {
    #[verifier::type_invariant]
    spec fn inv(self) -> bool {
        PORT < 5 && INDEX < 32
    }
}

impl<const PORT: usize, const INDEX: u32> Sealed for PortPin<PORT, INDEX> {}

impl<const PORT: usize, const INDEX: u32> Pin for PortPin<PORT, INDEX> {
    open spec fn port() -> nat {
        PORT as nat
    }

    open spec fn pin() -> nat {
        INDEX as nat
    }

    fn location(&self) -> (r: (usize, u32)) {
        proof {
            use_type_invariant(self);
        }
        (PORT, INDEX)
    }
}

pub type PTA0 = PortPin<0, 0>;
pub type PTA1 = PortPin<0, 1>;
pub type PTA2 = PortPin<0, 2>;
pub type PTA3 = PortPin<0, 3>;
pub type PTA4 = PortPin<0, 4>;
pub type PTA5 = PortPin<0, 5>;
pub type PTA6 = PortPin<0, 6>;
pub type PTA7 = PortPin<0, 7>;
pub type PTA8 = PortPin<0, 8>;
pub type PTA9 = PortPin<0, 9>;
pub type PTA10 = PortPin<0, 10>;
pub type PTA11 = PortPin<0, 11>;
pub type PTA12 = PortPin<0, 12>;
pub type PTA13 = PortPin<0, 13>;
pub type PTA14 = PortPin<0, 14>;
pub type PTA15 = PortPin<0, 15>;
pub type PTA16 = PortPin<0, 16>;
pub type PTA17 = PortPin<0, 17>;
pub type PTA18 = PortPin<0, 18>;
pub type PTA19 = PortPin<0, 19>;
pub type PTA20 = PortPin<0, 20>;
pub type PTA21 = PortPin<0, 21>;
pub type PTA22 = PortPin<0, 22>;
pub type PTA23 = PortPin<0, 23>;
pub type PTA24 = PortPin<0, 24>;
pub type PTA25 = PortPin<0, 25>;
pub type PTA26 = PortPin<0, 26>;
pub type PTA27 = PortPin<0, 27>;
pub type PTA28 = PortPin<0, 28>;
pub type PTA29 = PortPin<0, 29>;
pub type PTA30 = PortPin<0, 30>;
pub type PTA31 = PortPin<0, 31>;
pub type PTB0 = PortPin<1, 0>;
pub type PTB1 = PortPin<1, 1>;
pub type PTB2 = PortPin<1, 2>;
pub type PTB3 = PortPin<1, 3>;
pub type PTB4 = PortPin<1, 4>;
pub type PTB5 = PortPin<1, 5>;
pub type PTB6 = PortPin<1, 6>;
pub type PTB7 = PortPin<1, 7>;
pub type PTB8 = PortPin<1, 8>;
pub type PTB9 = PortPin<1, 9>;
pub type PTB10 = PortPin<1, 10>;
pub type PTB11 = PortPin<1, 11>;
pub type PTB12 = PortPin<1, 12>;
pub type PTB13 = PortPin<1, 13>;
pub type PTB14 = PortPin<1, 14>;
pub type PTB15 = PortPin<1, 15>;
pub type PTB16 = PortPin<1, 16>;
pub type PTB17 = PortPin<1, 17>;
pub type PTB18 = PortPin<1, 18>;
pub type PTB19 = PortPin<1, 19>;
pub type PTB20 = PortPin<1, 20>;
pub type PTB21 = PortPin<1, 21>;
pub type PTB22 = PortPin<1, 22>;
pub type PTB23 = PortPin<1, 23>;
pub type PTB24 = PortPin<1, 24>;
pub type PTB25 = PortPin<1, 25>;
pub type PTB26 = PortPin<1, 26>;
pub type PTB27 = PortPin<1, 27>;
pub type PTB28 = PortPin<1, 28>;
pub type PTB29 = PortPin<1, 29>;
pub type PTB30 = PortPin<1, 30>;
pub type PTB31 = PortPin<1, 31>;
pub type PTC0 = PortPin<2, 0>;
pub type PTC1 = PortPin<2, 1>;
pub type PTC2 = PortPin<2, 2>;
pub type PTC3 = PortPin<2, 3>;
pub type PTC4 = PortPin<2, 4>;
pub type PTC5 = PortPin<2, 5>;
pub type PTC6 = PortPin<2, 6>;
pub type PTC7 = PortPin<2, 7>;
pub type PTC8 = PortPin<2, 8>;
pub type PTC9 = PortPin<2, 9>;
pub type PTC10 = PortPin<2, 10>;
pub type PTC11 = PortPin<2, 11>;
pub type PTC12 = PortPin<2, 12>;
pub type PTC13 = PortPin<2, 13>;
pub type PTC14 = PortPin<2, 14>;
pub type PTC15 = PortPin<2, 15>;
pub type PTC16 = PortPin<2, 16>;
pub type PTC17 = PortPin<2, 17>;
pub type PTC18 = PortPin<2, 18>;
pub type PTC19 = PortPin<2, 19>;
pub type PTC20 = PortPin<2, 20>;
pub type PTC21 = PortPin<2, 21>;
pub type PTC22 = PortPin<2, 22>;
pub type PTC23 = PortPin<2, 23>;
pub type PTC24 = PortPin<2, 24>;
pub type PTC25 = PortPin<2, 25>;
pub type PTC26 = PortPin<2, 26>;
pub type PTC27 = PortPin<2, 27>;
pub type PTC28 = PortPin<2, 28>;
pub type PTC29 = PortPin<2, 29>;
pub type PTC30 = PortPin<2, 30>;
pub type PTC31 = PortPin<2, 31>;
pub type PTD0 = PortPin<3, 0>;
pub type PTD1 = PortPin<3, 1>;
pub type PTD2 = PortPin<3, 2>;
pub type PTD3 = PortPin<3, 3>;
pub type PTD4 = PortPin<3, 4>;
pub type PTD5 = PortPin<3, 5>;
pub type PTD6 = PortPin<3, 6>;
pub type PTD7 = PortPin<3, 7>;
pub type PTD8 = PortPin<3, 8>;
pub type PTD9 = PortPin<3, 9>;
pub type PTD10 = PortPin<3, 10>;
pub type PTD11 = PortPin<3, 11>;
pub type PTD12 = PortPin<3, 12>;
pub type PTD13 = PortPin<3, 13>;
pub type PTD14 = PortPin<3, 14>;
pub type PTD15 = PortPin<3, 15>;
pub type PTD16 = PortPin<3, 16>;
pub type PTD17 = PortPin<3, 17>;
pub type PTD18 = PortPin<3, 18>;
pub type PTD19 = PortPin<3, 19>;
pub type PTD20 = PortPin<3, 20>;
pub type PTD21 = PortPin<3, 21>;
pub type PTD22 = PortPin<3, 22>;
pub type PTD23 = PortPin<3, 23>;
pub type PTD24 = PortPin<3, 24>;
pub type PTD25 = PortPin<3, 25>;
pub type PTD26 = PortPin<3, 26>;
pub type PTD27 = PortPin<3, 27>;
pub type PTD28 = PortPin<3, 28>;
pub type PTD29 = PortPin<3, 29>;
pub type PTD30 = PortPin<3, 30>;
pub type PTD31 = PortPin<3, 31>;
pub type PTE0 = PortPin<4, 0>;
pub type PTE1 = PortPin<4, 1>;
pub type PTE2 = PortPin<4, 2>;
pub type PTE3 = PortPin<4, 3>;
pub type PTE4 = PortPin<4, 4>;
pub type PTE5 = PortPin<4, 5>;
pub type PTE6 = PortPin<4, 6>;
pub type PTE7 = PortPin<4, 7>;
pub type PTE8 = PortPin<4, 8>;
pub type PTE9 = PortPin<4, 9>;
pub type PTE10 = PortPin<4, 10>;
pub type PTE11 = PortPin<4, 11>;
pub type PTE12 = PortPin<4, 12>;
pub type PTE13 = PortPin<4, 13>;
pub type PTE14 = PortPin<4, 14>;
pub type PTE15 = PortPin<4, 15>;
pub type PTE16 = PortPin<4, 16>;
pub type PTE17 = PortPin<4, 17>;
pub type PTE18 = PortPin<4, 18>;
pub type PTE19 = PortPin<4, 19>;
pub type PTE20 = PortPin<4, 20>;
pub type PTE21 = PortPin<4, 21>;
pub type PTE22 = PortPin<4, 22>;
pub type PTE23 = PortPin<4, 23>;
pub type PTE24 = PortPin<4, 24>;
pub type PTE25 = PortPin<4, 25>;
pub type PTE26 = PortPin<4, 26>;
pub type PTE27 = PortPin<4, 27>;
pub type PTE28 = PortPin<4, 28>;
pub type PTE29 = PortPin<4, 29>;
pub type PTE30 = PortPin<4, 30>;
pub type PTE31 = PortPin<4, 31>;

/// One token for every pin of the chip.
#[allow(non_snake_case)]
pub struct Pins {
    pub PTA0: PTA0,
    pub PTA1: PTA1,
    pub PTA2: PTA2,
    pub PTA3: PTA3,
    pub PTA4: PTA4,
    pub PTA5: PTA5,
    pub PTA6: PTA6,
    pub PTA7: PTA7,
    pub PTA8: PTA8,
    pub PTA9: PTA9,
    pub PTA10: PTA10,
    pub PTA11: PTA11,
    pub PTA12: PTA12,
    pub PTA13: PTA13,
    pub PTA14: PTA14,
    pub PTA15: PTA15,
    pub PTA16: PTA16,
    pub PTA17: PTA17,
    pub PTA18: PTA18,
    pub PTA19: PTA19,
    pub PTA20: PTA20,
    pub PTA21: PTA21,
    pub PTA22: PTA22,
    pub PTA23: PTA23,
    pub PTA24: PTA24,
    pub PTA25: PTA25,
    pub PTA26: PTA26,
    pub PTA27: PTA27,
    pub PTA28: PTA28,
    pub PTA29: PTA29,
    pub PTA30: PTA30,
    pub PTA31: PTA31,
    pub PTB0: PTB0,
    pub PTB1: PTB1,
    pub PTB2: PTB2,
    pub PTB3: PTB3,
    pub PTB4: PTB4,
    pub PTB5: PTB5,
    pub PTB6: PTB6,
    pub PTB7: PTB7,
    pub PTB8: PTB8,
    pub PTB9: PTB9,
    pub PTB10: PTB10,
    pub PTB11: PTB11,
    pub PTB12: PTB12,
    pub PTB13: PTB13,
    pub PTB14: PTB14,
    pub PTB15: PTB15,
    pub PTB16: PTB16,
    pub PTB17: PTB17,
    pub PTB18: PTB18,
    pub PTB19: PTB19,
    pub PTB20: PTB20,
    pub PTB21: PTB21,
    pub PTB22: PTB22,
    pub PTB23: PTB23,
    pub PTB24: PTB24,
    pub PTB25: PTB25,
    pub PTB26: PTB26,
    pub PTB27: PTB27,
    pub PTB28: PTB28,
    pub PTB29: PTB29,
    pub PTB30: PTB30,
    pub PTB31: PTB31,
    pub PTC0: PTC0,
    pub PTC1: PTC1,
    pub PTC2: PTC2,
    pub PTC3: PTC3,
    pub PTC4: PTC4,
    pub PTC5: PTC5,
    pub PTC6: PTC6,
    pub PTC7: PTC7,
    pub PTC8: PTC8,
    pub PTC9: PTC9,
    pub PTC10: PTC10,
    pub PTC11: PTC11,
    pub PTC12: PTC12,
    pub PTC13: PTC13,
    pub PTC14: PTC14,
    pub PTC15: PTC15,
    pub PTC16: PTC16,
    pub PTC17: PTC17,
    pub PTC18: PTC18,
    pub PTC19: PTC19,
    pub PTC20: PTC20,
    pub PTC21: PTC21,
    pub PTC22: PTC22,
    pub PTC23: PTC23,
    pub PTC24: PTC24,
    pub PTC25: PTC25,
    pub PTC26: PTC26,
    pub PTC27: PTC27,
    pub PTC28: PTC28,
    pub PTC29: PTC29,
    pub PTC30: PTC30,
    pub PTC31: PTC31,
    pub PTD0: PTD0,
    pub PTD1: PTD1,
    pub PTD2: PTD2,
    pub PTD3: PTD3,
    pub PTD4: PTD4,
    pub PTD5: PTD5,
    pub PTD6: PTD6,
    pub PTD7: PTD7,
    pub PTD8: PTD8,
    pub PTD9: PTD9,
    pub PTD10: PTD10,
    pub PTD11: PTD11,
    pub PTD12: PTD12,
    pub PTD13: PTD13,
    pub PTD14: PTD14,
    pub PTD15: PTD15,
    pub PTD16: PTD16,
    pub PTD17: PTD17,
    pub PTD18: PTD18,
    pub PTD19: PTD19,
    pub PTD20: PTD20,
    pub PTD21: PTD21,
    pub PTD22: PTD22,
    pub PTD23: PTD23,
    pub PTD24: PTD24,
    pub PTD25: PTD25,
    pub PTD26: PTD26,
    pub PTD27: PTD27,
    pub PTD28: PTD28,
    pub PTD29: PTD29,
    pub PTD30: PTD30,
    pub PTD31: PTD31,
    pub PTE0: PTE0,
    pub PTE1: PTE1,
    pub PTE2: PTE2,
    pub PTE3: PTE3,
    pub PTE4: PTE4,
    pub PTE5: PTE5,
    pub PTE6: PTE6,
    pub PTE7: PTE7,
    pub PTE8: PTE8,
    pub PTE9: PTE9,
    pub PTE10: PTE10,
    pub PTE11: PTE11,
    pub PTE12: PTE12,
    pub PTE13: PTE13,
    pub PTE14: PTE14,
    pub PTE15: PTE15,
    pub PTE16: PTE16,
    pub PTE17: PTE17,
    pub PTE18: PTE18,
    pub PTE19: PTE19,
    pub PTE20: PTE20,
    pub PTE21: PTE21,
    pub PTE22: PTE22,
    pub PTE23: PTE23,
    pub PTE24: PTE24,
    pub PTE25: PTE25,
    pub PTE26: PTE26,
    pub PTE27: PTE27,
    pub PTE28: PTE28,
    pub PTE29: PTE29,
    pub PTE30: PTE30,
    pub PTE31: PTE31,
}

impl Pins {
    pub(crate) fn new() -> Self {
        Pins {
            PTA0: PTA0 { _private: () },
            PTA1: PTA1 { _private: () },
            PTA2: PTA2 { _private: () },
            PTA3: PTA3 { _private: () },
            PTA4: PTA4 { _private: () },
            PTA5: PTA5 { _private: () },
            PTA6: PTA6 { _private: () },
            PTA7: PTA7 { _private: () },
            PTA8: PTA8 { _private: () },
            PTA9: PTA9 { _private: () },
            PTA10: PTA10 { _private: () },
            PTA11: PTA11 { _private: () },
            PTA12: PTA12 { _private: () },
            PTA13: PTA13 { _private: () },
            PTA14: PTA14 { _private: () },
            PTA15: PTA15 { _private: () },
            PTA16: PTA16 { _private: () },
            PTA17: PTA17 { _private: () },
            PTA18: PTA18 { _private: () },
            PTA19: PTA19 { _private: () },
            PTA20: PTA20 { _private: () },
            PTA21: PTA21 { _private: () },
            PTA22: PTA22 { _private: () },
            PTA23: PTA23 { _private: () },
            PTA24: PTA24 { _private: () },
            PTA25: PTA25 { _private: () },
            PTA26: PTA26 { _private: () },
            PTA27: PTA27 { _private: () },
            PTA28: PTA28 { _private: () },
            PTA29: PTA29 { _private: () },
            PTA30: PTA30 { _private: () },
            PTA31: PTA31 { _private: () },
            PTB0: PTB0 { _private: () },
            PTB1: PTB1 { _private: () },
            PTB2: PTB2 { _private: () },
            PTB3: PTB3 { _private: () },
            PTB4: PTB4 { _private: () },
            PTB5: PTB5 { _private: () },
            PTB6: PTB6 { _private: () },
            PTB7: PTB7 { _private: () },
            PTB8: PTB8 { _private: () },
            PTB9: PTB9 { _private: () },
            PTB10: PTB10 { _private: () },
            PTB11: PTB11 { _private: () },
            PTB12: PTB12 { _private: () },
            PTB13: PTB13 { _private: () },
            PTB14: PTB14 { _private: () },
            PTB15: PTB15 { _private: () },
            PTB16: PTB16 { _private: () },
            PTB17: PTB17 { _private: () },
            PTB18: PTB18 { _private: () },
            PTB19: PTB19 { _private: () },
            PTB20: PTB20 { _private: () },
            PTB21: PTB21 { _private: () },
            PTB22: PTB22 { _private: () },
            PTB23: PTB23 { _private: () },
            PTB24: PTB24 { _private: () },
            PTB25: PTB25 { _private: () },
            PTB26: PTB26 { _private: () },
            PTB27: PTB27 { _private: () },
            PTB28: PTB28 { _private: () },
            PTB29: PTB29 { _private: () },
            PTB30: PTB30 { _private: () },
            PTB31: PTB31 { _private: () },
            PTC0: PTC0 { _private: () },
            PTC1: PTC1 { _private: () },
            PTC2: PTC2 { _private: () },
            PTC3: PTC3 { _private: () },
            PTC4: PTC4 { _private: () },
            PTC5: PTC5 { _private: () },
            PTC6: PTC6 { _private: () },
            PTC7: PTC7 { _private: () },
            PTC8: PTC8 { _private: () },
            PTC9: PTC9 { _private: () },
            PTC10: PTC10 { _private: () },
            PTC11: PTC11 { _private: () },
            PTC12: PTC12 { _private: () },
            PTC13: PTC13 { _private: () },
            PTC14: PTC14 { _private: () },
            PTC15: PTC15 { _private: () },
            PTC16: PTC16 { _private: () },
            PTC17: PTC17 { _private: () },
            PTC18: PTC18 { _private: () },
            PTC19: PTC19 { _private: () },
            PTC20: PTC20 { _private: () },
            PTC21: PTC21 { _private: () },
            PTC22: PTC22 { _private: () },
            PTC23: PTC23 { _private: () },
            PTC24: PTC24 { _private: () },
            PTC25: PTC25 { _private: () },
            PTC26: PTC26 { _private: () },
            PTC27: PTC27 { _private: () },
            PTC28: PTC28 { _private: () },
            PTC29: PTC29 { _private: () },
            PTC30: PTC30 { _private: () },
            PTC31: PTC31 { _private: () },
            PTD0: PTD0 { _private: () },
            PTD1: PTD1 { _private: () },
            PTD2: PTD2 { _private: () },
            PTD3: PTD3 { _private: () },
            PTD4: PTD4 { _private: () },
            PTD5: PTD5 { _private: () },
            PTD6: PTD6 { _private: () },
            PTD7: PTD7 { _private: () },
            PTD8: PTD8 { _private: () },
            PTD9: PTD9 { _private: () },
            PTD10: PTD10 { _private: () },
            PTD11: PTD11 { _private: () },
            PTD12: PTD12 { _private: () },
            PTD13: PTD13 { _private: () },
            PTD14: PTD14 { _private: () },
            PTD15: PTD15 { _private: () },
            PTD16: PTD16 { _private: () },
            PTD17: PTD17 { _private: () },
            PTD18: PTD18 { _private: () },
            PTD19: PTD19 { _private: () },
            PTD20: PTD20 { _private: () },
            PTD21: PTD21 { _private: () },
            PTD22: PTD22 { _private: () },
            PTD23: PTD23 { _private: () },
            PTD24: PTD24 { _private: () },
            PTD25: PTD25 { _private: () },
            PTD26: PTD26 { _private: () },
            PTD27: PTD27 { _private: () },
            PTD28: PTD28 { _private: () },
            PTD29: PTD29 { _private: () },
            PTD30: PTD30 { _private: () },
            PTD31: PTD31 { _private: () },
            PTE0: PTE0 { _private: () },
            PTE1: PTE1 { _private: () },
            PTE2: PTE2 { _private: () },
            PTE3: PTE3 { _private: () },
            PTE4: PTE4 { _private: () },
            PTE5: PTE5 { _private: () },
            PTE6: PTE6 { _private: () },
            PTE7: PTE7 { _private: () },
            PTE8: PTE8 { _private: () },
            PTE9: PTE9 { _private: () },
            PTE10: PTE10 { _private: () },
            PTE11: PTE11 { _private: () },
            PTE12: PTE12 { _private: () },
            PTE13: PTE13 { _private: () },
            PTE14: PTE14 { _private: () },
            PTE15: PTE15 { _private: () },
            PTE16: PTE16 { _private: () },
            PTE17: PTE17 { _private: () },
            PTE18: PTE18 { _private: () },
            PTE19: PTE19 { _private: () },
            PTE20: PTE20 { _private: () },
            PTE21: PTE21 { _private: () },
            PTE22: PTE22 { _private: () },
            PTE23: PTE23 { _private: () },
            PTE24: PTE24 { _private: () },
            PTE25: PTE25 { _private: () },
            PTE26: PTE26 { _private: () },
            PTE27: PTE27 { _private: () },
            PTE28: PTE28 { _private: () },
            PTE29: PTE29 { _private: () },
            PTE30: PTE30 { _private: () },
            PTE31: PTE31 { _private: () },
        }
    }
}

/// Position of pin (`port`, `index`) in the pin multiplexer registers.
pub open spec fn pin_slot_of(port: nat, index: nat) -> int {
    (port * 32 + index) as int
}

/// The SCGC5 bit that gates the clock of `port`.
pub open spec fn port_gate(port: nat) -> u32 {
    if port == 0 {
        0x0200
    } else if port == 1 {
        0x0400
    } else if port == 2 {
        0x0800
    } else if port == 3 {
        0x1000
    } else {
        0x2000
    }
}

/// The register file with the clock of `port` switched on.
pub open spec fn with_port_clock(f: RegisterFile, port: nat) -> RegisterFile {
    RegisterFile { scgc5: f.scgc5 | port_gate(port), ..f }
}

/// Switches on the clock of the port that `pin` belongs to.
pub fn enable_port_clock<P: Pin>(regs: &mut Registers, pin: &P)
    requires
        old(regs).wf(),
    ensures
        final(regs).wf(),
        final(regs)@ == with_port_clock(old(regs)@, P::port()),
        final(regs).log@ == old(regs).log@.push(
            wr(Reg::SimScgc5, old(regs).scgc5 | port_gate(P::port())),
        ),
{
    let (port, _index) = pin.location();
    let gate: u32 = if port == 0 {
        0x0200
    } else if port == 1 {
        0x0400
    } else if port == 2 {
        0x0800
    } else if port == 3 {
        0x1000
    } else {
        0x2000
    };
    regs.scgc5 = regs.scgc5 | gate;
    regs.record(Reg::SimScgc5, regs.scgc5);
}

} // verus!
