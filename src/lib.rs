//! Hardware abstraction for the FRDM-KL25Z board: move-only resource tokens,
//! a DMA channel driver, a DMA-paced SPI master, GPIO and timer PWM, and the
//! protocol of the MC33HB2001 H-bridge driver that sits on the SPI bus.
//!
//! Every driver operation is stated against [`registers::Registers`], the
//! image of the peripheral registers that the drivers program together with
//! the ordered log of the writes that produced it: each operation's contract
//! gives both the resulting image and the exact sequence of writes. Firmware
//! applies the log to the device in order and reports hardware status (DMA
//! DONE flags, clock generator status, input levels) back into the image;
//! waits on that status are steps of their own.

mod sealed;
pub mod registers;
pub mod clock;
pub mod dma;
pub mod pins;
pub mod mux;
pub mod gpio;
pub mod spi;
pub mod tpm;
pub mod mc33hb2001;

use vstd::prelude::*;

verus! {

/// The complete set of resource tokens of the board: every pin, timer, DMA
/// channel and SPI instance, one token each.
pub struct Peripherals {
    pub pins: pins::Pins,
    pub tpm0: tpm::Tpm0,
    pub tpm1: tpm::Tpm1,
    pub tpm2: tpm::Tpm2,
    pub dma0: dma::Dma0,
    pub dma1: dma::Dma1,
    pub dma2: dma::Dma2,
    pub dma3: dma::Dma3,
    pub spi0: spi::Spi0,
    pub spi1: spi::Spi1,
    clocks: clock::ClockSetup,
}

impl Peripherals {
    /// The finished clock bring-up that the set was made from.
    pub closed spec fn clocks(&self) -> clock::ClockSetup {
        self.clocks
    }

    /// Makes the set of tokens that represent this board, from a finished
    /// clock bring-up: the tokens exist only once the watchdog is off, the
    /// PLL is locked and clocks the system, and the timers run from it.
    ///
    /// Call it once per program run, at boot: a second set would hand out a
    /// second owner of every register, which the tokens exist to rule out.
    pub fn steal(clocks: clock::ClockSetup) -> (r: Self)
        requires
            clocks.is_done(),
        ensures
            r.clocks() == clocks,
            r.clocks().is_done(),
    {
        Peripherals {
            clocks,
            pins: pins::Pins::new(),
            tpm0: tpm::Tpm0::new(),
            tpm1: tpm::Tpm1::new(),
            tpm2: tpm::Tpm2::new(),
            dma0: dma::Dma0::new(),
            dma1: dma::Dma1::new(),
            dma2: dma::Dma2::new(),
            dma3: dma::Dma3::new(),
            spi0: spi::Spi0::new(),
            spi1: spi::Spi1::new(),
        }
    }
}

} // verus!
