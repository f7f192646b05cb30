use vstd::prelude::*;

verus! {

/// Number of DMA channels.
pub const DMA_CHANNELS: usize = 4;

/// Number of SPI instances.
pub const SPI_INSTANCES: usize = 2;

/// Number of GPIO ports (A to E).
pub const PORTS: usize = 5;

/// Number of pins in each port.
pub const PINS_PER_PORT: u32 = 32;

/// Number of timer (TPM) instances.
pub const TIMERS: usize = 3;

/// Channel slots kept for each timer; TPM0 has six channels, TPM1 and TPM2 two.
pub const TIMER_CHANNEL_SLOTS: usize = 6;

/// Registers of one DMA channel.
#[derive(Clone, Copy, Debug, PartialEq, Eq, Structural)]
pub struct DmaChannelRegs {
    /// Source address register (SAR).
    pub sar: u32,
    /// Destination address register (DAR).
    pub dar: u32,
    /// Byte count field of DSR_BCR.
    pub bcr: u16,
    /// DONE status bit of DSR_BCR; hardware sets it when the transfer ends.
    pub done: bool,
    /// Control register (DCR).
    pub dcr: u32,
}

/// Registers of one SPI instance.
#[derive(Clone, Copy, Debug, PartialEq, Eq, Structural)]
pub struct SpiRegs {
    /// Control register 1.
    pub c1: u8,
    /// Control register 2.
    pub c2: u8,
    /// Baud rate register.
    pub br: u8,
}

/// Registers of one GPIO port.
#[derive(Clone, Copy, Debug, PartialEq, Eq, Structural)]
pub struct GpioRegs {
    /// Data direction: a set bit makes the pin an output.
    pub pddr: u32,
    /// Output levels (PDOR), changed through the set and clear registers.
    pub pdor: u32,
    /// Input levels (PDIR), as last sampled from the pins.
    pub pdir: u32,
}

/// Status/control and modulo registers of one timer.
#[derive(Clone, Copy, Debug, PartialEq, Eq, Structural)]
pub struct TpmRegs {
    /// Status and control register (SC).
    pub sc: u32,
    /// Counter modulo (MOD).
    pub modulo: u16,
}

/// Registers of one timer channel.
#[derive(Clone, Copy, Debug, PartialEq, Eq, Structural)]
pub struct TpmChannelRegs {
    /// Channel status and control (CnSC).
    pub csc: u32,
    /// Channel value (CnV): the compare value that sets the duty cycle.
    pub cv: u16,
}

pub open spec fn dma_reset() -> DmaChannelRegs {
    DmaChannelRegs { sar: 0, dar: 0, bcr: 0, done: false, dcr: 0 }
}

pub open spec fn spi_reset() -> SpiRegs {
    SpiRegs { c1: 0x04, c2: 0, br: 0 }
}

pub open spec fn gpio_reset() -> GpioRegs {
    GpioRegs { pddr: 0, pdor: 0, pdir: 0 }
}

pub open spec fn tpm_reset() -> TpmRegs {
    TpmRegs { sc: 0, modulo: 0xFFFF }
}

pub open spec fn tpm_channel_reset() -> TpmChannelRegs {
    TpmChannelRegs { csc: 0, cv: 0 }
}

/// A register the drivers write, with the instance, channel or pin slot
/// it belongs to.
#[derive(Clone, Copy, Debug, PartialEq, Eq, Structural)]
pub enum Reg {
    /// DMA channel source address (SAR).
    DmaSar(usize),
    /// DMA channel destination address (DAR).
    DmaDar(usize),
    /// DMA channel status (DSR): writing DONE clears the channel's status.
    DmaDsr(usize),
    /// DMA channel byte count (BCR).
    DmaBcr(usize),
    /// DMA channel control (DCR).
    DmaDcr(usize),
    /// DMAMUX channel configuration (CHCFG).
    DmamuxChcfg(usize),
    /// SPI control register 1.
    SpiC1(usize),
    /// SPI control register 2.
    SpiC2(usize),
    /// SPI baud rate register.
    SpiBr(usize),
    /// SIM system options 2 (clock sources).
    SimSopt2,
    /// SIM computer operating properly (watchdog) control.
    SimCopc,
    /// SIM clock gate 4.
    SimScgc4,
    /// SIM clock gate 5.
    SimScgc5,
    /// SIM clock gate 6.
    SimScgc6,
    /// MUX field of a pin's control register, at `port * 32 + index`.
    PortPcrMux(usize),
    /// GPIO data direction.
    GpioPddr(usize),
    /// GPIO set output bits.
    GpioPsor(usize),
    /// GPIO clear output bits.
    GpioPcor(usize),
    /// Timer status and control.
    TpmSc(usize),
    /// Timer modulo.
    TpmMod(usize),
    /// Timer channel status and control, at `timer * 6 + channel`.
    TpmCnsc(usize),
    /// Timer channel value, at `timer * 6 + channel`.
    TpmCnv(usize),
    /// A clock generator (MCG) register, by its offset.
    Mcg(usize),
}

/// One register write: the register and the value written.
#[derive(Clone, Copy, Debug, PartialEq, Eq, Structural)]
pub struct RegWrite {
    pub reg: Reg,
    pub value: u32,
}

pub open spec fn wr(reg: Reg, value: u32) -> RegWrite {
    RegWrite { reg, value }
}

/// The peripheral register image that the drivers of this crate program,
/// with the log of the writes that produced it, in the order they are made.
pub struct Registers {
    /// Every register write made, oldest first. Firmware applies these to
    /// the device in this order.
    pub log: Vec<RegWrite>,
    /// DMA channels 0 to 3.
    pub dma: Vec<DmaChannelRegs>,
    /// DMAMUX channel configuration (CHCFG) for DMA channels 0 to 3.
    pub dmamux: Vec<u8>,
    /// SPI0 and SPI1.
    pub spi: Vec<SpiRegs>,
    /// MCG status register (S), as last read from the clock generator.
    pub mcg_s: u8,
    /// SIM clock gate 4 (SPI).
    pub scgc4: u32,
    /// SIM clock gate 5 (ports).
    pub scgc5: u32,
    /// SIM clock gate 6 (DMAMUX, timers).
    pub scgc6: u32,
    /// MUX field of each pin's control register, at `port * 32 + index`.
    pub pin_mux: Vec<u8>,
    /// GPIO ports A to E.
    pub gpio: Vec<GpioRegs>,
    /// TPM0 to TPM2.
    pub tpm: Vec<TpmRegs>,
    /// Timer channels, at `timer * 6 + channel`.
    pub tpm_channels: Vec<TpmChannelRegs>,
}

/// The register image as a value, for stating what an operation changes.
pub struct RegisterFile {
    pub dma: Seq<DmaChannelRegs>,
    pub dmamux: Seq<u8>,
    pub spi: Seq<SpiRegs>,
    pub mcg_s: u8,
    pub scgc4: u32,
    pub scgc5: u32,
    pub scgc6: u32,
    pub pin_mux: Seq<u8>,
    pub gpio: Seq<GpioRegs>,
    pub tpm: Seq<TpmRegs>,
    pub tpm_channels: Seq<TpmChannelRegs>,
}

impl View for Registers {
    type V = RegisterFile;

    open spec fn view(&self) -> RegisterFile {
        RegisterFile {
            dma: self.dma@,
            dmamux: self.dmamux@,
            spi: self.spi@,
            mcg_s: self.mcg_s,
            scgc4: self.scgc4,
            scgc5: self.scgc5,
            scgc6: self.scgc6,
            pin_mux: self.pin_mux@,
            gpio: self.gpio@,
            tpm: self.tpm@,
            tpm_channels: self.tpm_channels@,
        }
    }
}

impl Registers {
    /// Appends a write to the log; the caller updates the image.
    pub(crate) fn record(&mut self, reg: Reg, value: u32)
        ensures
            final(self)@ == old(self)@,
            final(self).wf() == old(self).wf(),
            final(self).log@ == old(self).log@.push(wr(reg, value)),
    {
        self.log.push(RegWrite { reg, value });
    }
}

fn repeat<T: Copy>(value: T, n: usize) -> (r: Vec<T>)
    ensures
        r@.len() == n,
        forall|i: int| 0 <= i < n ==> r@[i] == value,
{
    let mut v: Vec<T> = Vec::new();
    let mut i: usize = 0;
    while i < n
        invariant
            i <= n,
            v@.len() == i,
            forall|j: int| 0 <= j < i ==> v@[j] == value,
        decreases n - i,
    {
        v.push(value);
        i = i + 1;
    }
    v
}

impl Registers {
    /// One entry for each hardware instance.
    pub open spec fn wf(&self) -> bool {
        &&& self.dma@.len() == DMA_CHANNELS
        &&& self.dmamux@.len() == DMA_CHANNELS
        &&& self.spi@.len() == SPI_INSTANCES
        &&& self.pin_mux@.len() == PORTS * PINS_PER_PORT
        &&& self.gpio@.len() == PORTS
        &&& self.tpm@.len() == TIMERS
        &&& self.tpm_channels@.len() == TIMERS * TIMER_CHANNEL_SLOTS
    }

    /// All registers at their reset values.
    pub fn new() -> (r: Registers)
        ensures
            r.wf(),
            r.log@ == Seq::<RegWrite>::empty(),
            forall|i: int| 0 <= i < DMA_CHANNELS ==> r.dma@[i] == dma_reset(),
            forall|i: int| 0 <= i < DMA_CHANNELS ==> r.dmamux@[i] == 0,
            forall|i: int| 0 <= i < SPI_INSTANCES ==> r.spi@[i] == spi_reset(),
            r.scgc4 == 0 && r.scgc5 == 0 && r.scgc6 == 0 && r.mcg_s == 0,
            forall|i: int| 0 <= i < PORTS * PINS_PER_PORT ==> r.pin_mux@[i] == 0,
            forall|i: int| 0 <= i < PORTS ==> r.gpio@[i] == gpio_reset(),
            forall|i: int| 0 <= i < TIMERS ==> r.tpm@[i] == tpm_reset(),
            forall|i: int|
                0 <= i < TIMERS * TIMER_CHANNEL_SLOTS ==> r.tpm_channels@[i] == tpm_channel_reset(),
    {
        Registers {
            log: Vec::new(),
            dma: repeat(DmaChannelRegs { sar: 0, dar: 0, bcr: 0, done: false, dcr: 0 }, DMA_CHANNELS),
            dmamux: repeat(0u8, DMA_CHANNELS),
            spi: repeat(SpiRegs { c1: 0x04, c2: 0, br: 0 }, SPI_INSTANCES),
            mcg_s: 0,
            scgc4: 0,
            scgc5: 0,
            scgc6: 0,
            pin_mux: repeat(0u8, PORTS * (PINS_PER_PORT as usize)),
            gpio: repeat(GpioRegs { pddr: 0, pdor: 0, pdir: 0 }, PORTS),
            tpm: repeat(TpmRegs { sc: 0, modulo: 0xFFFF }, TIMERS),
            tpm_channels: repeat(TpmChannelRegs { csc: 0, cv: 0 }, TIMERS * TIMER_CHANNEL_SLOTS),
        }
    }
}

} // verus!
