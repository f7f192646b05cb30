use vstd::prelude::*;

use crate::dma::{
    poll_dma_transfer, program_writes, programmed, setup_dma_transfer, with_channel, with_done_cleared, Dma,
    DSR_DONE,
    DmaBuffer, DmaConfig,
};
use crate::mux::{mux_field, set_alternate, with_alternate, Alternate};
use crate::pins::{enable_port_clock, pin_slot_of, port_gate, with_port_clock, Pin, PTA15, PTA16, PTA17, PTB11, PTB16, PTB17, PTC5, PTC6, PTC7, PTD1, PTD2, PTD3, PTD5, PTD6, PTD7, PTE1, PTE2, PTE3};
use crate::sealed::Sealed;
use crate::registers::{wr, Reg, RegWrite, RegisterFile, Registers, SpiRegs, DMA_CHANNELS};

verus! {

/// An SPI peripheral token.
pub trait Spi: Sealed {
    /// The instance number.
    spec fn instance() -> nat;

    /// The instance number, at run time.
    fn index() -> (r: usize)
        ensures
            r == Self::instance(),
            r < 2,
    ;

    /// The DMAMUX source slot of the instance's receive-full request.
    fn rx_slot() -> (r: u8)
        ensures
            r == rx_slot_of(Self::instance()),
    ;

    /// The DMAMUX source slot of the instance's transmit-empty request.
    fn tx_slot() -> (r: u8)
        ensures
            r == tx_slot_of(Self::instance()),
    ;

    /// The address of the instance's data register.
    fn data_address() -> (r: u32)
        ensures
            r == data_register(Self::instance()),
    ;
}

pub open spec fn rx_slot_of(instance: nat) -> u8 {
    if instance == 0 {
        16
    } else {
        18
    }
}

pub open spec fn tx_slot_of(instance: nat) -> u8 {
    if instance == 0 {
        17
    } else {
        19
    }
}

pub open spec fn data_register(instance: nat) -> u32 {
    if instance == 0 {
        0x4007_6005
    } else {
        0x4007_7005
    }
}

/// The SCGC4 bit that gates the clock of SPI `instance`.
pub open spec fn spi_gate(instance: nat) -> u32 {
    if instance == 0 {
        0x0040_0000
    } else {
        0x0080_0000
    }
}

/// SCGC6 bit that gates the DMAMUX clock.
pub const SCGC6_DMAMUX: u32 = 0x0000_0002;
/// Baud rate register: prescaler 1, divider 16.
pub const BR_DIVIDER: u8 = 0x03;
/// C1: SPI enabled (SPE), master (MSTR), clock phase at its reset value (CPHA).
pub const C1_MASTER: u8 = 0x54;
/// C2: DMA requests on receive-full (RXDMAE) and transmit-empty (TXDMAE).
pub const C2_DMA: u8 = 0x24;
/// DMAMUX CHCFG: channel enable.
pub const CHCFG_ENBL: u8 = 0x80;

/// Token for SPI0.
pub struct Spi0 {
    _private: (),
}

/// Token for SPI1.
pub struct Spi1 {
    _private: (),
}

impl Spi0 {
    pub(crate) fn new() -> Self {
        Spi0 { _private: () }
    }
}

impl Spi1 {
    pub(crate) fn new() -> Self {
        Spi1 { _private: () }
    }
}

impl Sealed for Spi0 {}

impl Spi for Spi0 {
    open spec fn instance() -> nat {
        0
    }

    fn index() -> (r: usize) {
        0
    }

    fn rx_slot() -> (r: u8) {
        16
    }

    fn tx_slot() -> (r: u8) {
        17
    }

    fn data_address() -> (r: u32) {
        0x4007_6005
    }
}

impl Sealed for Spi1 {}

impl Spi for Spi1 {
    open spec fn instance() -> nat {
        1
    }

    fn index() -> (r: usize) {
        1
    }

    fn rx_slot() -> (r: u8) {
        18
    }

    fn tx_slot() -> (r: u8) {
        19
    }

    fn data_address() -> (r: u32) {
        0x4007_7005
    }
}

/// A pin that can carry the MOSI signal of SPI `S`.
pub trait MosiPin<S> {
    spec fn mosi_alternate() -> Alternate;

    fn mosi_alt() -> (r: Alternate)
        ensures
            r == Self::mosi_alternate(),
    ;
}

/// A pin that can carry the MISO signal of SPI `S`.
pub trait MisoPin<S> {
    spec fn miso_alternate() -> Alternate;

    fn miso_alt() -> (r: Alternate)
        ensures
            r == Self::miso_alternate(),
    ;
}

/// A pin that can carry the clock signal of SPI `S`.
pub trait SckPin<S> {
    spec fn sck_alternate() -> Alternate;

    fn sck_alt() -> (r: Alternate)
        ensures
            r == Self::sck_alternate(),
    ;
}

impl MosiPin<Spi1> for PTE1 {
    open spec fn mosi_alternate() -> Alternate {
        Alternate::Alt2
    }

    fn mosi_alt() -> (r: Alternate) {
        Alternate::Alt2
    }
}

impl MisoPin<Spi1> for PTE1 {
    open spec fn miso_alternate() -> Alternate {
        Alternate::Alt5
    }

    fn miso_alt() -> (r: Alternate) {
        Alternate::Alt5
    }
}

impl SckPin<Spi1> for PTE2 {
    open spec fn sck_alternate() -> Alternate {
        Alternate::Alt2
    }

    fn sck_alt() -> (r: Alternate) {
        Alternate::Alt2
    }
}

impl MisoPin<Spi1> for PTE3 {
    open spec fn miso_alternate() -> Alternate {
        Alternate::Alt2
    }

    fn miso_alt() -> (r: Alternate) {
        Alternate::Alt2
    }
}

impl MosiPin<Spi1> for PTE3 {
    open spec fn mosi_alternate() -> Alternate {
        Alternate::Alt5
    }

    fn mosi_alt() -> (r: Alternate) {
        Alternate::Alt5
    }
}

impl SckPin<Spi0> for PTA15 {
    open spec fn sck_alternate() -> Alternate {
        Alternate::Alt2
    }

    fn sck_alt() -> (r: Alternate) {
        Alternate::Alt2
    }
}

impl MosiPin<Spi0> for PTA16 {
    open spec fn mosi_alternate() -> Alternate {
        Alternate::Alt2
    }

    fn mosi_alt() -> (r: Alternate) {
        Alternate::Alt2
    }
}

impl MisoPin<Spi0> for PTA16 {
    open spec fn miso_alternate() -> Alternate {
        Alternate::Alt5
    }

    fn miso_alt() -> (r: Alternate) {
        Alternate::Alt5
    }
}

impl MisoPin<Spi0> for PTA17 {
    open spec fn miso_alternate() -> Alternate {
        Alternate::Alt2
    }

    fn miso_alt() -> (r: Alternate) {
        Alternate::Alt2
    }
}

impl MosiPin<Spi0> for PTA17 {
    open spec fn mosi_alternate() -> Alternate {
        Alternate::Alt5
    }

    fn mosi_alt() -> (r: Alternate) {
        Alternate::Alt5
    }
}

impl SckPin<Spi1> for PTB11 {
    open spec fn sck_alternate() -> Alternate {
        Alternate::Alt2
    }

    fn sck_alt() -> (r: Alternate) {
        Alternate::Alt2
    }
}

impl MosiPin<Spi1> for PTB16 {
    open spec fn mosi_alternate() -> Alternate {
        Alternate::Alt2
    }

    fn mosi_alt() -> (r: Alternate) {
        Alternate::Alt2
    }
}

impl MisoPin<Spi1> for PTB16 {
    open spec fn miso_alternate() -> Alternate {
        Alternate::Alt5
    }

    fn miso_alt() -> (r: Alternate) {
        Alternate::Alt5
    }
}

impl MisoPin<Spi1> for PTB17 {
    open spec fn miso_alternate() -> Alternate {
        Alternate::Alt2
    }

    fn miso_alt() -> (r: Alternate) {
        Alternate::Alt2
    }
}

impl MosiPin<Spi1> for PTB17 {
    open spec fn mosi_alternate() -> Alternate {
        Alternate::Alt5
    }

    fn mosi_alt() -> (r: Alternate) {
        Alternate::Alt5
    }
}

impl SckPin<Spi0> for PTC5 {
    open spec fn sck_alternate() -> Alternate {
        Alternate::Alt2
    }

    fn sck_alt() -> (r: Alternate) {
        Alternate::Alt2
    }
}

impl MosiPin<Spi0> for PTC6 {
    open spec fn mosi_alternate() -> Alternate {
        Alternate::Alt2
    }

    fn mosi_alt() -> (r: Alternate) {
        Alternate::Alt2
    }
}

impl MisoPin<Spi0> for PTC6 {
    open spec fn miso_alternate() -> Alternate {
        Alternate::Alt5
    }

    fn miso_alt() -> (r: Alternate) {
        Alternate::Alt5
    }
}

impl MisoPin<Spi0> for PTC7 {
    open spec fn miso_alternate() -> Alternate {
        Alternate::Alt2
    }

    fn miso_alt() -> (r: Alternate) {
        Alternate::Alt2
    }
}

impl MosiPin<Spi0> for PTC7 {
    open spec fn mosi_alternate() -> Alternate {
        Alternate::Alt5
    }

    fn mosi_alt() -> (r: Alternate) {
        Alternate::Alt5
    }
}

impl SckPin<Spi0> for PTD1 {
    open spec fn sck_alternate() -> Alternate {
        Alternate::Alt2
    }

    fn sck_alt() -> (r: Alternate) {
        Alternate::Alt2
    }
}

impl MosiPin<Spi0> for PTD2 {
    open spec fn mosi_alternate() -> Alternate {
        Alternate::Alt2
    }

    fn mosi_alt() -> (r: Alternate) {
        Alternate::Alt2
    }
}

impl MisoPin<Spi0> for PTD2 {
    open spec fn miso_alternate() -> Alternate {
        Alternate::Alt5
    }

    fn miso_alt() -> (r: Alternate) {
        Alternate::Alt5
    }
}

impl MisoPin<Spi0> for PTD3 {
    open spec fn miso_alternate() -> Alternate {
        Alternate::Alt2
    }

    fn miso_alt() -> (r: Alternate) {
        Alternate::Alt2
    }
}

impl MosiPin<Spi0> for PTD3 {
    open spec fn mosi_alternate() -> Alternate {
        Alternate::Alt5
    }

    fn mosi_alt() -> (r: Alternate) {
        Alternate::Alt5
    }
}

impl SckPin<Spi1> for PTD5 {
    open spec fn sck_alternate() -> Alternate {
        Alternate::Alt2
    }

    fn sck_alt() -> (r: Alternate) {
        Alternate::Alt2
    }
}

impl MosiPin<Spi1> for PTD6 {
    open spec fn mosi_alternate() -> Alternate {
        Alternate::Alt2
    }

    fn mosi_alt() -> (r: Alternate) {
        Alternate::Alt2
    }
}

impl MisoPin<Spi1> for PTD6 {
    open spec fn miso_alternate() -> Alternate {
        Alternate::Alt5
    }

    fn miso_alt() -> (r: Alternate) {
        Alternate::Alt5
    }
}

impl MisoPin<Spi1> for PTD7 {
    open spec fn miso_alternate() -> Alternate {
        Alternate::Alt2
    }

    fn miso_alt() -> (r: Alternate) {
        Alternate::Alt2
    }
}

impl MosiPin<Spi1> for PTD7 {
    open spec fn mosi_alternate() -> Alternate {
        Alternate::Alt5
    }

    fn mosi_alt() -> (r: Alternate) {
        Alternate::Alt5
    }
}

/// The register file after the pins of an SPI master are routed: port clocks
/// on for the clock, MISO and MOSI pins, then each pin's multiplexer set.
pub open spec fn pins_routed<SCK: Pin + SckPin<S>, MOSI: Pin + MosiPin<S>, MISO: Pin + MisoPin<S>, S>(
    f: RegisterFile,
) -> RegisterFile {
    let clocked = with_port_clock(
        with_port_clock(with_port_clock(f, SCK::port()), MISO::port()),
        MOSI::port(),
    );
    with_alternate(
        with_alternate(
            with_alternate(clocked, SCK::port(), SCK::pin(), SCK::sck_alternate()),
            MISO::port(),
            MISO::pin(),
            MISO::miso_alternate(),
        ),
        MOSI::port(),
        MOSI::pin(),
        MOSI::mosi_alternate(),
    )
}

/// The register file after an SPI master is set up on SPI `s` with DMA
/// channels `tx` and `rx`, starting from `f` with the pins already routed:
/// SPI clock on, baud rate set, DMAMUX clock on, the two channels routed to
/// the instance's transmit and receive requests and enabled, and the SPI
/// enabled as master.
pub open spec fn master_enabled(f: RegisterFile, s: nat, tx: nat, rx: nat) -> RegisterFile {
    RegisterFile {
        scgc4: f.scgc4 | spi_gate(s),
        scgc6: f.scgc6 | SCGC6_DMAMUX,
        dmamux: f.dmamux.update(tx as int, CHCFG_ENBL | tx_slot_of(s)).update(
            rx as int,
            CHCFG_ENBL | rx_slot_of(s),
        ),
        spi: f.spi.update(s as int, SpiRegs { c1: C1_MASTER, br: BR_DIVIDER, ..f.spi[s as int] }),
        ..f
    }
}

/// The writes that set up an SPI master on SPI `s` with DMA channels `tx`
/// and `rx`, starting from `f`, in order: the three port clocks before any
/// pin multiplexer, the three multiplexers, the SPI clock and baud rate,
/// the DMAMUX clock, both DMAMUX slots reset, routed and enabled, and the
/// SPI enabled as master last.
pub open spec fn master_writes<SCK: Pin + SckPin<S>, MOSI: Pin + MosiPin<S>, MISO: Pin + MisoPin<S>, S>(
    f: RegisterFile,
    s: nat,
    tx: nat,
    rx: nat,
) -> Seq<RegWrite> {
    let g1 = f.scgc5 | port_gate(SCK::port());
    let g2 = g1 | port_gate(MISO::port());
    let g3 = g2 | port_gate(MOSI::port());
    seq![
        wr(Reg::SimScgc5, g1),
        wr(Reg::SimScgc5, g2),
        wr(Reg::SimScgc5, g3),
        wr(Reg::PortPcrMux(pin_slot_of(SCK::port(), SCK::pin()) as usize), mux_field(SCK::sck_alternate()) as u32),
        wr(Reg::PortPcrMux(pin_slot_of(MISO::port(), MISO::pin()) as usize), mux_field(MISO::miso_alternate()) as u32),
        wr(Reg::PortPcrMux(pin_slot_of(MOSI::port(), MOSI::pin()) as usize), mux_field(MOSI::mosi_alternate()) as u32),
        wr(Reg::SimScgc4, f.scgc4 | spi_gate(s)),
        wr(Reg::SpiBr(s as usize), BR_DIVIDER as u32),
        wr(Reg::SimScgc6, f.scgc6 | SCGC6_DMAMUX),
        wr(Reg::DmamuxChcfg(tx as usize), 0),
        wr(Reg::DmamuxChcfg(rx as usize), 0),
        wr(Reg::DmamuxChcfg(tx as usize), tx_slot_of(s) as u32),
        wr(Reg::DmamuxChcfg(rx as usize), rx_slot_of(s) as u32),
        wr(Reg::DmamuxChcfg(tx as usize), (tx_slot_of(s) | CHCFG_ENBL) as u32),
        wr(Reg::DmamuxChcfg(rx as usize), (rx_slot_of(s) | CHCFG_ENBL) as u32),
        wr(Reg::SpiC1(s as usize), C1_MASTER as u32),
    ]
}

/// How the transmit channel of SPI `s` is programmed to send `write`.
pub open spec fn tx_config(s: nat, write: DmaBuffer) -> DmaConfig {
    DmaConfig {
        source: write.address,
        dest: data_register(s),
        len: write.len,
        inc_source: true,
        inc_dest: false,
        start: false,
        auto_request: true,
    }
}

/// How the receive channel of SPI `s` is programmed to fill `read`.
pub open spec fn rx_config(s: nat, read: DmaBuffer) -> DmaConfig {
    DmaConfig {
        source: data_register(s),
        dest: read.address,
        len: read.len,
        inc_source: false,
        inc_dest: true,
        start: false,
        auto_request: true,
    }
}

/// How the transmit channel of SPI `s` is programmed to send the byte at
/// `fill`, `len` times, while words are read.
pub open spec fn fill_config(s: nat, fill: u32, len: u16) -> DmaConfig {
    DmaConfig {
        source: fill,
        dest: data_register(s),
        len,
        inc_source: false,
        inc_dest: false,
        start: false,
        auto_request: true,
    }
}

/// How the receive channel of SPI `s` is programmed to drain `len` bytes into
/// the byte at `sink` while words are written.
pub open spec fn discard_config(s: nat, sink: u32, len: u16) -> DmaConfig {
    DmaConfig {
        source: data_register(s),
        dest: sink,
        len,
        inc_source: false,
        inc_dest: false,
        start: false,
        auto_request: true,
    }
}

/// The register file once a transfer is armed with channel configurations
/// `txc` and `rxc`: both channels programmed in peripheral-request mode and
/// DMA requests enabled in the SPI.
pub open spec fn armed(f: RegisterFile, s: nat, tx: nat, rx: nat, txc: DmaConfig, rxc: DmaConfig) -> RegisterFile {
    let g = with_channel(with_channel(f, tx as int, programmed(txc)), rx as int, programmed(rxc));
    RegisterFile { spi: g.spi.update(s as int, SpiRegs { c2: C2_DMA, ..g.spi[s as int] }), ..g }
}

/// The writes that arm a transfer, in order: the transmit channel, the
/// receive channel, and only then the SPI's DMA request enables.
pub open spec fn arm_writes(s: nat, tx: nat, rx: nat, txc: DmaConfig, rxc: DmaConfig) -> Seq<RegWrite> {
    program_writes(tx, txc) + program_writes(rx, rxc) + seq![wr(Reg::SpiC2(s as usize), C2_DMA as u32)]
}

/// The register file once a full-duplex transfer of `write` out and `read`
/// in is armed.
pub open spec fn transfer_armed(
    f: RegisterFile,
    s: nat,
    tx: nat,
    rx: nat,
    read: DmaBuffer,
    write: DmaBuffer,
) -> RegisterFile {
    armed(f, s, tx, rx, tx_config(s, write), rx_config(s, read))
}

/// The writes that arm a full-duplex transfer of `write` out and `read` in.
pub open spec fn transfer_writes(s: nat, tx: nat, rx: nat, read: DmaBuffer, write: DmaBuffer) -> Seq<RegWrite> {
    arm_writes(s, tx, rx, tx_config(s, write), rx_config(s, read))
}

/// A transfer whose read and write buffers differ in length: the shorter
/// side would leave the longer side's channel without the SPI requests that
/// pace it.
#[derive(Clone, Copy, Debug, PartialEq, Eq, Structural)]
pub struct LengthMismatch {
    /// Length of the read buffer.
    pub read: u16,
    /// Length of the write buffer.
    pub write: u16,
}

/// The write that clears channel `ch`'s DONE flag, when `clear`.
pub open spec fn clear_writes(ch: nat, clear: bool) -> Seq<RegWrite> {
    if clear {
        seq![wr(Reg::DmaDsr(ch as usize), DSR_DONE)]
    } else {
        Seq::empty()
    }
}

/// The register file with channel `ch`'s DONE flag cleared when `clear`.
pub open spec fn clear_if(f: RegisterFile, ch: nat, clear: bool) -> RegisterFile {
    if clear {
        with_done_cleared(f, ch as int)
    } else {
        f
    }
}

/// The register file after a run of polls: poll `k` cleared the transmit
/// channel's DONE flag when `clears[k].0` and the receive channel's when
/// `clears[k].1`.
pub open spec fn after_polls(f: RegisterFile, tx: nat, rx: nat, clears: Seq<(bool, bool)>) -> RegisterFile
    decreases clears.len(),
{
    if clears.len() == 0 {
        f
    } else {
        let last = clears.last();
        clear_if(clear_if(after_polls(f, tx, rx, clears.drop_last()), tx, last.0), rx, last.1)
    }
}

/// However many polls a transfer takes to complete, its transmit channel
/// still holds the write buffer's address and length, and its receive
/// channel the read buffer's.
pub proof fn lemma_transfer_keeps_buffers(
    f: RegisterFile,
    s: nat,
    tx: nat,
    rx: nat,
    read: DmaBuffer,
    write: DmaBuffer,
    clears: Seq<(bool, bool)>,
)
    requires
        tx != rx,
        tx < f.dma.len(),
        rx < f.dma.len(),
        s < f.spi.len(),
    ensures
        after_polls(transfer_armed(f, s, tx, rx, read, write), tx, rx, clears).dma.len() == f.dma.len(),
        after_polls(transfer_armed(f, s, tx, rx, read, write), tx, rx, clears).dma[tx as int].sar
            == write.address,
        after_polls(transfer_armed(f, s, tx, rx, read, write), tx, rx, clears).dma[tx as int].bcr
            == write.len,
        after_polls(transfer_armed(f, s, tx, rx, read, write), tx, rx, clears).dma[rx as int].dar
            == read.address,
        after_polls(transfer_armed(f, s, tx, rx, read, write), tx, rx, clears).dma[rx as int].bcr
            == read.len,
    decreases clears.len(),
{
    if clears.len() > 0 {
        lemma_transfer_keeps_buffers(f, s, tx, rx, read, write, clears.drop_last());
    }
}

/// Progress of a full-duplex transfer: which of its two channels has been
/// seen complete.
#[derive(Clone, Copy, Debug, PartialEq, Eq, Structural)]
pub struct Transfer {
    /// The transmit channel's completion has been observed.
    pub tx_done: bool,
    /// The receive channel's completion has been observed.
    pub rx_done: bool,
}

impl Transfer {
    /// Both channels observed complete.
    pub fn is_complete(&self) -> (r: bool)
        ensures
            r == (self.tx_done && self.rx_done),
    {
        self.tx_done && self.rx_done
    }
}

/// An SPI master that moves its data by DMA. It owns the SPI instance, the
/// transmit and receive DMA channels and its three pins, and tracks the
/// transfer in flight, if any.
pub struct SpiMaster<S, T: Dma, R: Dma, SCK, MOSI, MISO> {
    spi: S,
    tx: T,
    rx: R,
    sck: SCK,
    mosi: MOSI,
    miso: MISO,
    progress: Transfer,
}

impl<S, T: Dma, R: Dma, SCK, MOSI, MISO> SpiMaster<S, T, R, SCK, MOSI, MISO> {
    /// Transmit and receive run on two different channels.
    #[verifier::type_invariant]
    spec fn inv(self) -> bool {
        T::channel() != R::channel()
    }

    /// The transmit and receive channel numbers, which always differ.
    pub fn channels(&self) -> (r: (usize, usize))
        ensures
            r.0 == T::channel(),
            r.1 == R::channel(),
            T::channel() != R::channel(),
    {
        proof {
            use_type_invariant(self);
        }
        (T::index(), R::index())
    }

    /// The six tokens held.
    pub closed spec fn tokens(&self) -> (S, T, R, SCK, MOSI, MISO) {
        (self.spi, self.tx, self.rx, self.sck, self.mosi, self.miso)
    }

    /// Progress of the last transfer armed.
    pub closed spec fn progress(&self) -> Transfer {
        self.progress
    }

    /// No transfer is in flight: the channels may be programmed again.
    pub open spec fn is_idle(&self) -> bool {
        self.progress().tx_done && self.progress().rx_done
    }

    /// Progress of the last transfer armed; complete when none is in flight.
    pub fn state(&self) -> (r: Transfer)
        ensures
            r == self.progress(),
    {
        self.progress
    }

    /// Gives back the six tokens. The hardware stays as it is configured.
    pub fn release(self) -> (r: (S, T, R, SCK, MOSI, MISO))
        ensures
            r == self.tokens(),
    {
        (self.spi, self.tx, self.rx, self.sck, self.mosi, self.miso)
    }
}

impl<S, T, R, SCK, MOSI, MISO> SpiMaster<S, T, R, SCK, MOSI, MISO> where
    S: Spi,
    T: Dma,
    R: Dma,
    SCK: SckPin<S> + Pin,
    MISO: MisoPin<S> + Pin,
    MOSI: MosiPin<S> + Pin,
 {
    /// Sets up SPI `spi` as a DMA-driven master on the given channels and
    /// pins: routes the pins, clocks the SPI, sets its baud rate, routes the
    /// channels to the SPI's requests and enables the SPI as master. The
    /// master starts idle.
    pub fn new(regs: &mut Registers, spi: S, tx_ch: T, rx_ch: R, sck: SCK, mosi: MOSI, miso: MISO) -> (r: Self)
        requires
            old(regs).wf(),
            T::channel() != R::channel(),
        ensures
            final(regs).wf(),
            final(regs)@ == master_enabled(
                pins_routed::<SCK, MOSI, MISO, S>(old(regs)@),
                S::instance(),
                T::channel(),
                R::channel(),
            ),
            final(regs).log@ == old(regs).log@ + master_writes::<SCK, MOSI, MISO, S>(
                old(regs)@,
                S::instance(),
                T::channel(),
                R::channel(),
            ),
            r.tokens() == (spi, tx_ch, rx_ch, sck, mosi, miso),
            r.is_idle(),
    {
        let ghost log0 = regs.log@;
        enable_port_clock(regs, &sck);
        enable_port_clock(regs, &miso);
        enable_port_clock(regs, &mosi);

        set_alternate(regs, &sck, SCK::sck_alt());
        set_alternate(regs, &miso, MISO::miso_alt());
        set_alternate(regs, &mosi, MOSI::mosi_alt());

        let ghost routed = regs@;
        let s = S::index();
        let t = T::index();
        let rc = R::index();

        regs.scgc4 = regs.scgc4 | if s == 0 {
            0x0040_0000u32
        } else {
            0x0080_0000u32
        };
        regs.record(Reg::SimScgc4, regs.scgc4);

        let sr = regs.spi[s];
        regs.spi.set(s, SpiRegs { br: BR_DIVIDER, ..sr });
        regs.record(Reg::SpiBr(s), BR_DIVIDER as u32);

        regs.scgc6 = regs.scgc6 | SCGC6_DMAMUX;
        regs.record(Reg::SimScgc6, regs.scgc6);

        // Reset both DMAMUX slots, route them to the SPI's requests, then enable.
        regs.dmamux.set(t, 0);
        regs.record(Reg::DmamuxChcfg(t), 0);
        regs.dmamux.set(rc, 0);
        regs.record(Reg::DmamuxChcfg(rc), 0);
        let tx_slot = S::tx_slot();
        regs.dmamux.set(t, tx_slot);
        regs.record(Reg::DmamuxChcfg(t), tx_slot as u32);
        let rx_slot = S::rx_slot();
        regs.dmamux.set(rc, rx_slot);
        regs.record(Reg::DmamuxChcfg(rc), rx_slot as u32);
        let tv = regs.dmamux[t] | CHCFG_ENBL;
        regs.dmamux.set(t, tv);
        regs.record(Reg::DmamuxChcfg(t), tv as u32);
        let rv = regs.dmamux[rc] | CHCFG_ENBL;
        regs.dmamux.set(rc, rv);
        regs.record(Reg::DmamuxChcfg(rc), rv as u32);

        let sr = regs.spi[s];
        regs.spi.set(s, SpiRegs { c1: C1_MASTER, ..sr });
        regs.record(Reg::SpiC1(s), C1_MASTER as u32);

        proof {
            assert(CHCFG_ENBL | tx_slot_of(S::instance()) == tx_slot_of(S::instance()) | CHCFG_ENBL) by {
                let a = tx_slot_of(S::instance());
                assert(0x80u8 | a == a | 0x80u8) by (bit_vector);
            }
            assert(CHCFG_ENBL | rx_slot_of(S::instance()) == rx_slot_of(S::instance()) | CHCFG_ENBL) by {
                let a = rx_slot_of(S::instance());
                assert(0x80u8 | a == a | 0x80u8) by (bit_vector);
            }
            let m = master_enabled(routed, S::instance(), T::channel(), R::channel());
            assert(regs.scgc4 == m.scgc4);
            assert(regs.scgc6 == m.scgc6);
            assert(regs.dmamux@ =~= m.dmamux);
            assert(regs.spi@ =~= m.spi);
            assert(regs@ =~~= m);
            assert(regs.log@ =~= log0 + master_writes::<SCK, MOSI, MISO, S>(
                old(regs)@,
                S::instance(),
                T::channel(),
                R::channel(),
            ));
        }
        SpiMaster {
            spi,
            tx: tx_ch,
            rx: rx_ch,
            sck,
            mosi,
            miso,
            progress: Transfer { tx_done: true, rx_done: true },
        }
    }

    /// Arms a transfer: the transmit channel is programmed with `txc`, the
    /// receive channel with `rxc`, and only then are the SPI's DMA requests
    /// enabled, so each byte is paced by the SPI. Completion is then awaited
    /// with [`SpiMaster::poll`].
    fn transfer_inner(&mut self, regs: &mut Registers, txc: &DmaConfig, rxc: &DmaConfig)
        requires
            old(regs).wf(),
            old(self).is_idle(),
        ensures
            final(regs).wf(),
            final(regs)@ == armed(old(regs)@, S::instance(), T::channel(), R::channel(), *txc, *rxc),
            final(regs).log@ == old(regs).log@ + arm_writes(S::instance(), T::channel(), R::channel(), *txc, *rxc),
            final(self).progress() == (Transfer { tx_done: false, rx_done: false }),
            final(self).tokens() == old(self).tokens(),
    {
        proof {
            use_type_invariant(&*self);
        }
        let ghost log0 = regs.log@;
        setup_dma_transfer::<T>(regs, txc);
        setup_dma_transfer::<R>(regs, rxc);

        // Requests are enabled only once both channels are programmed.
        let s = S::index();
        let sr = regs.spi[s];
        regs.spi.set(s, SpiRegs { c2: C2_DMA, ..sr });
        regs.record(Reg::SpiC2(s), C2_DMA as u32);
        proof {
            assert(regs.log@ =~= log0 + arm_writes(S::instance(), T::channel(), R::channel(), *txc, *rxc));
            assert(regs@ =~~= armed(old(regs)@, S::instance(), T::channel(), R::channel(), *txc, *rxc));
        }
        self.progress = Transfer { tx_done: false, rx_done: false };
    }

    /// Arms a full-duplex transfer: the transmit channel streams `write` into
    /// the SPI data register and the receive channel streams the data
    /// register into `read`. Both buffers must have the transaction's length;
    /// buffers of different lengths are refused, and nothing is written.
    pub fn transfer(&mut self, regs: &mut Registers, read: DmaBuffer, write: DmaBuffer) -> (r: Result<(), LengthMismatch>)
        requires
            old(regs).wf(),
            old(self).is_idle(),
        ensures
            final(regs).wf(),
            read.len != write.len ==> r == Err::<(), LengthMismatch>(LengthMismatch { read: read.len, write: write.len })
                && *final(regs) == *old(regs) && *final(self) == *old(self),
            read.len == write.len ==> r is Ok,
            r is Ok ==> final(regs)@ == transfer_armed(old(regs)@, S::instance(), T::channel(), R::channel(), read, write),
            r is Ok ==> final(regs).log@ == old(regs).log@ + transfer_writes(
                S::instance(),
                T::channel(),
                R::channel(),
                read,
                write,
            ),
            r is Ok ==> final(self).progress() == (Transfer { tx_done: false, rx_done: false }),
            final(self).tokens() == old(self).tokens(),
            r is Ok ==> final(regs).dma@[T::channel() as int].sar == write.address,
            r is Ok ==> final(regs).dma@[T::channel() as int].bcr == write.len,
            r is Ok ==> final(regs).dma@[R::channel() as int].dar == read.address,
            r is Ok ==> final(regs).dma@[R::channel() as int].bcr == read.len,
    {
        proof {
            use_type_invariant(&*self);
            T::lemma_channel_bound();
            R::lemma_channel_bound();
        }
        if read.len != write.len {
            return Err(LengthMismatch { read: read.len, write: write.len });
        }
        let data_address = S::data_address();
        let txc = DmaConfig {
            source: write.address,
            dest: data_address,
            len: write.len,
            inc_source: true,
            inc_dest: false,
            start: false,
            auto_request: true,
        };
        let rxc = DmaConfig {
            source: data_address,
            dest: read.address,
            len: read.len,
            inc_source: false,
            inc_dest: true,
            start: false,
            auto_request: true,
        };
        self.transfer_inner(regs, &txc, &rxc);
        Ok(())
    }

    /// Arms a transfer that receives into `words`, sending the byte at
    /// `fill` (an idle value) once for each word so that the SPI clocks the
    /// words in.
    pub fn read(&mut self, regs: &mut Registers, words: DmaBuffer, fill: u32)
        requires
            old(regs).wf(),
            old(self).is_idle(),
        ensures
            final(regs).wf(),
            final(regs)@ == armed(
                old(regs)@,
                S::instance(),
                T::channel(),
                R::channel(),
                fill_config(S::instance(), fill, words.len),
                rx_config(S::instance(), words),
            ),
            final(regs).log@ == old(regs).log@ + arm_writes(
                S::instance(),
                T::channel(),
                R::channel(),
                fill_config(S::instance(), fill, words.len),
                rx_config(S::instance(), words),
            ),
            final(self).progress() == (Transfer { tx_done: false, rx_done: false }),
            final(self).tokens() == old(self).tokens(),
    {
        let data_address = S::data_address();
        let txc = DmaConfig {
            source: fill,
            dest: data_address,
            len: words.len,
            inc_source: false,
            inc_dest: false,
            start: false,
            auto_request: true,
        };
        let rxc = DmaConfig {
            source: data_address,
            dest: words.address,
            len: words.len,
            inc_source: false,
            inc_dest: true,
            start: false,
            auto_request: true,
        };
        self.transfer_inner(regs, &txc, &rxc)
    }

    /// Arms a transfer that sends `words`, draining each byte clocked in
    /// into the byte at `sink`, so that the receive side keeps pace.
    pub fn write(&mut self, regs: &mut Registers, words: DmaBuffer, sink: u32)
        requires
            old(regs).wf(),
            old(self).is_idle(),
        ensures
            final(regs).wf(),
            final(regs)@ == armed(
                old(regs)@,
                S::instance(),
                T::channel(),
                R::channel(),
                tx_config(S::instance(), words),
                discard_config(S::instance(), sink, words.len),
            ),
            final(regs).log@ == old(regs).log@ + arm_writes(
                S::instance(),
                T::channel(),
                R::channel(),
                tx_config(S::instance(), words),
                discard_config(S::instance(), sink, words.len),
            ),
            final(self).progress() == (Transfer { tx_done: false, rx_done: false }),
            final(self).tokens() == old(self).tokens(),
    {
        let data_address = S::data_address();
        let txc = DmaConfig {
            source: words.address,
            dest: data_address,
            len: words.len,
            inc_source: true,
            inc_dest: false,
            start: false,
            auto_request: true,
        };
        let rxc = DmaConfig {
            source: data_address,
            dest: sink,
            len: words.len,
            inc_source: false,
            inc_dest: false,
            start: false,
            auto_request: true,
        };
        self.transfer_inner(regs, &txc, &rxc)
    }

    /// One poll of the transfer in flight. Each channel not yet seen complete
    /// is checked: if its DONE flag is set, the flag is cleared and the
    /// channel counts as complete. Returns whether both channels are now
    /// complete, which makes the master idle again; a channel whose DONE
    /// flag was never seen set keeps the transfer pending. Polling changes no
    /// channel's addresses, count or control word.
    pub fn poll(&mut self, regs: &mut Registers) -> (done: bool)
        requires
            old(regs).wf(),
        ensures
            final(regs).wf(),
            final(self).tokens() == old(self).tokens(),
            final(self).progress().tx_done == (old(self).progress().tx_done || old(
                regs,
            ).dma@[T::channel() as int].done),
            final(self).progress().rx_done == (old(self).progress().rx_done || old(
                regs,
            ).dma@[R::channel() as int].done),
            done == final(self).is_idle(),
            forall|i: int|
                0 <= i < DMA_CHANNELS ==> {
                    &&& final(regs).dma@[i].sar == old(regs).dma@[i].sar
                    &&& final(regs).dma@[i].dar == old(regs).dma@[i].dar
                    &&& final(regs).dma@[i].bcr == old(regs).dma@[i].bcr
                    &&& final(regs).dma@[i].dcr == old(regs).dma@[i].dcr
                },
            final(regs).log@ == old(regs).log@ + clear_writes(
                T::channel(),
                !old(self).progress().tx_done && old(regs).dma@[T::channel() as int].done,
            ) + clear_writes(
                R::channel(),
                !old(self).progress().rx_done && old(regs).dma@[R::channel() as int].done,
            ),
            final(regs)@ == clear_if(
                clear_if(
                    old(regs)@,
                    T::channel(),
                    !old(self).progress().tx_done && old(regs).dma@[T::channel() as int].done,
                ),
                R::channel(),
                !old(self).progress().rx_done && old(regs).dma@[R::channel() as int].done,
            ),
    {
        proof {
            use_type_invariant(&*self);
            T::lemma_channel_bound();
            R::lemma_channel_bound();
        }
        let ghost log0 = regs.log@;
        if !self.progress.tx_done {
            if poll_dma_transfer::<T>(regs) {
                self.progress.tx_done = true;
            }
        }
        if !self.progress.rx_done {
            if poll_dma_transfer::<R>(regs) {
                self.progress.rx_done = true;
            }
        }
        proof {
            assert(regs.log@ =~= log0 + clear_writes(
                T::channel(),
                !old(self).progress().tx_done && old(regs).dma@[T::channel() as int].done,
            ) + clear_writes(
                R::channel(),
                !old(self).progress().rx_done && old(regs).dma@[R::channel() as int].done,
            ));
        }
        self.progress.tx_done && self.progress.rx_done
    }
}

} // verus!
