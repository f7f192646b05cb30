use vstd::prelude::*;

use crate::sealed::Sealed;
use crate::registers::{wr, DmaChannelRegs, Reg, RegWrite, RegisterFile, Registers, DMA_CHANNELS};

verus! {

/// A DMA channel token. Each implementing type stands for one channel.
pub trait Dma: Sealed {
    /// The channel number.
    spec fn channel() -> nat;

    /// The channel number names one of the controller's channels.
    proof fn lemma_channel_bound()
        ensures
            Self::channel() < DMA_CHANNELS,
    ;

    /// The channel number, at run time.
    fn index() -> (r: usize)
        ensures
            r == Self::channel(),
            r < DMA_CHANNELS,
    ;
}

/// Token for DMA channel 0.
pub struct Dma0 {
    _private: (),
}

/// Token for DMA channel 1.
pub struct Dma1 {
    _private: (),
}

/// Token for DMA channel 2.
pub struct Dma2 {
    _private: (),
}

/// Token for DMA channel 3.
pub struct Dma3 {
    _private: (),
}

impl Dma0 {
    pub(crate) fn new() -> Self {
        Dma0 { _private: () }
    }
}

impl Dma1 {
    pub(crate) fn new() -> Self {
        Dma1 { _private: () }
    }
}

impl Dma2 {
    pub(crate) fn new() -> Self {
        Dma2 { _private: () }
    }
}

impl Dma3 {
    pub(crate) fn new() -> Self {
        Dma3 { _private: () }
    }
}

impl Sealed for Dma0 {}

impl Dma for Dma0 {
    open spec fn channel() -> nat {
        0
    }

    proof fn lemma_channel_bound() {
    }

    fn index() -> (r: usize) {
        0
    }
}

impl Sealed for Dma1 {}

impl Dma for Dma1 {
    open spec fn channel() -> nat {
        1
    }

    proof fn lemma_channel_bound() {
    }

    fn index() -> (r: usize) {
        1
    }
}

impl Sealed for Dma2 {}

impl Dma for Dma2 {
    open spec fn channel() -> nat {
        2
    }

    proof fn lemma_channel_bound() {
    }

    fn index() -> (r: usize) {
        2
    }
}

impl Sealed for Dma3 {}

impl Dma for Dma3 {
    open spec fn channel() -> nat {
        3
    }

    proof fn lemma_channel_bound() {
    }

    fn index() -> (r: usize) {
        3
    }
}

/// What a channel is programmed to do.
#[derive(Clone, Copy, Debug, PartialEq, Eq, Structural)]
pub struct DmaConfig {
    /// Address the channel reads from.
    pub source: u32,
    /// Address the channel writes to.
    pub dest: u32,
    /// Number of bytes to move.
    pub len: u16,
    /// Advance the source address after each byte.
    pub inc_source: bool,
    /// Advance the destination address after each byte.
    pub inc_dest: bool,
    /// Start at once, without waiting for a peripheral request.
    pub start: bool,
    /// Move one byte per peripheral request (cycle steal) and drop the request
    /// enable when the count reaches zero.
    pub auto_request: bool,
}

/// DCR: enable peripheral request.
pub const DCR_ERQ: u32 = 0x4000_0000;
/// DCR: cycle steal, one transfer per request.
pub const DCR_CS: u32 = 0x2000_0000;
/// DCR: source increment.
pub const DCR_SINC: u32 = 0x0040_0000;
/// DCR: source size of 8 bits.
pub const DCR_SSIZE_8BIT: u32 = 0x0010_0000;
/// DCR: destination increment.
pub const DCR_DINC: u32 = 0x0008_0000;
/// DCR: destination size of 8 bits.
pub const DCR_DSIZE_8BIT: u32 = 0x0002_0000;
/// DCR: start the transfer.
pub const DCR_START: u32 = 0x0001_0000;
/// DCR: clear ERQ when the byte count reaches zero.
pub const DCR_D_REQ: u32 = 0x0000_0080;

pub open spec fn flag(set: bool, bits: u32) -> u32 {
    if set {
        bits
    } else {
        0
    }
}

/// The control word for a configuration: byte-sized accesses, peripheral
/// requests enabled, and the configuration's flags.
pub open spec fn dcr_word(c: DmaConfig) -> u32 {
    DCR_ERQ | DCR_SSIZE_8BIT | DCR_DSIZE_8BIT | flag(c.auto_request, DCR_CS | DCR_D_REQ) | flag(
        c.inc_source,
        DCR_SINC,
    ) | flag(c.inc_dest, DCR_DINC) | flag(c.start, DCR_START)
}

/// The registers of a channel just programmed with `c`: DONE clear.
pub open spec fn programmed(c: DmaConfig) -> DmaChannelRegs {
    DmaChannelRegs { sar: c.source, dar: c.dest, bcr: c.len, done: false, dcr: dcr_word(c) }
}

/// The configuration that a channel's registers hold.
pub open spec fn config_of(r: DmaChannelRegs) -> DmaConfig {
    DmaConfig {
        source: r.sar,
        dest: r.dar,
        len: r.bcr,
        inc_source: r.dcr & DCR_SINC != 0,
        inc_dest: r.dcr & DCR_DINC != 0,
        start: r.dcr & DCR_START != 0,
        auto_request: r.dcr & DCR_D_REQ != 0,
    }
}

/// The register file with channel `ch` replaced.
pub open spec fn with_channel(f: RegisterFile, ch: int, r: DmaChannelRegs) -> RegisterFile {
    RegisterFile { dma: f.dma.update(ch, r), ..f }
}

/// The register file with channel `ch`'s DONE flag cleared.
pub open spec fn with_done_cleared(f: RegisterFile, ch: int) -> RegisterFile {
    with_channel(f, ch, DmaChannelRegs { done: false, ..f.dma[ch] })
}

/// A region of memory that a channel reads or writes.
#[derive(Clone, Copy, Debug, PartialEq, Eq, Structural)]
pub struct DmaBuffer {
    /// Address of the first byte.
    pub address: u32,
    /// Length in bytes.
    pub len: u16,
}

impl DmaBuffer {
    /// The buffer at `address` of `len` bytes, if a channel can move that
    /// many bytes in one transfer (at most 65535).
    pub fn new(address: u32, len: usize) -> (r: Option<DmaBuffer>)
        ensures
            len <= u16::MAX ==> r == Some(DmaBuffer { address, len: len as u16 }),
            len > u16::MAX ==> r is None,
    {
        if len <= u16::MAX as usize {
            Some(DmaBuffer { address, len: len as u16 })
        } else {
            None
        }
    }
}

/// The control word for `c`.
pub fn encode_dcr(c: &DmaConfig) -> (r: u32)
    ensures
        r == dcr_word(*c),
{
    DCR_ERQ | DCR_SSIZE_8BIT | DCR_DSIZE_8BIT | (if c.auto_request {
        DCR_CS | DCR_D_REQ
    } else {
        0
    }) | (if c.inc_source {
        DCR_SINC
    } else {
        0
    }) | (if c.inc_dest {
        DCR_DINC
    } else {
        0
    }) | (if c.start {
        DCR_START
    } else {
        0
    })
}

/// DSR: the DONE bit; writing it clears the channel's status.
pub const DSR_DONE: u32 = 0x0100_0000;

/// The writes that program channel `ch` with `c`, in order: clear DONE,
/// then source, destination and count, and the control word last, since it
/// arms the channel.
pub open spec fn program_writes(ch: nat, c: DmaConfig) -> Seq<RegWrite> {
    seq![
        wr(Reg::DmaDsr(ch as usize), DSR_DONE),
        wr(Reg::DmaSar(ch as usize), c.source),
        wr(Reg::DmaDar(ch as usize), c.dest),
        wr(Reg::DmaBcr(ch as usize), c.len as u32),
        wr(Reg::DmaDcr(ch as usize), dcr_word(c)),
    ]
}

/// Programs channel `D`: clears its DONE flag, then writes the source and
/// destination addresses and the byte count, and the control word last.
pub fn setup_dma_transfer<D: Dma>(regs: &mut Registers, config: &DmaConfig)
    requires
        old(regs).wf(),
    ensures
        final(regs).wf(),
        final(regs)@ == with_channel(old(regs)@, D::channel() as int, programmed(*config)),
        final(regs).log@ == old(regs).log@ + program_writes(D::channel(), *config),
{
    let ch = D::index();
    let ghost log0 = regs.log@;

    let c = regs.dma[ch];
    regs.dma.set(ch, DmaChannelRegs { done: false, ..c });
    regs.record(Reg::DmaDsr(ch), DSR_DONE);

    let c = regs.dma[ch];
    regs.dma.set(ch, DmaChannelRegs { sar: config.source, ..c });
    regs.record(Reg::DmaSar(ch), config.source);

    let c = regs.dma[ch];
    regs.dma.set(ch, DmaChannelRegs { dar: config.dest, ..c });
    regs.record(Reg::DmaDar(ch), config.dest);

    let c = regs.dma[ch];
    regs.dma.set(ch, DmaChannelRegs { bcr: config.len, ..c });
    regs.record(Reg::DmaBcr(ch), config.len as u32);

    let word = encode_dcr(config);
    let c = regs.dma[ch];
    regs.dma.set(ch, DmaChannelRegs { dcr: word, ..c });
    regs.record(Reg::DmaDcr(ch), word);
    proof {
        assert(regs.dma@[ch as int] == programmed(*config));
        assert(regs.dma@ =~= old(regs).dma@.update(ch as int, programmed(*config)));
        assert(regs@ =~~= with_channel(old(regs)@, D::channel() as int, programmed(*config)));
        assert(regs.log@ =~= log0 + program_writes(D::channel(), *config));
    }
}

/// Reads back the configuration held by channel `D`.
pub fn read_dma_config<D: Dma>(regs: &Registers) -> (r: DmaConfig)
    requires
        regs.wf(),
    ensures
        r == config_of(regs.dma@[D::channel() as int]),
{
    let ch = D::index();
    let c = regs.dma[ch];
    DmaConfig {
        source: c.sar,
        dest: c.dar,
        len: c.bcr,
        inc_source: c.dcr & DCR_SINC != 0,
        inc_dest: c.dcr & DCR_DINC != 0,
        start: c.dcr & DCR_START != 0,
        auto_request: c.dcr & DCR_D_REQ != 0,
    }
}

/// One poll of channel `D`'s completion. Returns whether DONE was set; when it
/// was, clears it so that the next configuration cannot see a stale
/// completion. While DONE is clear nothing changes, so a poll never completes
/// a channel whose transfer has not ended.
pub fn poll_dma_transfer<D: Dma>(regs: &mut Registers) -> (done: bool)
    requires
        old(regs).wf(),
    ensures
        final(regs).wf(),
        done == old(regs).dma@[D::channel() as int].done,
        done ==> final(regs)@ == with_done_cleared(old(regs)@, D::channel() as int),
        done ==> final(regs).log@ == old(regs).log@.push(
            wr(Reg::DmaDsr(D::channel() as usize), DSR_DONE),
        ),
        !done ==> final(regs)@ == old(regs)@,
        !done ==> final(regs).log@ == old(regs).log@,
{
    let ch = D::index();
    let c = regs.dma[ch];
    if c.done {
        regs.dma.set(ch, DmaChannelRegs { done: false, ..c });
        regs.record(Reg::DmaDsr(ch), DSR_DONE);
        proof {
            assert(regs@ =~~= with_done_cleared(old(regs)@, D::channel() as int));
        }
        true
    } else {
        false
    }
}

/// Programming channel `ch` with `c` and reading the channel back gives `c`:
/// the same addresses, length and flags.
pub proof fn lemma_config_round_trip(f: RegisterFile, ch: int, c: DmaConfig)
    requires
        0 <= ch < f.dma.len(),
    ensures
        config_of(with_channel(f, ch, programmed(c)).dma[ch]) == c,
{
    let a = flag(c.auto_request, DCR_CS | DCR_D_REQ);
    let s = flag(c.inc_source, DCR_SINC);
    let d = flag(c.inc_dest, DCR_DINC);
    let t = flag(c.start, DCR_START);
    let w = dcr_word(c);
    assert(DCR_CS | DCR_D_REQ == 0x2000_0080u32) by (bit_vector);
    assert(w == 0x4000_0000u32 | 0x0010_0000u32 | 0x0002_0000u32 | a | s | d | t);
    assert((a == 0 || a == 0x2000_0080u32) && (s == 0 || s == 0x0040_0000u32) && (d == 0 || d
        == 0x0008_0000u32) && (t == 0 || t == 0x0001_0000u32) && w == 0x4000_0000u32 | 0x0010_0000u32
        | 0x0002_0000u32 | a | s | d | t ==> (w & 0x0040_0000u32 != 0 <==> s != 0) && (w
        & 0x0008_0000u32 != 0 <==> d != 0) && (w & 0x0001_0000u32 != 0 <==> t != 0) && (w
        & 0x0000_0080u32 != 0 <==> a != 0)) by (bit_vector);
    assert(with_channel(f, ch, programmed(c)).dma[ch] == programmed(c));
}

} // verus!
