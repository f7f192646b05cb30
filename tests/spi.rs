use frdm_kl25_hal::dma::{read_dma_config, Dma0, Dma1, DmaBuffer};
use frdm_kl25_hal::gpio::Output;
use frdm_kl25_hal::registers::{Reg, RegWrite, Registers};
use frdm_kl25_hal::spi::{LengthMismatch, SpiMaster, Transfer};
use frdm_kl25_hal::clock::{ClockSetup, ClockStep, ClockWait};
use frdm_kl25_hal::Peripherals;

const PORT_D: usize = 3;

/// The token set, after clock bring-up has run against a register image
/// whose clock generator reports each awaited status.
fn board() -> Peripherals {
    let mut regs = Registers::new();
    let mut clocks = ClockSetup::new();
    loop {
        match clocks.action() {
            ClockStep::Done => break,
            ClockStep::Write(_) => {}
            ClockStep::Wait(w) => {
                regs.mcg_s = match w {
                    ClockWait::OscillatorReady => 0x02,
                    ClockWait::ExternalReference => 0x00,
                    ClockWait::ExternalClockSelected => 0x08,
                    ClockWait::PllSelected => 0x20,
                    ClockWait::PllLocked => 0x40,
                    ClockWait::PllClockSelected => 0x0C,
                };
            }
        }
        assert!(clocks.step(&mut regs));
    }
    assert!(clocks.finished());
    Peripherals::steal(clocks)
}

#[test]
fn new_master_configures_spi_dmamux_and_pins() {
    let p = board();
    let mut regs = Registers::new();
    let _bus = SpiMaster::new(&mut regs, p.spi0, p.dma0, p.dma1, p.pins.PTD1, p.pins.PTD2, p.pins.PTD3);
    assert_eq!(regs.scgc4, 0x0040_0000);
    assert_eq!(regs.scgc5, 0x1000);
    assert_eq!(regs.scgc6, 0x2);
    assert_eq!(regs.spi[0].br, 0x03);
    assert_eq!(regs.spi[0].c1, 0x54);
    assert_eq!(regs.spi[1].c1, 0x04);
    assert_eq!(regs.dmamux[0], 0x80 | 17);
    assert_eq!(regs.dmamux[1], 0x80 | 16);
    assert_eq!(regs.dmamux[2], 0);
    assert_eq!(regs.pin_mux[PORT_D * 32 + 1], 2);
    assert_eq!(regs.pin_mux[PORT_D * 32 + 2], 2);
    assert_eq!(regs.pin_mux[PORT_D * 32 + 3], 2);
    assert_eq!(regs.pin_mux[PORT_D * 32 + 0], 0);
}

#[test]
fn spi1_master_uses_its_own_slots_and_alternates() {
    let p = board();
    let mut regs = Registers::new();
    let _bus = SpiMaster::new(&mut regs, p.spi1, p.dma3, p.dma2, p.pins.PTE2, p.pins.PTE3, p.pins.PTE1);
    assert_eq!(regs.scgc4, 0x0080_0000);
    assert_eq!(regs.scgc5, 0x2000);
    assert_eq!(regs.dmamux[3], 0x80 | 19);
    assert_eq!(regs.dmamux[2], 0x80 | 18);
    assert_eq!(regs.spi[1].c1, 0x54);
    assert_eq!(regs.pin_mux[4 * 32 + 2], 2);
    assert_eq!(regs.pin_mux[4 * 32 + 3], 5);
    assert_eq!(regs.pin_mux[4 * 32 + 1], 5);
}

#[test]
fn transfer_programs_tx_channel_with_write_buffer() {
    let p = board();
    let mut regs = Registers::new();
    let mut bus = SpiMaster::new(&mut regs, p.spi0, p.dma0, p.dma1, p.pins.PTD1, p.pins.PTD2, p.pins.PTD3);
    let write = DmaBuffer::new(0x2000_0040, 2).unwrap();
    let read = DmaBuffer::new(0x2000_0080, 2).unwrap();
    assert_eq!(bus.state(), Transfer { tx_done: true, rx_done: true });
    bus.transfer(&mut regs, read, write).unwrap();
    assert_eq!(bus.state(), Transfer { tx_done: false, rx_done: false });
    let tx = read_dma_config::<Dma0>(&regs);
    assert_eq!(tx.source, 0x2000_0040);
    assert_eq!(tx.dest, 0x4007_6005);
    assert_eq!(tx.len, 2);
    assert!(tx.inc_source && !tx.inc_dest && !tx.start && tx.auto_request);
    assert_eq!(regs.spi[0].c2, 0x24);
}

#[test]
fn transfer_programs_rx_channel_with_read_buffer() {
    let p = board();
    let mut regs = Registers::new();
    let mut bus = SpiMaster::new(&mut regs, p.spi0, p.dma0, p.dma1, p.pins.PTD1, p.pins.PTD2, p.pins.PTD3);
    let write = DmaBuffer::new(0x2000_0040, 5).unwrap();
    let read = DmaBuffer::new(0x2000_0100, 5).unwrap();
    bus.transfer(&mut regs, read, write).unwrap();
    let rx = read_dma_config::<Dma1>(&regs);
    assert_eq!(rx.source, 0x4007_6005);
    assert_eq!(rx.dest, 0x2000_0100);
    assert_eq!(rx.len, 5);
    assert!(!rx.inc_source && rx.inc_dest && !rx.start && rx.auto_request);
}

#[test]
fn read_and_write_keep_both_channels_paced() {
    let p = board();
    let mut regs = Registers::new();
    let mut bus = SpiMaster::new(&mut regs, p.spi0, p.dma0, p.dma1, p.pins.PTD1, p.pins.PTD2, p.pins.PTD3);
    bus.write(&mut regs, DmaBuffer::new(0x2000_0000, 4).unwrap(), 0x2000_0F00);
    let tx = read_dma_config::<Dma0>(&regs);
    let rx = read_dma_config::<Dma1>(&regs);
    assert_eq!((tx.source, tx.len, tx.inc_source), (0x2000_0000, 4, true));
    assert_eq!((rx.dest, rx.len, rx.inc_dest), (0x2000_0F00, 4, false));
    regs.dma[0].done = true;
    regs.dma[1].done = true;
    assert!(bus.poll(&mut regs));

    bus.read(&mut regs, DmaBuffer::new(0x2000_0010, 6).unwrap(), 0x2000_0F10);
    let tx = read_dma_config::<Dma0>(&regs);
    let rx = read_dma_config::<Dma1>(&regs);
    assert_eq!((tx.source, tx.len, tx.inc_source), (0x2000_0F10, 6, false));
    assert_eq!((rx.dest, rx.len, rx.inc_dest), (0x2000_0010, 6, true));
    assert_eq!(regs.spi[0].c2, 0x24);
}

#[test]
fn transfer_refuses_unequal_lengths() {
    let p = board();
    let mut regs = Registers::new();
    let mut bus = SpiMaster::new(&mut regs, p.spi0, p.dma0, p.dma1, p.pins.PTD1, p.pins.PTD2, p.pins.PTD3);
    let logged = regs.log.len();
    let r = bus.transfer(
        &mut regs,
        DmaBuffer::new(0x2000_0000, 2).unwrap(),
        DmaBuffer::new(0x2000_0010, 3).unwrap(),
    );
    assert_eq!(r, Err(LengthMismatch { read: 2, write: 3 }));
    assert_eq!(regs.log.len(), logged);
    assert_eq!(regs.dma[0].bcr, 0);
    assert!(bus.state().is_complete());
    assert_eq!(bus.channels(), (0, 1));
}

#[test]
fn end_to_end_transfer_with_simulated_peripheral() {
    let p = board();
    let mut regs = Registers::new();
    let mut bus = SpiMaster::new(&mut regs, p.spi0, p.dma0, p.dma1, p.pins.PTD1, p.pins.PTD2, p.pins.PTD3);
    let write_buffer: [u8; 2] = [0xAA, 0x55];
    let read_buffer: [u8; 2] = [0, 0];
    let start = regs.log.len();
    bus.transfer(
        &mut regs,
        DmaBuffer::new(0x2000_0200, read_buffer.len()).unwrap(),
        DmaBuffer::new(0x2000_0300, write_buffer.len()).unwrap(),
    )
    .unwrap();
    // Both channels are programmed before the SPI's DMA requests are enabled.
    let armed: Vec<Reg> = regs.log[start..].iter().map(|w| w.reg).collect();
    assert_eq!(
        armed,
        vec![
            Reg::DmaDsr(0),
            Reg::DmaSar(0),
            Reg::DmaDar(0),
            Reg::DmaBcr(0),
            Reg::DmaDcr(0),
            Reg::DmaDsr(1),
            Reg::DmaSar(1),
            Reg::DmaDar(1),
            Reg::DmaBcr(1),
            Reg::DmaDcr(1),
            Reg::SpiC2(0),
        ]
    );
    assert_eq!(regs.log.last().unwrap().value, 0x24);
    assert!(!bus.poll(&mut regs));
    assert!(!bus.poll(&mut regs));
    assert_eq!(regs.log.len(), start + 11);

    // The simulated peripheral shifts both bytes; both channels report
    // completion.
    regs.dma[0].done = true;
    regs.dma[1].done = true;

    assert!(bus.poll(&mut regs));
    assert!(bus.state().is_complete());
    assert!(!regs.dma[0].done);
    assert!(!regs.dma[1].done);
    assert_eq!(regs.log[start + 11], RegWrite { reg: Reg::DmaDsr(0), value: 0x0100_0000 });
    assert_eq!(regs.log[start + 12], RegWrite { reg: Reg::DmaDsr(1), value: 0x0100_0000 });
    assert_eq!(regs.dma[0].sar, 0x2000_0300);
    assert_eq!(regs.dma[0].bcr, 2);
    assert_eq!(regs.dma[1].dar, 0x2000_0200);
    assert_eq!(regs.dma[1].bcr, 2);
}

#[test]
fn new_master_writes_port_clocks_before_any_pin_mux() {
    let p = board();
    let mut regs = Registers::new();
    let _bus = SpiMaster::new(&mut regs, p.spi0, p.dma0, p.dma1, p.pins.PTD1, p.pins.PTD2, p.pins.PTD3);
    let expected = vec![
        RegWrite { reg: Reg::SimScgc5, value: 0x1000 },
        RegWrite { reg: Reg::SimScgc5, value: 0x1000 },
        RegWrite { reg: Reg::SimScgc5, value: 0x1000 },
        RegWrite { reg: Reg::PortPcrMux(PORT_D * 32 + 1), value: 2 },
        RegWrite { reg: Reg::PortPcrMux(PORT_D * 32 + 3), value: 2 },
        RegWrite { reg: Reg::PortPcrMux(PORT_D * 32 + 2), value: 2 },
        RegWrite { reg: Reg::SimScgc4, value: 0x0040_0000 },
        RegWrite { reg: Reg::SpiBr(0), value: 0x03 },
        RegWrite { reg: Reg::SimScgc6, value: 0x2 },
        RegWrite { reg: Reg::DmamuxChcfg(0), value: 0 },
        RegWrite { reg: Reg::DmamuxChcfg(1), value: 0 },
        RegWrite { reg: Reg::DmamuxChcfg(0), value: 17 },
        RegWrite { reg: Reg::DmamuxChcfg(1), value: 16 },
        RegWrite { reg: Reg::DmamuxChcfg(0), value: 0x91 },
        RegWrite { reg: Reg::DmamuxChcfg(1), value: 0x90 },
        RegWrite { reg: Reg::SpiC1(0), value: 0x54 },
    ];
    assert_eq!(regs.log, expected);
}

#[test]
fn transfer_waits_for_both_channels() {
    let p = board();
    let mut regs = Registers::new();
    let mut bus = SpiMaster::new(&mut regs, p.spi0, p.dma0, p.dma1, p.pins.PTD1, p.pins.PTD2, p.pins.PTD3);
    bus.transfer(
        &mut regs,
        DmaBuffer::new(0x2000_0000, 1).unwrap(),
        DmaBuffer::new(0x2000_0010, 1).unwrap(),
    )
    .unwrap();
    regs.dma[1].done = true;
    assert!(!bus.poll(&mut regs));
    assert_eq!(bus.state(), Transfer { tx_done: false, rx_done: true });
    assert!(!regs.dma[1].done);
    assert!(!bus.poll(&mut regs));
    regs.dma[0].done = true;
    assert!(bus.poll(&mut regs));
    assert_eq!(bus.state(), Transfer { tx_done: true, rx_done: true });
    assert!(!regs.dma[0].done);
}

#[test]
fn released_tokens_build_other_resources() {
    let p = board();
    let mut regs = Registers::new();
    let bus = SpiMaster::new(&mut regs, p.spi0, p.dma0, p.dma1, p.pins.PTD1, p.pins.PTD2, p.pins.PTD3);
    let (spi, tx, rx, sck, mosi, miso) = bus.release();
    assert_eq!(regs.spi[0].c1, 0x54);

    let _led = Output::new(&mut regs, sck);
    assert_eq!(regs.pin_mux[PORT_D * 32 + 1], 1);
    assert_eq!(regs.gpio[PORT_D].pddr, 1 << 1);

    let _again = SpiMaster::new(&mut regs, spi, rx, tx, p.pins.PTC5, mosi, miso);
    assert_eq!(regs.dmamux[1], 0x80 | 17);
    assert_eq!(regs.dmamux[0], 0x80 | 16);
    assert_eq!(regs.pin_mux[2 * 32 + 5], 2);
}

#[test]
fn poll_of_idle_master_changes_nothing() {
    let p = board();
    let mut regs = Registers::new();
    let mut bus = SpiMaster::new(&mut regs, p.spi0, p.dma0, p.dma1, p.pins.PTD1, p.pins.PTD2, p.pins.PTD3);
    regs.dma[0].done = true;
    assert!(bus.poll(&mut regs));
    assert!(regs.dma[0].done);
    assert_eq!(bus.state(), Transfer { tx_done: true, rx_done: true });
}
