use frdm_kl25_hal::dma::{
    encode_dcr, poll_dma_transfer, read_dma_config, setup_dma_transfer, Dma0, Dma2, DmaBuffer,
    DmaConfig,
};
use frdm_kl25_hal::registers::{DmaChannelRegs, Reg, RegWrite, Registers};

fn config(source: u32, dest: u32, len: u16, inc_source: bool, inc_dest: bool) -> DmaConfig {
    DmaConfig {
        source,
        dest,
        len,
        inc_source,
        inc_dest,
        start: false,
        auto_request: true,
    }
}

#[test]
fn registers_start_at_reset_values() {
    let regs = Registers::new();
    assert_eq!(regs.dma.len(), 4);
    assert_eq!(regs.dmamux, vec![0u8; 4]);
    assert_eq!(regs.spi.len(), 2);
    assert_eq!(regs.spi[0].c1, 0x04);
    assert_eq!(regs.pin_mux.len(), 160);
    assert_eq!(regs.gpio.len(), 5);
    assert_eq!(regs.tpm[2].modulo, 0xFFFF);
    assert_eq!(regs.tpm_channels.len(), 18);
    for c in &regs.dma {
        assert_eq!(*c, DmaChannelRegs { sar: 0, dar: 0, bcr: 0, done: false, dcr: 0 });
    }
}

#[test]
fn configure_then_read_back_gives_same_fields() {
    let mut regs = Registers::new();
    let c = config(0x2000_0100, 0x4007_6005, 7, true, false);
    setup_dma_transfer::<Dma2>(&mut regs, &c);
    let back = read_dma_config::<Dma2>(&regs);
    assert_eq!(back.source, 0x2000_0100);
    assert_eq!(back.dest, 0x4007_6005);
    assert_eq!(back.len, 7);
    assert!(back.inc_source);
    assert!(!back.inc_dest);
    assert_eq!(back, c);
}

#[test]
fn read_back_keeps_every_flag() {
    let mut regs = Registers::new();
    let c = DmaConfig {
        source: 1,
        dest: 2,
        len: 65535,
        inc_source: false,
        inc_dest: true,
        start: true,
        auto_request: false,
    };
    setup_dma_transfer::<Dma0>(&mut regs, &c);
    assert_eq!(read_dma_config::<Dma0>(&regs), c);
}

#[test]
fn control_word_of_a_transmit_configuration() {
    let c = config(0x2000_0000, 0x4007_6005, 2, true, false);
    assert_eq!(encode_dcr(&c), 0x6052_0080);
    let r = config(0x4007_6005, 0x2000_0000, 2, false, true);
    assert_eq!(encode_dcr(&r), 0x601A_0080);
}

#[test]
fn configuring_clears_done_and_touches_one_channel() {
    let mut regs = Registers::new();
    regs.dma[2].done = true;
    regs.dma[1].done = true;
    setup_dma_transfer::<Dma2>(&mut regs, &config(10, 20, 3, true, true));
    assert!(!regs.dma[2].done);
    assert_eq!(regs.dma[2].sar, 10);
    assert_eq!(regs.dma[2].dar, 20);
    assert_eq!(regs.dma[2].bcr, 3);
    assert!(regs.dma[1].done);
    assert_eq!(regs.dma[0].sar, 0);
}

#[test]
fn poll_does_not_complete_before_done_is_set() {
    let mut regs = Registers::new();
    setup_dma_transfer::<Dma0>(&mut regs, &config(10, 20, 3, true, false));
    let before = regs.dma.clone();
    for _ in 0..3 {
        assert!(!poll_dma_transfer::<Dma0>(&mut regs));
        assert_eq!(regs.dma, before);
    }
}

#[test]
fn poll_completes_once_and_clears_done() {
    let mut regs = Registers::new();
    setup_dma_transfer::<Dma0>(&mut regs, &config(10, 20, 3, true, false));
    regs.dma[0].done = true;
    assert!(poll_dma_transfer::<Dma0>(&mut regs));
    assert!(!regs.dma[0].done);
    assert_eq!(regs.dma[0].sar, 10);
    assert!(!poll_dma_transfer::<Dma0>(&mut regs));
}

#[test]
fn buffer_length_limit() {
    assert_eq!(DmaBuffer::new(5, 65535), Some(DmaBuffer { address: 5, len: 65535 }));
    assert_eq!(DmaBuffer::new(5, 65536), None);
    assert_eq!(DmaBuffer::new(9, 0), Some(DmaBuffer { address: 9, len: 0 }));
}

#[test]
fn configuring_clears_done_first_and_writes_control_last() {
    let mut regs = Registers::new();
    let c = config(0x2000_0100, 0x4007_6005, 7, true, false);
    setup_dma_transfer::<Dma2>(&mut regs, &c);
    assert_eq!(
        regs.log,
        vec![
            RegWrite { reg: Reg::DmaDsr(2), value: 0x0100_0000 },
            RegWrite { reg: Reg::DmaSar(2), value: 0x2000_0100 },
            RegWrite { reg: Reg::DmaDar(2), value: 0x4007_6005 },
            RegWrite { reg: Reg::DmaBcr(2), value: 7 },
            RegWrite { reg: Reg::DmaDcr(2), value: 0x6052_0080 },
        ]
    );
}

#[test]
fn poll_without_done_writes_nothing() {
    let mut regs = Registers::new();
    assert!(!poll_dma_transfer::<Dma0>(&mut regs));
    assert!(regs.log.is_empty());
    regs.dma[0].done = true;
    assert!(poll_dma_transfer::<Dma0>(&mut regs));
    assert_eq!(regs.log, vec![RegWrite { reg: Reg::DmaDsr(0), value: 0x0100_0000 }]);
}
