use gba_core::dma::{DmaChannel, DmaController, DmaTiming};

#[test]
fn test_dma_channel_latch() {
    let mut dma = DmaController::new();
    // Use DMA3 which has 28-bit address range (can access ROM)
    dma.channels[3].sad = 0x0800_0000;
    dma.channels[3].dad = 0x0600_0000;
    dma.channels[3].count = 100;

    // Enable with immediate timing
    let result = dma.write_control(3, 1 << 15, 0); // Enable, immediate
    assert_eq!(result, Some(3));
    assert_eq!(dma.channels[3].internal_sad, 0x0800_0000);
    assert_eq!(dma.channels[3].internal_dad, 0x0600_0000);
    assert_eq!(dma.channels[3].internal_count, 100);
}

#[test]
fn test_dma_count_zero_means_max() {
    let mut dma = DmaController::new();
    dma.channels[0].count = 0;
    let _ = dma.write_control(0, 1 << 15, 0);
    assert_eq!(dma.channels[0].internal_count, 0x4000); // DMA0 max

    dma.channels[3].count = 0;
    let _ = dma.write_control(3, 1 << 15, 0);
    assert_eq!(dma.channels[3].internal_count, 0x10000); // DMA3 max
}

#[test]
fn test_dma_timing_detection() {
    let mut ch = DmaChannel::new();
    ch.control = (1 << 15) | (1 << 12); // Enable, VBlank timing
    assert_eq!(ch.timing(), DmaTiming::VBlank);

    ch.control = (1 << 15) | (2 << 12); // Enable, HBlank timing
    assert_eq!(ch.timing(), DmaTiming::HBlank);
}

#[test]
fn test_dma_channels_for_timing() {
    let mut dma = DmaController::new();
    // Channel 0: VBlank
    dma.channels[0].sad = 0x0800_0000;
    dma.channels[0].dad = 0x0600_0000;
    dma.channels[0].count = 10;
    dma.write_control(0, (1 << 15) | (1 << 12), 0); // VBlank

    // Channel 2: HBlank
    dma.channels[2].sad = 0x0800_0000;
    dma.channels[2].dad = 0x0600_0000;
    dma.channels[2].count = 10;
    dma.write_control(2, (1 << 15) | (2 << 12), 0); // HBlank

    assert_eq!(dma.channels_for_timing(DmaTiming::VBlank), vec![0]);
    assert_eq!(dma.channels_for_timing(DmaTiming::HBlank), vec![2]);
    assert!(dma.channels_for_timing(DmaTiming::Immediate).is_empty());
}
