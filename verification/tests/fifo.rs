use gba_core::apu::fifo::FifoChannel;

#[test]
fn test_fifo_write_and_pop() {
    let mut fifo = FifoChannel::new();
    fifo.volume_full = true;

    // Write 4 samples
    fifo.write32(0x01020304); // LE: bytes 04, 03, 02, 01
    assert_eq!(fifo.len(), 4);

    // Pop samples
    fifo.pop_sample();
    assert_eq!(fifo.current_sample, 0x04);
    fifo.pop_sample();
    assert_eq!(fifo.current_sample, 0x03);
    fifo.pop_sample();
    assert_eq!(fifo.current_sample, 0x02);
    fifo.pop_sample();
    assert_eq!(fifo.current_sample, 0x01);
    assert_eq!(fifo.len(), 0);
}

#[test]
fn test_fifo_reset() {
    let mut fifo = FifoChannel::new();
    fifo.write32(0xDEADBEEF);
    assert_eq!(fifo.len(), 4);
    fifo.reset();
    assert_eq!(fifo.len(), 0);
}

#[test]
fn test_fifo_refill_request() {
    let mut fifo = FifoChannel::new();
    // Fill with 32 bytes (8 writes of 4 bytes)
    for i in 0..8 {
        fifo.write32(i);
    }
    assert_eq!(fifo.len(), 32);

    // Pop until half empty — should not request refill until count <= 16
    for _ in 0..15 {
        let needs_refill = fifo.pop_sample();
        assert!(!needs_refill);
    }
    // Next pop brings count to 16 → request refill
    let needs_refill = fifo.pop_sample();
    assert!(needs_refill);
}
