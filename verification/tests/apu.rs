use rewinds::gba::apu::{
    Apu, H_DSA_ENABLE_LEFT, H_DSA_ENABLE_RIGHT, H_DSA_RESET, H_DSA_VOLUME_FULL, H_DSB_TIMER,
    X_MASTER_ENABLE,
};

fn apu_with_dsa() -> Apu {
    let mut apu = Apu::new();
    // Master enable (SOUNDCNT_X bit 7).
    apu.write16(0x084, X_MASTER_ENABLE, 0xFFFF);
    // DSA: full volume, both speakers, Timer 0.
    apu.write16(0x082, H_DSA_VOLUME_FULL | H_DSA_ENABLE_LEFT | H_DSA_ENABLE_RIGHT, 0xFFFF);
    apu
}

#[test]
fn fifo_word_push_and_timer_pop() {
    let mut apu = apu_with_dsa();
    apu.write_fifo(0, u32::from_le_bytes([10u8, 20, 30, 40]));
    // Timer 0 overflow pops the first sample into the latch.
    apu.on_timer_overflow(0);
    assert_eq!(apu.latch[0], 10);
    apu.on_timer_overflow(0);
    assert_eq!(apu.latch[0], 20);
}

#[test]
fn wrong_timer_does_not_clock_channel() {
    let mut apu = apu_with_dsa(); // DSA on Timer 0
    apu.write_fifo(0, u32::from_le_bytes([7u8, 0, 0, 0]));
    apu.on_timer_overflow(1); // Timer 1: not DSA's timer
    assert_eq!(apu.latch[0], 0);
}

#[test]
fn low_fifo_requests_refill() {
    let mut apu = apu_with_dsa();
    apu.write16(0x082, H_DSB_TIMER, H_DSB_TIMER); // FIFO B on Timer 1
    apu.write_fifo(0, 0); // 4 bytes -> below the 16-byte threshold
    let refill = apu.on_timer_overflow(0);
    assert!(refill[0]); // FIFO A (Timer 0) is low
    assert!(!refill[1]); // FIFO B is on Timer 1, not clocked here
}

#[test]
fn mix_reflects_latched_sample_and_pan() {
    let mut apu = apu_with_dsa();
    apu.write_fifo(0, u32::from_le_bytes([100u8, 0, 0, 0]));
    apu.on_timer_overflow(0);
    let (l, r) = apu.mix();
    assert!(l > 0 && r > 0 && l == r);
}

#[test]
fn master_disable_silences_output() {
    let mut apu = apu_with_dsa();
    apu.write16(0x084, 0, 0xFFFF); // clear master enable
    apu.write_fifo(0, u32::from_le_bytes([100u8, 0, 0, 0]));
    apu.on_timer_overflow(0);
    assert_eq!(apu.mix(), (0, 0));
}

#[test]
fn generate_sample_appends_stereo_frame() {
    let mut apu = apu_with_dsa();
    apu.generate_sample();
    assert_eq!(apu.buffered_samples(), 2);
    assert_eq!(apu.take_samples().len(), 2);
    assert_eq!(apu.buffered_samples(), 0);
}

#[test]
fn fifo_reset_bit_clears_and_reads_zero() {
    let mut apu = apu_with_dsa();
    apu.write_fifo(0, 0);
    apu.write16(0x082, H_DSA_RESET, H_DSA_RESET);
    assert_eq!(apu.soundcnt_h() & H_DSA_RESET, 0); // reset bit self-clears
    apu.on_timer_overflow(0);
    assert_eq!(apu.latch[0], 0); // FIFO was cleared
}
