//! The transfer-engine model: zero-initialised double buffers, half
//! alternation, and the per-chip configurations.

use daisy_audio::DMA_BUFFER_LENGTH;
use daisy_audio::HALF_DMA_BUFFER_LENGTH;
use daisy_audio::audio::Fs;
use daisy_audio::audio::MasterClockDivider;
use daisy_audio::codec::pcm3060::Pcm3060;
use daisy_audio::codec::wm8731::Wm8731;
use daisy_audio::sai::SaiConfig;
use daisy_audio::sai::SaiDir;
use daisy_audio::sai::SaiEngine;
use daisy_audio::sai::SaiMode;
use daisy_audio::sai::SyncInput;

type Wm8731Codec = daisy_audio::codec::Codec<Wm8731>;
type Pcm3060Codec = daisy_audio::codec::Codec<Pcm3060>;

fn block(fill: u32) -> Vec<u32> {
    vec![fill; HALF_DMA_BUFFER_LENGTH]
}

#[test]
fn fresh_engine_is_zeroed_and_stopped() {
    let engine = SaiEngine::new(SaiConfig::base(MasterClockDivider::Div4));
    assert_eq!(engine.buffer.len(), DMA_BUFFER_LENGTH);
    assert!(engine.buffer.iter().all(|w| *w == 0));
    assert!(!engine.running);
    assert!(!engine.next_half);
}

#[test]
fn delivered_blocks_alternate_halves() {
    let mut engine = SaiEngine::new(SaiConfig::base(MasterClockDivider::Div4));
    let first = engine.deliver_block(&block(7));
    assert_eq!(first, block(7));
    assert!(engine.next_half);
    assert!(engine.buffer[..HALF_DMA_BUFFER_LENGTH].iter().all(|w| *w == 7));
    assert!(engine.buffer[HALF_DMA_BUFFER_LENGTH..].iter().all(|w| *w == 0));

    let second = engine.deliver_block(&block(9));
    assert_eq!(second, block(9));
    assert!(!engine.next_half);
    assert!(engine.buffer[..HALF_DMA_BUFFER_LENGTH].iter().all(|w| *w == 7));
    assert!(engine.buffer[HALF_DMA_BUFFER_LENGTH..].iter().all(|w| *w == 9));
}

#[test]
fn queued_blocks_fill_the_transmit_half() {
    let mut engine = SaiEngine::new(SaiConfig::base(MasterClockDivider::Div4));
    engine.accept_block(&block(3));
    assert!(engine.next_half);
    assert!(engine.buffer[..HALF_DMA_BUFFER_LENGTH].iter().all(|w| *w == 3));
    assert!(engine.buffer[HALF_DMA_BUFFER_LENGTH..].iter().all(|w| *w == 0));
}

#[test]
fn bus_codec_clocks_from_its_receiver() {
    let codec = Wm8731Codec::new(Fs::Fs48000, MasterClockDivider::Div4);
    assert_eq!(codec.sai_rx.config.mode, SaiMode::Master);
    assert!(codec.sai_rx.config.sync_output);
    assert_eq!(codec.sai_rx.config.tx_rx, SaiDir::Receiver);
    assert_eq!(codec.sai_tx.config.mode, SaiMode::Slave);
    assert_eq!(codec.sai_tx.config.sync_input, SyncInput::Internal);
    assert_eq!(codec.sai_tx.config.tx_rx, SaiDir::Transmitter);
    assert!(!codec.sai_tx.running);
    assert!(!codec.sai_rx.running);
}

#[test]
fn strapped_codec_clocks_from_its_transmitter() {
    let codec = Pcm3060Codec::new(Fs::Fs48000, MasterClockDivider::Div4);
    assert_eq!(codec.sai_tx.config.mode, SaiMode::Master);
    assert!(codec.sai_tx.config.sync_output);
    assert_eq!(codec.sai_rx.config.mode, SaiMode::Slave);
    assert_eq!(codec.sai_rx.config.sync_input, SyncInput::Internal);
}

#[test]
fn released_parts_carry_their_configurations() {
    let codec = Wm8731Codec::new(Fs::Fs44100, MasterClockDivider::Div8);
    let (tx, rx, bus) = codec.release();
    assert_eq!(tx.config.master_clock_divider, MasterClockDivider::Div8);
    assert_eq!(rx.config.master_clock_divider, MasterClockDivider::Div8);
    assert_eq!(bus.device_addr, 0x1a);
}
