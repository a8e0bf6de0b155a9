//! The block-transfer loop: pass-through behaviour, fault handling, and
//! the delivered-block count.

use daisy_audio::HALF_DMA_BUFFER_LENGTH;
use daisy_audio::audio::AudioConfig;
use daisy_audio::audio::AudioPeripherals;
use daisy_audio::audio::Fs;
use daisy_audio::audio::Interface;
use daisy_audio::audio::Running;
use daisy_audio::bus::BusReply;
use daisy_audio::codec::wm8731::Wm8731;
use daisy_audio::sai::ReadOutcome;
use daisy_audio::sai::TransferError;
use daisy_audio::sai::WriteOutcome;

fn running_interface() -> Interface<Wm8731, Running> {
    let periph = AudioPeripherals { kernel_clock_hz: 49_200_000 };
    let replies = vec![BusReply::Done(0); 32];
    let (res, _) = periph.prepare_interface::<Wm8731>(AudioConfig { fs: Fs::Fs48000 }, &replies);
    // the transfer loop exists only on the Running interface that
    // start_interface hands back; an Idle interface has no such method
    let idle = res.expect("bring-up succeeds");
    let (res, _) = idle.start_interface(&replies);
    res.expect("start succeeds")
}

fn ramp(from: u32) -> Vec<u32> {
    (from..from + HALF_DMA_BUFFER_LENGTH as u32).collect()
}

fn accepted(n: usize) -> Vec<WriteOutcome> {
    vec![WriteOutcome::Accepted; n]
}

#[test]
fn identity_callback_returns_blocks_unchanged() {
    let mut audio = running_interface();
    let blocks = [ramp(0), ramp(100), ramp(200)];
    let reads: Vec<ReadOutcome> = blocks.iter().cloned().map(ReadOutcome::Block).collect();
    let (outputs, err) = audio.start_callback(&reads, &accepted(3), |b: Vec<u32>| b);
    assert_eq!(err, None);
    assert_eq!(outputs.len(), 3);
    for (out, input) in outputs.iter().zip(blocks.iter()) {
        assert_eq!(out, input);
    }
}

#[test]
fn gain_callback_is_applied_per_block() {
    let mut audio = running_interface();
    let reads = vec![ReadOutcome::Block(ramp(1))];
    let (outputs, err) = audio.start_callback(&reads, &accepted(1), |b: Vec<u32>| {
        b.iter().map(|s| s * 2).collect()
    });
    assert_eq!(err, None);
    assert_eq!(outputs.len(), 1);
    let expected: Vec<u32> = ramp(1).iter().map(|s| s * 2).collect();
    assert_eq!(outputs[0], expected);
}

#[test]
fn read_fault_on_fifth_block_ends_loop_after_four() {
    let mut audio = running_interface();
    let mut reads: Vec<ReadOutcome> = (0..4).map(|i| ReadOutcome::Block(ramp(i * 10))).collect();
    reads.push(ReadOutcome::Fault(TransferError::Overrun));
    reads.push(ReadOutcome::Block(ramp(500)));
    let (outputs, err) = audio.start_callback(&reads, &accepted(6), |b: Vec<u32>| b);
    assert_eq!(err, Some(TransferError::Overrun));
    assert_eq!(outputs.len(), 4);
    for (i, out) in outputs.iter().enumerate() {
        assert_eq!(*out, ramp(i as u32 * 10));
    }
}

#[test]
fn write_fault_ends_loop_after_its_block() {
    let mut audio = running_interface();
    let reads: Vec<ReadOutcome> = (0..3).map(|i| ReadOutcome::Block(ramp(i))).collect();
    let writes = vec![WriteOutcome::Accepted, WriteOutcome::Fault(TransferError::Underrun),
        WriteOutcome::Accepted];
    let (outputs, err) = audio.start_callback(&reads, &writes, |b: Vec<u32>| b);
    assert_eq!(err, Some(TransferError::Underrun));
    // the callback had already run for the faulted iteration
    assert_eq!(outputs.len(), 2);
}

#[test]
fn configuration_fault_is_passed_through() {
    let mut audio = running_interface();
    let reads = vec![ReadOutcome::Fault(TransferError::ConfigFault)];
    let (outputs, err) = audio.start_callback(&reads, &accepted(1), |b: Vec<u32>| b);
    assert_eq!(err, Some(TransferError::ConfigFault));
    assert!(outputs.is_empty());
}

#[test]
fn empty_script_delivers_nothing() {
    let mut audio = running_interface();
    let (outputs, err) = audio.start_callback(&Vec::new(), &Vec::new(), |b: Vec<u32>| b);
    assert_eq!(err, None);
    assert!(outputs.is_empty());
}

#[test]
fn configs_agree_on_frame_geometry() {
    let audio = running_interface();
    let tx = audio.sai_tx_config();
    let rx = audio.sai_rx_config();
    assert_eq!(tx.frame_length, rx.frame_length);
    assert_eq!(tx.frame_length, 64);
    assert_eq!(tx.data_size, rx.data_size);
    assert_eq!(tx.data_size, 24);
    assert_eq!(tx.master_clock_divider, rx.master_clock_divider);
    assert_eq!(tx.master_clock_divider.factor(), 4);
}
