//! Bring-up sequencing: what goes on the wire, in which order, and how
//! faults halt the sequence.

use daisy_audio::audio::AudioConfig;
use daisy_audio::audio::AudioPeripherals;
use daisy_audio::audio::Fs;
use daisy_audio::bus::BringUpError;
use daisy_audio::bus::BusReply;
use daisy_audio::bus::CodecOp;
use daisy_audio::bus::IoStep;
use daisy_audio::codec::ak4556;
use daisy_audio::codec::pcm3060::Pcm3060;
use daisy_audio::codec::pcm3060_i2c::Pcm3060I2c;
use daisy_audio::codec::wm8731::Wm8731;

const KERNEL_CLOCK_HZ: u32 = 49_200_000;

fn all_good(n: usize) -> Vec<BusReply> {
    vec![BusReply::Done(0); n]
}

fn config() -> AudioConfig {
    AudioConfig { fs: Fs::Fs48000 }
}

#[test]
fn wm8731_setup_walks_whole_program() {
    let periph = AudioPeripherals { kernel_clock_hz: KERNEL_CLOCK_HZ };
    let replies = all_good(32);
    let (res, steps) = periph.prepare_interface::<Wm8731>(config(), &replies);
    let interface = res.expect("bring-up succeeds on a fault-free bus");
    assert_eq!(steps.len(), 17);
    // the second performed step is the reset write, as two wire bytes
    assert_eq!(steps[1], IoStep::WroteBus { dev: 0x1a, byte1: 0x1e, byte2: 0x00 });
    // the fourth is the wake: power on with the output stage still off
    assert_eq!(steps[3], IoStep::WroteBus { dev: 0x1a, byte1: 0x0c, byte2: 0x72 });
    // construction never touches an engine
    for s in &steps {
        assert!(!matches!(s, IoStep::KickedTx));
        assert!(!matches!(s, IoStep::StartedRx));
    }
    drop(interface);
}

#[test]
fn bus_fault_on_wake_write_halts_before_any_engine_start() {
    // The codec answers the reset write, then fails on the second write
    // (the wake/power step). Bring-up must halt there; the engines never
    // see a start.
    let periph = AudioPeripherals { kernel_clock_hz: KERNEL_CLOCK_HZ };
    let mut replies = all_good(32);
    replies[3] = BusReply::Fault;
    let (res, steps) = periph.prepare_interface::<Wm8731>(config(), &replies);
    assert_eq!(res.err(), Some(BringUpError::BusFault { step: 3 }));
    // only the initial delay, the reset write and its delay were performed
    assert_eq!(steps.len(), 3);
    for s in &steps {
        assert!(!matches!(s, IoStep::KickedTx));
        assert!(!matches!(s, IoStep::StartedRx));
    }
}

#[test]
fn divider_out_of_range_fails_before_the_bus() {
    let periph = AudioPeripherals { kernel_clock_hz: 1_000 };
    let replies = all_good(32);
    let (res, steps) = periph.prepare_interface::<Wm8731>(config(), &replies);
    assert_eq!(res.err(), Some(BringUpError::DividerOutOfRange));
    assert!(steps.is_empty());
}

#[test]
fn wm8731_start_powers_output_then_starts_receiver() {
    let periph = AudioPeripherals { kernel_clock_hz: KERNEL_CLOCK_HZ };
    let replies = all_good(32);
    let (res, _) = periph.prepare_interface::<Wm8731>(config(), &replies);
    let idle = res.expect("bring-up succeeds");
    let (res, steps) = idle.start_interface(&all_good(8));
    res.expect("start succeeds on a fault-free bus");
    assert_eq!(
        steps,
        vec![
            IoStep::WroteBus { dev: 0x1a, byte1: 0x0c, byte2: 0x62 },
            IoStep::WaitedMicros(10),
            IoStep::StartedRx,
        ],
    );
}

#[test]
fn follower_receiver_gets_kicked_transmitter_first() {
    // The strapped chip runs its receiver as a follower of the
    // transmitter's clock: the transmitter kick must come strictly
    // before the receiver start on the wire.
    let periph = AudioPeripherals { kernel_clock_hz: KERNEL_CLOCK_HZ };
    let (res, steps) = periph.prepare_interface::<Pcm3060>(config(), &all_good(8));
    let idle = res.expect("nothing to program, bring-up succeeds");
    assert!(steps.is_empty());
    let (res, steps) = idle.start_interface(&all_good(8));
    res.expect("start succeeds");
    assert_eq!(steps, vec![IoStep::KickedTx, IoStep::StartedRx]);
    let kick = steps.iter().position(|s| matches!(s, IoStep::KickedTx)).unwrap();
    let start = steps.iter().position(|s| matches!(s, IoStep::StartedRx)).unwrap();
    assert!(kick < start);
}

#[test]
fn engine_fault_during_kick_is_reported() {
    let periph = AudioPeripherals { kernel_clock_hz: KERNEL_CLOCK_HZ };
    let (res, _) = periph.prepare_interface::<Pcm3060>(config(), &all_good(8));
    let idle = res.expect("bring-up succeeds");
    let replies = vec![BusReply::Fault, BusReply::Done(0)];
    let (res, steps) = idle.start_interface(&replies);
    assert_eq!(res.err(), Some(BringUpError::EngineFault { step: 0 }));
    assert!(steps.is_empty());
}

#[test]
fn i2c_variant_setup_is_read_modify_write() {
    // The codec reports 0xff in every register; each write-back must
    // apply exactly the step's mask.
    let periph = AudioPeripherals { kernel_clock_hz: KERNEL_CLOCK_HZ };
    let replies = vec![BusReply::Done(0xff); 16];
    let (res, steps) = periph.prepare_interface::<Pcm3060I2c>(config(), &replies);
    res.expect("bring-up succeeds");
    assert_eq!(steps.len(), 12);
    assert_eq!(steps[0], IoStep::RmwBus { dev: 0x46, reg: 0x40, read: 0xff, wrote: 0x7f });
    assert_eq!(steps[2], IoStep::RmwBus { dev: 0x46, reg: 0x40, read: 0xff, wrote: 0xbf });
    assert_eq!(steps[4], IoStep::RmwBus { dev: 0x46, reg: 0x48, read: 0xff, wrote: 0xff });
    assert_eq!(steps[6], IoStep::RmwBus { dev: 0x46, reg: 0x43, read: 0xff, wrote: 0xff });
    assert_eq!(steps[8], IoStep::RmwBus { dev: 0x46, reg: 0x40, read: 0xff, wrote: 0xdf });
    assert_eq!(steps[10], IoStep::RmwBus { dev: 0x46, reg: 0x40, read: 0xff, wrote: 0xef });
}

#[test]
fn bus_fault_during_read_modify_write_halts() {
    let periph = AudioPeripherals { kernel_clock_hz: KERNEL_CLOCK_HZ };
    let mut replies = vec![BusReply::Done(0x00); 16];
    replies[4] = BusReply::Fault;
    let (res, steps) = periph.prepare_interface::<Pcm3060I2c>(config(), &replies);
    assert_eq!(res.err(), Some(BringUpError::BusFault { step: 4 }));
    assert_eq!(steps.len(), 4);
}

#[test]
fn i2c_variant_start_kicks_transmitter_anyway() {
    let periph = AudioPeripherals { kernel_clock_hz: KERNEL_CLOCK_HZ };
    let replies = vec![BusReply::Done(0); 16];
    let (res, _) = periph.prepare_interface::<Pcm3060I2c>(config(), &replies);
    let idle = res.expect("bring-up succeeds");
    let (res, steps) = idle.start_interface(&all_good(4));
    res.expect("start succeeds");
    assert_eq!(steps, vec![IoStep::KickedTx, IoStep::StartedRx]);
}

#[test]
fn setup_and_release_returns_running_parts() {
    let periph = AudioPeripherals { kernel_clock_hz: KERNEL_CLOCK_HZ };
    let (res, _) = periph.prepare_interface::<Wm8731>(config(), &all_good(32));
    let idle = res.expect("bring-up succeeds");
    let (res, _) = idle.setup_and_release(&all_good(8));
    let (tx, rx, bus) = res.expect("start succeeds");
    assert!(rx.running);
    assert!(!tx.running);
    assert_eq!(bus.device_addr, 0x1a);
    assert_eq!(tx.buffer.len(), daisy_audio::DMA_BUFFER_LENGTH);
    assert_eq!(rx.buffer.len(), daisy_audio::DMA_BUFFER_LENGTH);
}

#[test]
fn setup_and_release_fails_exactly_when_start_does() {
    // a fault on the very first start step (the output power write)
    let periph = AudioPeripherals { kernel_clock_hz: KERNEL_CLOCK_HZ };
    let (res, _) = periph.prepare_interface::<Wm8731>(config(), &all_good(32));
    let idle = res.expect("bring-up succeeds");
    let replies = vec![BusReply::Fault, BusReply::Done(0), BusReply::Done(0)];
    let (res, steps) = idle.setup_and_release(&replies);
    assert_eq!(res.err(), Some(BringUpError::BusFault { step: 0 }));
    assert!(steps.is_empty());
}

#[test]
fn released_transmitter_runs_where_it_was_kicked() {
    let periph = AudioPeripherals { kernel_clock_hz: KERNEL_CLOCK_HZ };
    let (res, _) = periph.prepare_interface::<Pcm3060>(config(), &all_good(8));
    let idle = res.expect("bring-up succeeds");
    let (res, steps) = idle.setup_and_release(&all_good(4));
    let (tx, rx, bus) = res.expect("start succeeds");
    assert!(tx.running);
    assert!(rx.running);
    assert_eq!(bus.device_addr, 0);
    assert_eq!(steps, vec![IoStep::KickedTx, IoStep::StartedRx]);
}

#[test]
fn reset_line_codec_pulses_reset() {
    let ops = ak4556::Codec::setup_ak4556();
    assert_eq!(
        ops,
        vec![
            CodecOp::ResetHigh,
            CodecOp::DelayMillis(1),
            CodecOp::ResetLow,
            CodecOp::DelayMillis(1),
            CodecOp::ResetHigh,
        ],
    );
}
