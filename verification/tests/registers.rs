//! Cross-checks the register program against the chip-support crate:
//! the bytes our bring-up puts on the wire must be exactly what the
//! `wm8731` register builders produce.

use daisy_audio::audio::Fs;
use daisy_audio::bus::CodecOp;
use daisy_audio::bus::pack_frame;
use daisy_audio::bus::rmw_value;
use daisy_audio::codec::CodecProgram;
use daisy_audio::codec::wm8731::Wm8731;
use daisy_audio::codec::wm8731 as chip;

use wm8731::WM8731;
use wm8731::power_down::PowerDown;

fn final_power_settings(w: &mut PowerDown) {
    w.power_off().power_on();
    w.clock_output().power_off();
    w.oscillator().power_off();
    w.output().power_on();
    w.dac().power_on();
    w.adc().power_on();
    w.mic().power_off();
    w.line_input().power_on();
}

/// The framed register writes of the construction phase, in order.
fn framed_writes() -> Vec<(u8, u16)> {
    let program = Wm8731 { fs: Fs::Fs48000 };
    program
        .setup_ops()
        .into_iter()
        .filter_map(|op| match op {
            CodecOp::WriteFramed { addr, value } => Some((addr, value)),
            _ => None,
        })
        .collect()
}

#[test]
fn setup_registers_match_chip_crate() {
    let expected = [
        WM8731::reset(),
        WM8731::power_down(|w| {
            final_power_settings(w);
            w.output().power_off();
        }),
        WM8731::left_line_in(|w| {
            w.both().enable();
            w.mute().disable();
            w.volume().nearest_dB(0);
        }),
        WM8731::analog_audio_path(|w| {
            w.sidetone().disable();
            w.dac_select().select();
            w.bypass().disable();
            w.input_select().line_input();
            w.mute_mic().enable();
            w.mic_boost().disable();
        }),
        WM8731::digital_audio_path(|w| {
            w.dac_mut().disable();
            w.deemphasis().frequency_48();
        }),
        WM8731::digital_audio_interface_format(|w| {
            w.bit_clock_invert().no_invert();
            w.master_slave().slave();
            w.left_right_dac_clock_swap().right_channel_dac_data_right();
            w.left_right_phase().data_when_daclrc_low();
            w.bit_length().bits_24();
            w.format().left_justified();
        }),
        WM8731::sampling(|w| {
            w.core_clock_divider_select().normal();
            w.base_oversampling_rate().normal_256();
            w.sample_rate().adc_48();
            w.usb_normal().normal();
        }),
        WM8731::active().active(),
    ];
    let written = framed_writes();
    assert_eq!(written.len(), expected.len());
    for (got, want) in written.iter().zip(expected.iter()) {
        assert_eq!(got.0, want.address);
        assert_eq!(got.1, want.value);
    }
}

#[test]
fn start_register_matches_chip_crate() {
    let program = Wm8731 { fs: Fs::Fs48000 };
    let ops = program.start_ops();
    let (addr, value) = match ops[0] {
        CodecOp::WriteFramed { addr, value } => (addr, value),
        _ => panic!("start must begin with the power register write"),
    };
    let want = WM8731::power_down(final_power_settings);
    assert_eq!(addr, want.address);
    assert_eq!(value, want.value);
    assert_eq!(addr, chip::POWER_REG);
    assert_eq!(value, chip::POWER_ON);
}

#[test]
fn frame_packing_matches_wire_format() {
    // 7 address bits shifted left once, the value's ninth bit packed
    // into the low bit, then the low eight value bits.
    assert_eq!(pack_frame(15, 0), (0x1e, 0x00));
    assert_eq!(pack_frame(0, 0x117), (0x01, 0x17));
    assert_eq!(pack_frame(6, 0x072), (0x0c, 0x72));
    assert_eq!(pack_frame(9, 0x001), (0x12, 0x01));
    for addr in [0u8, 1, 7, 64, 127] {
        for value in [0u16, 1, 0xff, 0x100, 0x1ff] {
            let (b1, b2) = pack_frame(addr, value);
            assert_eq!(b1, ((addr << 1) & 0b1111_1110) | (((value >> 8) & 1) as u8));
            assert_eq!(b2, (value & 0b1111_1111) as u8);
        }
    }
}

#[test]
fn read_modify_write_sets_and_clears() {
    assert_eq!(rmw_value(0xff, 0x80, false), 0x7f);
    assert_eq!(rmw_value(0x00, 0x01, true), 0x01);
    assert_eq!(rmw_value(0x55, 0x0f, true), 0x5f);
    assert_eq!(rmw_value(0x55, 0x0f, false), 0x50);
    // settles after one application
    assert_eq!(rmw_value(rmw_value(0x9a, 0x21, true), 0x21, true), rmw_value(0x9a, 0x21, true));
}
