//! SSD1619A driver in B/W or B/W/R mode.
//!
//! The red bit and the black/white bit select the LUT: (0, 0) black,
//! (0, 1) white, (1, x) red; LUT 4 drives VCOM.

use vstd::prelude::*;
use vstd::slice::slice_to_vec;
use crate::interface::{DisplayError, Op, OpView, ops_view, command, command_data, data, repeated, reset, wait_while_busy, no_ops, push_all, push_command, push_command_data, push_command_data_1, push_command_data_2, push_command_data_3, push_command_data_4, push_data, push_repeat, push_reset, push_wait_while_busy};
use super::{Driver, FastUpdateDriver, GrayScaleDriver, MultiColorDriver, WaveformDriver};
use crate::color::Gray4;

verus! {

/// Incremental waveform for 4 bit gray passes.
pub const LUT_GRAY_INCREMENTAL: [u8; 70] = [
    // VS
    // 00 – VSS
    // 01 – VSH1
    // 10 – VSL
    // 11 – VSH2
    0b01_00_00_00, 0x00, 0x00, 0x00, 0x00, 0x00, 0x00, // L0 => B
    0b00_00_00_00, 0x00, 0x00, 0x00, 0x00, 0x00, 0x00, // L1 => W
    0x00, 0x00, 0x00, 0x00, 0x00, 0x00, 0x00,
    0x00, 0x00, 0x00, 0x00, 0x00, 0x00, 0x00,
    0x00, 0x00, 0x00, 0x00, 0x00, 0x00, 0x00, // L4
    // TP0                  RP[0]
    0x01, 0x00, 0x00, 0x00, 0x00,
    0x00, 0x00, 0x00, 0x00, 0x00,
    0x00, 0x00, 0x00, 0x00, 0x00,
    0x00, 0x00, 0x00, 0x00, 0x00,
    0x00, 0x00, 0x00, 0x00, 0x00,
    0x00, 0x00, 0x00, 0x00, 0x00,
    0x00, 0x00, 0x00, 0x00, 0x00,
];

/// Waveform restored after gray passes.
pub const LUT_GRAY_RESTORE: [u8; 70] = [
    0b10_10_01_01, 0x00, 0x00, 0x00, 0x00, 0x00, 0x00, // L0 => B
    0b10_01_10_10, 0x00, 0x00, 0x00, 0x00, 0x00, 0x00, // L1 => W
    0x00, 0x00, 0x00, 0x00, 0x00, 0x00, 0x00,
    0x00, 0x00, 0x00, 0x00, 0x00, 0x00, 0x00,
    0x00, 0x00, 0x00, 0x00, 0x00, 0x00, 0x00, // L4
    // TP0                  RP[0]
    0x30, 0x00, 0x00, 0x00, 0x01,
    0x00, 0x00, 0x00, 0x00, 0x00,
    0x00, 0x00, 0x00, 0x00, 0x00,
    0x00, 0x00, 0x00, 0x00, 0x00,
    0x00, 0x00, 0x00, 0x00, 0x00,
    0x00, 0x00, 0x00, 0x00, 0x00,
    0x00, 0x00, 0x00, 0x00, 0x00,
];

/// Fast update waveform.
pub const LUT_FAST: [u8; 70] = [
    // VS
    // 00 – VSS
    // 01 – VSH1
    // 10 – VSL
    // 11 – VSH2
    0b10_01_00_00, 0x00, 0x00, 0x00, 0x00, 0x00, 0x00, // L0 => B
    0b01_10_00_00, 0x00, 0x00, 0x00, 0x00, 0x00, 0x00, // L1 => W
    0b00_00_00_00, 0x00, 0x00, 0x00, 0x00, 0x00, 0x00, // L2 => B
    0b00_00_00_00, 0x00, 0x00, 0x00, 0x00, 0x00, 0x00, // L3 => W
    0x00, 0x00, 0x00, 0x00, 0x00, 0x00, 0x00, // L4
    // TP0                  RP[0]
    0x1f, 0x00, 0x00, 0x00, 0x00,
    0x00, 0x00, 0x00, 0x00, 0x00,
    0x00, 0x00, 0x00, 0x00, 0x00,
    0x00, 0x00, 0x00, 0x00, 0x00,
    0x00, 0x00, 0x00, 0x00, 0x00,
    0x00, 0x00, 0x00, 0x00, 0x00,
    0x00, 0x00, 0x00, 0x00, 0x00,
];

/// Full update waveform.
pub const LUT_FULL: [u8; 70] = [
    0b10_10_10_10, 0b01_01_01_01, 0b01_00_00_00, 0x00, 0x00, 0x00, 0x00, // L0 => B
    0b10_10_10_10, 0b01_01_01_01, 0b10_00_00_00, 0x00, 0x00, 0x00, 0x00, // L1 => W
    0b00_00_00_00, 0x00, 0x00, 0x00, 0x00, 0x00, 0x00, // L2 => B
    0b00_00_00_00, 0x00, 0x00, 0x00, 0x00, 0x00, 0x00, // L3 => W
    0x00, 0x00, 0x00, 0x00, 0x00, 0x00, 0x00, // L4
    // TP0                  RP[0]
    0x0f, 0x00, 0x00, 0x00, 0x00,
    0x0f, 0x00, 0x00, 0x00, 0x00,
    0x1f, 0x00, 0x00, 0x00, 0x00,
    0x00, 0x00, 0x00, 0x00, 0x00,
    0x00, 0x00, 0x00, 0x00, 0x00,
    0x00, 0x00, 0x00, 0x00, 0x00,
    0x00, 0x00, 0x00, 0x00, 0x00,
];

/// Red/Black/White, or Red/Black. 400 source outputs, 300 gate outputs.
/// 70 bytes LUT table.
pub struct SSD1619A;

impl Driver for SSD1619A {
    open spec fn spec_black_bit() -> bool {
        false
    }

    open spec fn spec_busy_wait() -> Seq<OpView> {
        wait_while_busy(true)
    }

    open spec fn spec_wake_up() -> Seq<OpView> {
        reset(200_000, 200_000)
        + Self::spec_busy_wait()
        + command(0x12)
        + Self::spec_busy_wait()
        + command_data(0x74, seq![0x54u8])
        + command_data(0x7e, seq![0x3bu8])
        + command_data(0x2b, seq![0x03u8, 0x63u8])
        + command_data(0x0c, seq![0x8bu8, 0x9cu8, 0x96u8, 0x0fu8])
        + command_data(0x01, seq![0x2bu8, 0x01u8, 0x00u8])
        + command_data(0x11, seq![0x03u8])
        + command_data(0x3c, seq![0x01u8])
        + command_data(0x18, seq![0x80u8])
        + command_data(0x22, seq![0xb9u8])
        + command(0x20)
        + Self::spec_busy_wait()
    }

    open spec fn spec_set_shape(x: u16, y: u16) -> Seq<OpView> {
        command_data(0x44, seq![0u8, (((x - 1) / 8) % 256) as u8])
        + command_data(0x45, seq![0u8, 0u8, ((y - 1) % 256) as u8, ((y - 1) / 256) as u8])
        + command_data(0x4e, seq![0x00u8])
        + command_data(0x4f, seq![0x00u8, 0x00u8])
    }

    open spec fn spec_update_frame(buffer: Seq<u8>) -> Seq<OpView> {
        command_data(0x4e, seq![0x00u8])
        + command_data(0x4f, seq![0x00u8, 0x00u8])
        + command(0x24)
        + data(buffer)
        + command_data(0x4e, seq![0x00u8])
        + command_data(0x4f, seq![0x00u8, 0x00u8])
        + command(0x26)
        + data(repeated(0, buffer.len()))
    }

    open spec fn spec_turn_on_display() -> Seq<OpView> {
        command_data(0x22, seq![0xf7u8])
        + command(0x20)
        + Self::spec_busy_wait()
    }

    open spec fn spec_sleep() -> Seq<OpView> {
        command_data(0x10, seq![0x01u8])
    }

    fn black_bit() -> (r: bool) {
        false
    }

    fn busy_wait() -> (r: Vec<Op>) {
        let mut ops = no_ops();
        push_wait_while_busy(&mut ops, true);
        assert(ops_view(ops@) =~= wait_while_busy(true));
        ops
    }

    fn wake_up() -> (r: Vec<Op>) {
        let mut ops = no_ops();
        push_reset(&mut ops, 200_000, 200_000);
        assert(ops_view(ops@) =~= reset(200_000, 200_000));
        push_all(&mut ops, Self::busy_wait());
        push_command(&mut ops, 0x12);
        push_all(&mut ops, Self::busy_wait());
        push_command_data_1(&mut ops, 0x74, 0x54);
        push_command_data_1(&mut ops, 0x7e, 0x3b);
        push_command_data_2(&mut ops, 0x2b, 0x03, 0x63);
        push_command_data_4(&mut ops, 0x0c, 0x8b, 0x9c, 0x96, 0x0f);
        push_command_data_3(&mut ops, 0x01, 0x2b, 0x01, 0x00);
        push_command_data_1(&mut ops, 0x11, 0x03);
        push_command_data_1(&mut ops, 0x3c, 0x01);
        push_command_data_1(&mut ops, 0x18, 0x80);
        push_command_data_1(&mut ops, 0x22, 0xb9);
        push_command(&mut ops, 0x20);
        push_all(&mut ops, Self::busy_wait());
        ops
    }

    fn set_shape(x: u16, y: u16) -> (r: Vec<Op>) {
        let mut ops = no_ops();
        push_command_data_2(&mut ops, 0x44, 0, (((x - 1) / 8) % 256) as u8);
        assert(ops_view(ops@) =~= command_data(0x44, seq![0u8, (((x - 1) / 8) % 256) as u8]));
        push_command_data_4(&mut ops, 0x45, 0, 0, ((y - 1) % 256) as u8, ((y - 1) / 256) as u8);
        push_command_data_1(&mut ops, 0x4e, 0x00);
        push_command_data_2(&mut ops, 0x4f, 0x00, 0x00);
        ops
    }

    fn update_frame(buffer: &[u8]) -> (r: Vec<Op>) {
        let mut ops = no_ops();
        push_command_data_1(&mut ops, 0x4e, 0x00);
        assert(ops_view(ops@) =~= command_data(0x4e, seq![0x00u8]));
        push_command_data_2(&mut ops, 0x4f, 0x00, 0x00);
        push_command(&mut ops, 0x24);
        push_data(&mut ops, slice_to_vec(buffer));
        push_command_data_1(&mut ops, 0x4e, 0x00);
        push_command_data_2(&mut ops, 0x4f, 0x00, 0x00);
        push_command(&mut ops, 0x26);
        push_repeat(&mut ops, 0, buffer.len());
        ops
    }

    fn turn_on_display() -> (r: Vec<Op>) {
        let mut ops = no_ops();
        push_command_data_1(&mut ops, 0x22, 0xf7);
        assert(ops_view(ops@) =~= command_data(0x22, seq![0xf7u8]));
        push_command(&mut ops, 0x20);
        push_all(&mut ops, Self::busy_wait());
        ops
    }

    fn sleep() -> (r: Vec<Op>) {
        let mut ops = no_ops();
        push_command_data_1(&mut ops, 0x10, 0x01);
        assert(ops_view(ops@) =~= command_data(0x10, seq![0x01u8]));
        ops
    }
}

impl MultiColorDriver for SSD1619A {
    open spec fn spec_update_channel_frame(channel: u8, buffer: Seq<u8>) -> Seq<OpView> {
        command_data(0x4e, seq![0x00u8])
        + command_data(0x4f, seq![0x00u8, 0x00u8])
        + command(if channel == 0 { 0x24 } else { 0x26 })
        + data(buffer)
    }

    fn update_channel_frame(channel: u8, buffer: &[u8]) -> (r: Result<Vec<Op>, DisplayError>) {
        if channel > 1 {
            return Err(DisplayError::InvalidChannel);
        }
        let mut ops = no_ops();
        push_command_data_1(&mut ops, 0x4e, 0x00);
        assert(ops_view(ops@) =~= command_data(0x4e, seq![0x00u8]));
        push_command_data_2(&mut ops, 0x4f, 0x00, 0x00);
        push_command(&mut ops, if channel == 0 { 0x24 } else { 0x26 });
        push_data(&mut ops, slice_to_vec(buffer));
        Ok(ops)
    }
}

impl WaveformDriver for SSD1619A {
    open spec fn spec_waveform_turn_on_display() -> Seq<OpView> {
        command_data(0x22, seq![0xc5u8])
        + command(0x20)
        + Self::spec_busy_wait()
    }

    open spec fn spec_update_waveform(lut: Seq<u8>) -> Option<Seq<OpView>> {
        Some(command_data(0x32, lut))
    }

    fn waveform_turn_on_display() -> (r: Vec<Op>) {
        let mut ops = no_ops();
        push_command_data_1(&mut ops, 0x22, 0xc5);
        assert(ops_view(ops@) =~= command_data(0x22, seq![0xc5u8]));
        push_command(&mut ops, 0x20);
        push_all(&mut ops, Self::busy_wait());
        ops
    }

    fn update_waveform(lut: &[u8]) -> (r: Result<Vec<Op>, DisplayError>) {
        let mut ops = no_ops();
        push_command_data(&mut ops, 0x32, slice_to_vec(lut));
        assert(ops_view(ops@) =~= command_data(0x32, lut@));
        Ok(ops)
    }
}

impl GrayScaleDriver<Gray4> for SSD1619A {
    open spec fn spec_setup_gray_scale_waveform() -> Seq<OpView> {
        command_data(0x32, LUT_GRAY_INCREMENTAL@)
    }

    open spec fn spec_restore_gray_normal_waveform() -> Seq<OpView> {
        command_data(0x32, LUT_GRAY_RESTORE@)
    }

    fn setup_gray_scale_waveform() -> (r: Vec<Op>) {
        let mut ops = no_ops();
        push_command_data(&mut ops, 0x32, slice_to_vec(&LUT_GRAY_INCREMENTAL));
        assert(ops_view(ops@) =~= command_data(0x32, LUT_GRAY_INCREMENTAL@));
        ops
    }

    fn restore_normal_waveform() -> (r: Vec<Op>) {
        let mut ops = no_ops();
        push_command_data(&mut ops, 0x32, slice_to_vec(&LUT_GRAY_RESTORE));
        assert(ops_view(ops@) =~= command_data(0x32, LUT_GRAY_RESTORE@));
        ops
    }
}

impl FastUpdateDriver for SSD1619A {
    open spec fn spec_setup_fast_waveform() -> Seq<OpView> {
        command_data(0x32, LUT_FAST@)
        + command_data(0x03, seq![0x19u8])
        + command_data(0x04, seq![0x4bu8, 0xa8u8, 0x32u8])
        + command_data(0x3a, seq![0x1au8])
        + command_data(0x3b, seq![0x0bu8])
        + Self::spec_busy_wait()
    }

    open spec fn spec_restore_fast_normal_waveform() -> Seq<OpView> {
        command_data(0x32, LUT_FULL@)
    }

    fn setup_fast_waveform() -> (r: Vec<Op>) {
        let mut ops = no_ops();
        push_command_data(&mut ops, 0x32, slice_to_vec(&LUT_FAST));
        assert(ops_view(ops@) =~= command_data(0x32, LUT_FAST@));
        push_command_data_1(&mut ops, 0x03, 0x19);
        push_command_data_3(&mut ops, 0x04, 0x4b, 0xa8, 0x32);
        push_command_data_1(&mut ops, 0x3a, 0x1a);
        push_command_data_1(&mut ops, 0x3b, 0x0b);
        push_all(&mut ops, Self::busy_wait());
        ops
    }

    fn restore_normal_waveform() -> (r: Vec<Op>) {
        let mut ops = no_ops();
        push_command_data(&mut ops, 0x32, slice_to_vec(&LUT_FULL));
        assert(ops_view(ops@) =~= command_data(0x32, LUT_FULL@));
        ops
    }
}

} // verus!
