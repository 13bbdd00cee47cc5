//! SSD1608 driver (also sold as IL3820).

use vstd::prelude::*;
use vstd::slice::slice_to_vec;
use crate::interface::{DisplayError, Op, OpView, ops_view, command, command_data, data, reset, wait_while_busy, no_ops, push_all, push_command, push_command_data, push_command_data_1, push_command_data_2, push_command_data_3, push_command_data_4, push_data, push_reset, push_wait_while_busy};
use super::{Driver, GrayScaleDriver, WaveformDriver};
use crate::color::{Gray2, Gray3, Gray4};

verus! {

/// Full update waveform.
pub const LUT_FULL_UPDATE: [u8; 30] = [
    0x50, 0xAA, 0x55, 0xAA, 0x11,
    0x00, 0x00, 0x00, 0x00, 0x00,
    0x00, 0x00, 0x00, 0x00, 0x00,
    0x00, 0x00, 0x00, 0x00, 0x00,

    0xFF, 0xFF, 0x1F, 0x00,
    0x00, 0x00, 0x00, 0x00,

    0x00, 0x00,
];

/// Fast update waveform, loaded at wake-up.
pub const LUT_FAST_UPDATE: [u8; 30] = [
    //0x22, 0x55, 0xAA, 0x55, 0xAA, 0x55, 0xAA, 0x11,
    //0x00, 0x00, 0x00, 0x00, 0x00, 0x00, 0x00, 0x00,
    //0x1E, 0x1E, 0x1E, 0x1E, 0x1E, 0x1E, 0x1E, 0x1E,
    //0x01, 0x00, 0x00, 0x00, 0x00, 0x00
    // VS
    // fast update
    0b10_01_10_01,
    // 0x22,
    0x00,
                0x00, 0x00, 0x00,
    0x00, 0x00, 0x00, 0x00, 0x00,
    0x00, 0x00, 0x00, 0x00, 0x00,
    0x00, 0x00, 0x00, 0x00, 0x00,
    // TP
    0x0a, 0x00, 0x00, 0x00,
    0x00, 0x00, 0x00, 0x00,

    0x00, 0x00
];

/// Incremental waveform for 2 bit gray passes.
pub const LUT_INCREMENTAL_DIV_2: [u8; 30] = [
    // VS
    // incremental update
    0b00_01_00_01,
          0x00, 0x00, 0x00, 0x00,
    0x00, 0x00, 0x00, 0x00, 0x00,
    0x00, 0x00, 0x00, 0x00, 0x00,
    0x00, 0x00, 0x00, 0x00, 0x00,
    // TP
    0x03, 0x00, 0x00, 0x00,
    0x00, 0x00, 0x00, 0x00,

    0x00, 0x00
];

/// Incremental waveform for 3 and 4 bit gray passes.
pub const LUT_INCREMENTAL_DIV_16: [u8; 30] = [
    // VS
    // incremental update
    0b00_01_00_01,
          0x00, 0x00, 0x00, 0x00,
    0x00, 0x00, 0x00, 0x00, 0x00,
    0x00, 0x00, 0x00, 0x00, 0x00,
    0x00, 0x00, 0x00, 0x00, 0x00,
    // TP
    0x01, 0x00, 0x00, 0x00,
    0x00, 0x00, 0x00, 0x00,

    0x00, 0x00
];

/// B/W 240 x 320
pub struct SSD1608;

impl Driver for SSD1608 {
    open spec fn spec_black_bit() -> bool {
        false
    }

    open spec fn spec_busy_wait() -> Seq<OpView> {
        wait_while_busy(true)
    }

    open spec fn spec_wake_up() -> Seq<OpView> {
        reset(200_000, 200_000)
        + Self::spec_busy_wait()
        + command(0x12)
        + Self::spec_busy_wait()
        + command_data(0x0c, seq![0xd7u8, 0xd6u8, 0x9du8])
        + command_data(0x2c, seq![0x7cu8])
        + command_data(0x3a, seq![0x1au8])
        + command_data(0x3b, seq![0x08u8])
        + command_data(0x3c, seq![0xe0u8])
        + command_data(0x11, seq![0x03u8])
        + command_data(0x32, LUT_FAST_UPDATE@)
    }

    open spec fn spec_set_shape(x: u16, y: u16) -> Seq<OpView> {
        command_data(0x01, seq![((y - 1) % 256) as u8, ((y - 1) / 256) as u8, 0u8])
        + command_data(0x44, seq![0u8, (((x - 1) / 8) % 256) as u8])
        + command_data(0x45, seq![0u8, 0u8, ((y - 1) % 256) as u8, ((y - 1) / 256) as u8])
    }

    open spec fn spec_update_frame(buffer: Seq<u8>) -> Seq<OpView> {
        command_data(0x4e, seq![0x00u8])
        + command_data(0x4f, seq![0x00u8, 0x00u8])
        + command(0x24)
        + data(buffer)
        + command(0xff)
    }

    open spec fn spec_turn_on_display() -> Seq<OpView> {
        command_data(0x22, seq![0xc4u8])
        + command(0x20)
        + command(0xff)
        + Self::spec_busy_wait()
    }

    open spec fn spec_sleep() -> Seq<OpView> {
        command_data(0x10, seq![0x01u8])
    }

    fn black_bit() -> (r: bool) {
        false
    }

    fn busy_wait() -> (r: Vec<Op>) {
        let mut ops = no_ops();
        push_wait_while_busy(&mut ops, true);
        assert(ops_view(ops@) =~= wait_while_busy(true));
        ops
    }

    fn wake_up() -> (r: Vec<Op>) {
        let mut ops = no_ops();
        push_reset(&mut ops, 200_000, 200_000);
        assert(ops_view(ops@) =~= reset(200_000, 200_000));
        push_all(&mut ops, Self::busy_wait());
        push_command(&mut ops, 0x12);
        push_all(&mut ops, Self::busy_wait());
        push_command_data_3(&mut ops, 0x0c, 0xd7, 0xd6, 0x9d);
        push_command_data_1(&mut ops, 0x2c, 0x7c);
        push_command_data_1(&mut ops, 0x3a, 0x1a);
        push_command_data_1(&mut ops, 0x3b, 0x08);
        push_command_data_1(&mut ops, 0x3c, 0xe0);
        push_command_data_1(&mut ops, 0x11, 0x03);
        push_command_data(&mut ops, 0x32, slice_to_vec(&LUT_FAST_UPDATE));
        ops
    }

    fn set_shape(x: u16, y: u16) -> (r: Vec<Op>) {
        let mut ops = no_ops();
        push_command_data_3(&mut ops, 0x01, ((y - 1) % 256) as u8, ((y - 1) / 256) as u8, 0);
        assert(ops_view(ops@) =~= command_data(0x01, seq![((y - 1) % 256) as u8, ((y - 1) / 256) as u8, 0u8]));
        push_command_data_2(&mut ops, 0x44, 0, (((x - 1) / 8) % 256) as u8);
        push_command_data_4(&mut ops, 0x45, 0, 0, ((y - 1) % 256) as u8, ((y - 1) / 256) as u8);
        ops
    }

    fn update_frame(buffer: &[u8]) -> (r: Vec<Op>) {
        let mut ops = no_ops();
        push_command_data_1(&mut ops, 0x4e, 0x00);
        assert(ops_view(ops@) =~= command_data(0x4e, seq![0x00u8]));
        push_command_data_2(&mut ops, 0x4f, 0x00, 0x00);
        push_command(&mut ops, 0x24);
        push_data(&mut ops, slice_to_vec(buffer));
        push_command(&mut ops, 0xff);
        ops
    }

    fn turn_on_display() -> (r: Vec<Op>) {
        let mut ops = no_ops();
        push_command_data_1(&mut ops, 0x22, 0xc4);
        assert(ops_view(ops@) =~= command_data(0x22, seq![0xc4u8]));
        push_command(&mut ops, 0x20);
        push_command(&mut ops, 0xff);
        push_all(&mut ops, Self::busy_wait());
        ops
    }

    fn sleep() -> (r: Vec<Op>) {
        let mut ops = no_ops();
        push_command_data_1(&mut ops, 0x10, 0x01);
        assert(ops_view(ops@) =~= command_data(0x10, seq![0x01u8]));
        ops
    }
}

/// Fast update driver for SSD1608
pub struct SSD1608Fast;

impl Driver for SSD1608Fast {
    open spec fn spec_black_bit() -> bool {
        false
    }

    open spec fn spec_busy_wait() -> Seq<OpView> {
        wait_while_busy(true)
    }

    open spec fn spec_wake_up() -> Seq<OpView> {
        SSD1608::spec_wake_up()
        + command_data(0x32, LUT_FAST_UPDATE@)
    }

    open spec fn spec_set_shape(x: u16, y: u16) -> Seq<OpView> {
        SSD1608::spec_set_shape(x, y)
    }

    open spec fn spec_update_frame(buffer: Seq<u8>) -> Seq<OpView> {
        SSD1608::spec_update_frame(buffer)
    }

    open spec fn spec_turn_on_display() -> Seq<OpView> {
        <SSD1608 as Driver>::spec_turn_on_display()
    }

    open spec fn spec_sleep() -> Seq<OpView> {
        Seq::empty()
    }

    fn black_bit() -> (r: bool) {
        false
    }

    fn busy_wait() -> (r: Vec<Op>) {
        let mut ops = no_ops();
        push_wait_while_busy(&mut ops, true);
        assert(ops_view(ops@) =~= wait_while_busy(true));
        ops
    }

    fn wake_up() -> (r: Vec<Op>) {
        let mut ops = no_ops();
        push_all(&mut ops, SSD1608::wake_up());
        assert(ops_view(ops@) =~= SSD1608::spec_wake_up());
        push_command_data(&mut ops, 0x32, slice_to_vec(&LUT_FAST_UPDATE));
        ops
    }

    fn set_shape(x: u16, y: u16) -> (r: Vec<Op>) {
        SSD1608::set_shape(x, y)
    }

    fn update_frame(buffer: &[u8]) -> (r: Vec<Op>) {
        SSD1608::update_frame(buffer)
    }

    fn turn_on_display() -> (r: Vec<Op>) {
        <SSD1608 as Driver>::turn_on_display()
    }

    fn sleep() -> (r: Vec<Op>) {
        no_ops()
    }
}

impl WaveformDriver for SSD1608 {
    open spec fn spec_waveform_turn_on_display() -> Seq<OpView> {
        <Self as Driver>::spec_turn_on_display()
    }

    open spec fn spec_update_waveform(lut: Seq<u8>) -> Option<Seq<OpView>> {
        Some(command_data(0x32, lut))
    }

    fn waveform_turn_on_display() -> (r: Vec<Op>) {
        <Self as Driver>::turn_on_display()
    }

    fn update_waveform(lut: &[u8]) -> (r: Result<Vec<Op>, DisplayError>) {
        let mut ops = no_ops();
        push_command_data(&mut ops, 0x32, slice_to_vec(lut));
        assert(ops_view(ops@) =~= command_data(0x32, lut@));
        Ok(ops)
    }
}

impl GrayScaleDriver<Gray2> for SSD1608 {
    open spec fn spec_setup_gray_scale_waveform() -> Seq<OpView> {
        command_data(0x32, LUT_INCREMENTAL_DIV_2@)
    }

    open spec fn spec_restore_gray_normal_waveform() -> Seq<OpView> {
        command_data(0x32, LUT_FULL_UPDATE@)
    }

    fn setup_gray_scale_waveform() -> (r: Vec<Op>) {
        let mut ops = no_ops();
        push_command_data(&mut ops, 0x32, slice_to_vec(&LUT_INCREMENTAL_DIV_2));
        assert(ops_view(ops@) =~= command_data(0x32, LUT_INCREMENTAL_DIV_2@));
        ops
    }

    fn restore_normal_waveform() -> (r: Vec<Op>) {
        let mut ops = no_ops();
        push_command_data(&mut ops, 0x32, slice_to_vec(&LUT_FULL_UPDATE));
        assert(ops_view(ops@) =~= command_data(0x32, LUT_FULL_UPDATE@));
        ops
    }
}

impl GrayScaleDriver<Gray3> for SSD1608 {
    open spec fn spec_setup_gray_scale_waveform() -> Seq<OpView> {
        command_data(0x04, seq![0x00u8])
        + command_data(0x32, LUT_INCREMENTAL_DIV_16@)
    }

    open spec fn spec_restore_gray_normal_waveform() -> Seq<OpView> {
        command_data(0x32, LUT_FULL_UPDATE@)
    }

    fn setup_gray_scale_waveform() -> (r: Vec<Op>) {
        let mut ops = no_ops();
        push_command_data_1(&mut ops, 0x04, 0x00);
        assert(ops_view(ops@) =~= command_data(0x04, seq![0x00u8]));
        push_command_data(&mut ops, 0x32, slice_to_vec(&LUT_INCREMENTAL_DIV_16));
        ops
    }

    fn restore_normal_waveform() -> (r: Vec<Op>) {
        let mut ops = no_ops();
        push_command_data(&mut ops, 0x32, slice_to_vec(&LUT_FULL_UPDATE));
        assert(ops_view(ops@) =~= command_data(0x32, LUT_FULL_UPDATE@));
        ops
    }
}

impl GrayScaleDriver<Gray4> for SSD1608 {
    open spec fn spec_setup_gray_scale_waveform() -> Seq<OpView> {
        command_data(0x2c, seq![0xb8u8])
        + command_data(0x04, seq![0x00u8])
        + command_data(0x3b, seq![0x00u8])
        + command_data(0x32, LUT_INCREMENTAL_DIV_16@)
    }

    open spec fn spec_restore_gray_normal_waveform() -> Seq<OpView> {
        command_data(0x32, LUT_FULL_UPDATE@)
    }

    fn setup_gray_scale_waveform() -> (r: Vec<Op>) {
        let mut ops = no_ops();
        push_command_data_1(&mut ops, 0x2c, 0xb8);
        assert(ops_view(ops@) =~= command_data(0x2c, seq![0xb8u8]));
        push_command_data_1(&mut ops, 0x04, 0x00);
        push_command_data_1(&mut ops, 0x3b, 0x00);
        push_command_data(&mut ops, 0x32, slice_to_vec(&LUT_INCREMENTAL_DIV_16));
        ops
    }

    fn restore_normal_waveform() -> (r: Vec<Op>) {
        let mut ops = no_ops();
        push_command_data(&mut ops, 0x32, slice_to_vec(&LUT_FULL_UPDATE));
        assert(ops_view(ops@) =~= command_data(0x32, LUT_FULL_UPDATE@));
        ops
    }
}

} // verus!
