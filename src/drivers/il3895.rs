//! IL3895 driver.
//!
//! A CMOS active matrix bistable display driver with 150 source outputs,
//! 250 gate outputs, 1 VCOM and 1 VBD for the border.

use vstd::prelude::*;
use vstd::slice::slice_to_vec;
use crate::interface::{DisplayError, Op, OpView, ops_view, command, command_data, data, reset, wait_while_busy, no_ops, push_all, push_command, push_command_data, push_command_data_1, push_command_data_2, push_data, push_reset, push_wait_while_busy};
use super::{Driver, FastUpdateDriver, WaveformDriver};

pub mod command;

verus! {

/// Full update waveform: the slow, high-quality refresh.
pub const LUT_FULL_UPDATE: [u8; 30] = [
    // VS
    0x22, 0x55, 0xAA, 0x55, 0xAA, 0x55, 0xAA, 0x11, 0x00, 0x00,
    // PADDING
    0x00, 0x00, 0x00, 0x00, 0x00, 0x00,
    // RP TP
    0x1E, 0x1E,
    0x1E, 0x1E,
    0x1E, 0x1E,
    0x1E, 0x1E,
    0x01, 0x00,
    // PADDING
    0x00, 0x00, 0x00,
    // R3A_A, dummy line
    0x00,
];

/// Fast update waveform.
pub const LUT_FAST_UPDATE: [u8; 30] = [
    // VS
    0x18, 0x00, 0x00, 0x00, 0x00, 0x00, 0x00, 0x00, 0x00, 0x00,
    // PADDING
    0x00, 0x00, 0x00, 0x00, 0x00, 0x00,
    // RP TP
    0x0F, 0x01,
    0x00, 0x00,
    0x00, 0x00,
    0x00, 0x00,
    0x00, 0x00,
    // PADDING
    0x00, 0x00, 0x00,
    // R3A_A, dummy line
    0x00,
];

/// 150 source outputs, 250 gate outputs, B/W.
/// 30 bytes LUT, format is different from SSD1608.
/// 2in13 B/W 122x250
pub struct IL3895;

impl Driver for IL3895 {
    open spec fn spec_black_bit() -> bool {
        false
    }

    open spec fn spec_busy_wait() -> Seq<OpView> {
        wait_while_busy(true)
    }

    open spec fn spec_wake_up() -> Seq<OpView> {
        reset(200_000, 200_000)
        + Self::spec_busy_wait()
        + command_data(0x2c, seq![0xa8u8])
        + command_data(0x3a, seq![0x1au8])
        + command_data(0x3b, seq![0x08u8])
        + command_data(0x3c, seq![0x63u8])
        + command_data(0x11, seq![0x03u8])
        + command_data(0x32, LUT_FULL_UPDATE@)
    }

    open spec fn spec_set_shape(x: u16, y: u16) -> Seq<OpView> {
        command_data(0x01, seq![((y - 1) % 256) as u8, 0u8])
        + command_data(0x44, seq![0u8, (((x - 1) / 8) % 256) as u8])
        + command_data(0x45, seq![0u8, ((y - 1) % 256) as u8])
    }

    open spec fn spec_update_frame(buffer: Seq<u8>) -> Seq<OpView> {
        command_data(0x4e, seq![0x00u8])
        + command_data(0x4f, seq![0x00u8])
        + command(0x24)
        + data(buffer)
        + command(0xff)
    }

    open spec fn spec_turn_on_display() -> Seq<OpView> {
        command_data(0x22, seq![0xc4u8])
        + command(0x20)
        + command(0xff)
        + Self::spec_busy_wait()
    }

    open spec fn spec_sleep() -> Seq<OpView> {
        command_data(0x10, seq![0x01u8])
    }

    fn black_bit() -> (r: bool) {
        false
    }

    fn busy_wait() -> (r: Vec<Op>) {
        let mut ops = no_ops();
        push_wait_while_busy(&mut ops, true);
        assert(ops_view(ops@) =~= wait_while_busy(true));
        ops
    }

    fn wake_up() -> (r: Vec<Op>) {
        let mut ops = no_ops();
        push_reset(&mut ops, 200_000, 200_000);
        assert(ops_view(ops@) =~= reset(200_000, 200_000));
        push_all(&mut ops, Self::busy_wait());
        push_command_data_1(&mut ops, 0x2c, 0xa8);
        push_command_data_1(&mut ops, 0x3a, 0x1a);
        push_command_data_1(&mut ops, 0x3b, 0x08);
        push_command_data_1(&mut ops, 0x3c, 0x63);
        push_command_data_1(&mut ops, 0x11, 0x03);
        push_command_data(&mut ops, 0x32, slice_to_vec(&LUT_FULL_UPDATE));
        ops
    }

    fn set_shape(x: u16, y: u16) -> (r: Vec<Op>) {
        let mut ops = no_ops();
        push_command_data_2(&mut ops, 0x01, ((y - 1) % 256) as u8, 0);
        assert(ops_view(ops@) =~= command_data(0x01, seq![((y - 1) % 256) as u8, 0u8]));
        push_command_data_2(&mut ops, 0x44, 0, (((x - 1) / 8) % 256) as u8);
        push_command_data_2(&mut ops, 0x45, 0, ((y - 1) % 256) as u8);
        ops
    }

    fn update_frame(buffer: &[u8]) -> (r: Vec<Op>) {
        let mut ops = no_ops();
        push_command_data_1(&mut ops, 0x4e, 0x00);
        assert(ops_view(ops@) =~= command_data(0x4e, seq![0x00u8]));
        push_command_data_1(&mut ops, 0x4f, 0x00);
        push_command(&mut ops, 0x24);
        push_data(&mut ops, slice_to_vec(buffer));
        push_command(&mut ops, 0xff);
        ops
    }

    fn turn_on_display() -> (r: Vec<Op>) {
        let mut ops = no_ops();
        push_command_data_1(&mut ops, 0x22, 0xc4);
        assert(ops_view(ops@) =~= command_data(0x22, seq![0xc4u8]));
        push_command(&mut ops, 0x20);
        push_command(&mut ops, 0xff);
        push_all(&mut ops, Self::busy_wait());
        ops
    }

    fn sleep() -> (r: Vec<Op>) {
        let mut ops = no_ops();
        push_command_data_1(&mut ops, 0x10, 0x01);
        assert(ops_view(ops@) =~= command_data(0x10, seq![0x01u8]));
        ops
    }
}

impl WaveformDriver for IL3895 {
    open spec fn spec_waveform_turn_on_display() -> Seq<OpView> {
        <Self as Driver>::spec_turn_on_display()
    }

    open spec fn spec_update_waveform(lut: Seq<u8>) -> Option<Seq<OpView>> {
        Some(command_data(0x32, lut))
    }

    fn waveform_turn_on_display() -> (r: Vec<Op>) {
        <Self as Driver>::turn_on_display()
    }

    fn update_waveform(lut: &[u8]) -> (r: Result<Vec<Op>, DisplayError>) {
        let mut ops = no_ops();
        push_command_data(&mut ops, 0x32, slice_to_vec(lut));
        assert(ops_view(ops@) =~= command_data(0x32, lut@));
        Ok(ops)
    }
}

impl FastUpdateDriver for IL3895 {
    open spec fn spec_setup_fast_waveform() -> Seq<OpView> {
        command_data(0x32, LUT_FAST_UPDATE@)
    }

    open spec fn spec_restore_fast_normal_waveform() -> Seq<OpView> {
        command_data(0x32, LUT_FULL_UPDATE@)
    }

    fn setup_fast_waveform() -> (r: Vec<Op>) {
        let mut ops = no_ops();
        push_command_data(&mut ops, 0x32, slice_to_vec(&LUT_FAST_UPDATE));
        assert(ops_view(ops@) =~= command_data(0x32, LUT_FAST_UPDATE@));
        ops
    }

    fn restore_normal_waveform() -> (r: Vec<Op>) {
        let mut ops = no_ops();
        push_command_data(&mut ops, 0x32, slice_to_vec(&LUT_FULL_UPDATE));
        assert(ops_view(ops@) =~= command_data(0x32, LUT_FULL_UPDATE@));
        ops
    }
}

} // verus!
