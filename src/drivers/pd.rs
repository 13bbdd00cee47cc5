//! Pervasive Displays small panels.

use vstd::prelude::*;
use vstd::slice::slice_to_vec;
use crate::interface::{DisplayError, Op, OpView, ops_view, command, command_data, data, repeated, reset, wait_while_busy, delay_us, no_ops, push_all, push_command, push_command_data, push_command_data_1, push_command_data_4, push_data, push_repeat, push_reset, push_wait_while_busy, push_delay_us};
use super::{Driver, FastUpdateDriver, MultiColorDriver, WaveformDriver};

verus! {

/// VCOM waveform, shared by every mode.
pub const LUT_VCOM: [u8; 44] = [
    // Level select, Number of Frames 0-3, Times to repeat
    0x00, 0x00, 0x00, 0x0A, 0x00, 0x00,
    0x00, 0x01, 0x60, 0x14, 0x14, 0x00,
    0x00, 0x01, 0x00, 0x14, 0x00, 0x00,
    0x00, 0x01, 0x00, 0x13, 0x0A, 0x00,
    0x00, 0x01, 0x00, 0x00, 0x00, 0x00,
    0x00, 0x00, 0x00, 0x00, 0x00, 0x00,
    0x00, 0x00, 0x00, 0x00, 0x00, 0x00,
    // ST_XON[6:0], ST_CHV[6:0]
    0x00, 0x00,
];

/// WW waveform loaded at wake-up.
pub const LUT_INIT_WW: [u8; 42] = [
    0b10_00_01_10, 0x06, 0x00, 0x03, 0x25, 0x01,
    0x90, 0x00, 0x14, 0x00, 0x00, 0x00,
    0x10, 0x00, 0x0A, 0x00, 0x00, 0x00,
    0xA0, 0x00, 0x00, 0x00, 0x00, 0x00,
    0x00, 0x00, 0x00, 0x00, 0x00, 0x00,
    0x00, 0x00, 0x00, 0x00, 0x00, 0x00,
    0x00, 0x00, 0x00, 0x00, 0x00, 0x00,
];

/// BW waveform loaded at wake-up.
pub const LUT_INIT_BW: [u8; 42] = [
    0b01_10_01_10, 0x0f, 0x0f, 0x0f, 0x1f, 0x00,
    0b10_00_01_10, 0x06, 0x00, 0x03, 0x25, 0x00,
    0x00, 0x00, 0x00, 0x00, 0x00, 0x00,
    0x00, 0x00, 0x00, 0x00, 0x00, 0x00,
    0x00, 0x00, 0x00, 0x00, 0x00, 0x00,
    0x00, 0x00, 0x00, 0x00, 0x00, 0x00,
    0x00, 0x00, 0x00, 0x00, 0x00, 0x00,
];

/// WB waveform loaded at wake-up.
pub const LUT_INIT_WB: [u8; 42] = [
    // LEVEL, frame0, frame1, frame2, frame3, RP
    0b10_00_01_10, 0x06, 0x00, 0x03, 0x25, 0x01,
    0b01_10_01_10, 0x0f, 0x0f, 0x0f, 0x1f, 0x00,
    0x00, 0x14, 0x0A, 0x00, 0x00, 0x00,
    0x99, 0x0B, 0x04, 0x04, 0x01, 0x00,
    0x00, 0x00, 0x00, 0x00, 0x00, 0x00,
    0x00, 0x00, 0x00, 0x00, 0x00, 0x00,
    0x00, 0x00, 0x00, 0x00, 0x00, 0x00,
];

/// BB waveform loaded at wake-up.
pub const LUT_INIT_BB: [u8; 42] = [
    0b10_01_10_01, 0x06, 0x06, 0x02, 0x2c, 0x01,
    0b01_10_01_10, 0x0f, 0x0f, 0x0f, 0x1f, 0x00,
    0x20, 0x14, 0x0A, 0x00, 0x00, 0x00,
    0x50, 0x13, 0x01, 0x00, 0x00, 0x00,
    0x00, 0x00, 0x00, 0x00, 0x00, 0x00,
    0x00, 0x00, 0x00, 0x00, 0x00, 0x00,
    0x00, 0x00, 0x00, 0x00, 0x00, 0x00,
];

/// WW waveform of the fast update.
pub const LUT_FAST_WW: [u8; 42] = [
    0b10_00_00_00, 0x0f, 0x00, 0x00, 0x00, 0x01,
    0x90, 0x00, 0x14, 0x00, 0x00, 0x00,
    0x10, 0x00, 0x0A, 0x00, 0x00, 0x00,
    0xA0, 0x00, 0x00, 0x00, 0x00, 0x00,
    0x00, 0x00, 0x00, 0x00, 0x00, 0x00,
    0x00, 0x00, 0x00, 0x00, 0x00, 0x00,
    0x00, 0x00, 0x00, 0x00, 0x00, 0x00,
];

/// BW waveform of the fast update.
pub const LUT_FAST_BW: [u8; 42] = [
    0b01_10_00_00, 0x01, 0x02, 0x00, 0x00, 0x01,
    0x00, 0x00, 0x00, 0x00, 0x00, 0x00,
    0x00, 0x00, 0x00, 0x00, 0x00, 0x00,
    0x00, 0x00, 0x00, 0x00, 0x00, 0x00,
    0x00, 0x00, 0x00, 0x00, 0x00, 0x00,
    0x00, 0x00, 0x00, 0x00, 0x00, 0x00,
    0x00, 0x00, 0x00, 0x00, 0x00, 0x00,
];

/// WB waveform of the fast update.
pub const LUT_FAST_WB: [u8; 42] = [
    // LEVEL, frame0, frame1, frame2, frame3, RP
    0b01_10_00_00, 0x01, 0x15, 0x00, 0x00, 0x01,
    0x90, 0x14, 0x14, 0x00, 0x00, 0x00,
    0x00, 0x14, 0x0A, 0x00, 0x00, 0x00,
    0x99, 0x0B, 0x04, 0x04, 0x01, 0x00,
    0x00, 0x00, 0x00, 0x00, 0x00, 0x00,
    0x00, 0x00, 0x00, 0x00, 0x00, 0x00,
    0x00, 0x00, 0x00, 0x00, 0x00, 0x00,
];

/// BB waveform of the fast update.
pub const LUT_FAST_BB: [u8; 42] = [
    0b10_01_00_00, 0x02, 0x2c, 0x00, 0x00, 0x01,
    0x90, 0x14, 0x14, 0x00, 0x00, 0x00,
    0x20, 0x14, 0x0A, 0x00, 0x00, 0x00,
    0x50, 0x13, 0x01, 0x00, 0x00, 0x00,
    0x00, 0x00, 0x00, 0x00, 0x00, 0x00,
    0x00, 0x00, 0x00, 0x00, 0x00, 0x00,
    0x00, 0x00, 0x00, 0x00, 0x00, 0x00,
];

/// WW waveform of the normal update.
pub const LUT_NORMAL_WW: [u8; 42] = [
    0x90, 0x14, 0x14, 0x00, 0x00, 0x01,
    0b10_01_10_00, 0x01, 0x03, 0x2f, 0x00, 0x01,
    0x10, 0x00, 0x0A, 0x00, 0x00, 0x00,
    0xA0, 0x00, 0x00, 0x00, 0x00, 0x00,
    0x00, 0x00, 0x00, 0x00, 0x00, 0x00,
    0x00, 0x00, 0x00, 0x00, 0x00, 0x00,
    0x00, 0x00, 0x00, 0x00, 0x00, 0x00,
];

/// BW waveform of the normal update.
pub const LUT_NORMAL_BW: [u8; 42] = [
    0x90, 0x14, 0x14, 0x00, 0x00, 0x01,
    0b10_10_10_10, 0x00, 0x00, 0x00, 0x00, 0x01,
    0x00, 0x00, 0x00, 0x00, 0x00, 0x00,
    0x00, 0x00, 0x00, 0x00, 0x00, 0x00,
    0x00, 0x00, 0x00, 0x00, 0x00, 0x00,
    0x00, 0x00, 0x00, 0x00, 0x00, 0x00,
    0x00, 0x00, 0x00, 0x00, 0x00, 0x00,
];

/// WB waveform of the normal update.
pub const LUT_NORMAL_WB: [u8; 42] = [
    // LEVEL, frame0, frame1, frame2, frame3, RP
    0x90, 0x14, 0x14, 0x00, 0x00, 0x01,
    0b10_01_10_00, 0x04, 0x01, 0x25, 0x00, 0x01,
    0x00, 0x14, 0x0A, 0x00, 0x00, 0x00,
    0x99, 0x0B, 0x04, 0x04, 0x01, 0x00,
    0x00, 0x00, 0x00, 0x00, 0x00, 0x00,
    0x00, 0x00, 0x00, 0x00, 0x00, 0x00,
    0x00, 0x00, 0x00, 0x00, 0x00, 0x00,
];

/// BB waveform of the normal update.
pub const LUT_NORMAL_BB: [u8; 42] = [
    0x90, 0x14, 0x14, 0x00, 0x00, 0x01,
    0b01_10_01_00, 0x05, 0x03, 0x20, 0x00, 0x01,
    0x20, 0x14, 0x0A, 0x00, 0x00, 0x00,
    0x50, 0x13, 0x01, 0x00, 0x00, 0x00,
    0x00, 0x00, 0x00, 0x00, 0x00, 0x00,
    0x00, 0x00, 0x00, 0x00, 0x00, 0x00,
    0x00, 0x00, 0x00, 0x00, 0x00, 0x00,
];


/// Pervasive Displays panels up to 4.37", like the IL0373 with another resolution:
/// up to 160 source x 296 gate. The busy line is low while the controller works.
pub struct PervasiveDisplays;

impl Driver for PervasiveDisplays {
    open spec fn spec_black_bit() -> bool {
        false
    }

    open spec fn spec_busy_wait() -> Seq<OpView> {
        wait_while_busy(false)
    }

    open spec fn spec_wake_up() -> Seq<OpView> {
        reset(10_000, 10_000)
        + Self::spec_busy_wait()
        + command_data(0x00, seq![0xbfu8])
        + delay_us(5_000)
        + command_data(0xe5, seq![0x19u8])
        + command_data(0xe0, seq![0x02u8])
        + command_data(0x20, LUT_VCOM@)
        + command_data(0x21, LUT_INIT_WW@)
        + command_data(0x22, LUT_INIT_BW@)
        + command_data(0x23, LUT_INIT_WB@)
        + command_data(0x24, LUT_INIT_BB@)
        + command_data(0x25, LUT_INIT_WW@)
    }

    open spec fn spec_set_shape(x: u16, y: u16) -> Seq<OpView> {
        command_data(0x61, seq![(x / 256) as u8, (x % 256) as u8, (y / 256) as u8, (y % 256) as u8])
    }

    open spec fn spec_update_frame(buffer: Seq<u8>) -> Seq<OpView> {
        command(0x10)
        + data(buffer)
        + command(0x13)
        + data(repeated(0, buffer.len()))
    }

    open spec fn spec_turn_on_display() -> Seq<OpView> {
        command_data(0x04, seq![0x00u8])
        + Self::spec_busy_wait()
        + command_data(0x12, seq![0x00u8])
        + Self::spec_busy_wait()
    }

    open spec fn spec_sleep() -> Seq<OpView> {
        command_data(0x02, seq![0x00u8])
        + delay_us(5_000)
        + Self::spec_busy_wait()
    }

    fn black_bit() -> (r: bool) {
        false
    }

    fn busy_wait() -> (r: Vec<Op>) {
        let mut ops = no_ops();
        push_wait_while_busy(&mut ops, false);
        assert(ops_view(ops@) =~= wait_while_busy(false));
        ops
    }

    fn wake_up() -> (r: Vec<Op>) {
        let mut ops = no_ops();
        push_reset(&mut ops, 10_000, 10_000);
        assert(ops_view(ops@) =~= reset(10_000, 10_000));
        push_all(&mut ops, Self::busy_wait());
        push_command_data_1(&mut ops, 0x00, 0xbf);
        push_delay_us(&mut ops, 5_000);
        push_command_data_1(&mut ops, 0xe5, 0x19);
        push_command_data_1(&mut ops, 0xe0, 0x02);
        push_command_data(&mut ops, 0x20, slice_to_vec(&LUT_VCOM));
        push_command_data(&mut ops, 0x21, slice_to_vec(&LUT_INIT_WW));
        push_command_data(&mut ops, 0x22, slice_to_vec(&LUT_INIT_BW));
        push_command_data(&mut ops, 0x23, slice_to_vec(&LUT_INIT_WB));
        push_command_data(&mut ops, 0x24, slice_to_vec(&LUT_INIT_BB));
        push_command_data(&mut ops, 0x25, slice_to_vec(&LUT_INIT_WW));
        ops
    }

    fn set_shape(x: u16, y: u16) -> (r: Vec<Op>) {
        let mut ops = no_ops();
        push_command_data_4(&mut ops, 0x61, (x / 256) as u8, (x % 256) as u8, (y / 256) as u8, (y % 256) as u8);
        assert(ops_view(ops@) =~= command_data(0x61, seq![(x / 256) as u8, (x % 256) as u8, (y / 256) as u8, (y % 256) as u8]));
        ops
    }

    fn update_frame(buffer: &[u8]) -> (r: Vec<Op>) {
        let mut ops = no_ops();
        push_command(&mut ops, 0x10);
        assert(ops_view(ops@) =~= command(0x10));
        push_data(&mut ops, slice_to_vec(buffer));
        push_command(&mut ops, 0x13);
        push_repeat(&mut ops, 0, buffer.len());
        ops
    }

    fn turn_on_display() -> (r: Vec<Op>) {
        let mut ops = no_ops();
        push_command_data_1(&mut ops, 0x04, 0x00);
        assert(ops_view(ops@) =~= command_data(0x04, seq![0x00u8]));
        push_all(&mut ops, Self::busy_wait());
        push_command_data_1(&mut ops, 0x12, 0x00);
        push_all(&mut ops, Self::busy_wait());
        ops
    }

    fn sleep() -> (r: Vec<Op>) {
        let mut ops = no_ops();
        push_command_data_1(&mut ops, 0x02, 0x00);
        assert(ops_view(ops@) =~= command_data(0x02, seq![0x00u8]));
        push_delay_us(&mut ops, 5_000);
        push_all(&mut ops, Self::busy_wait());
        ops
    }
}

impl MultiColorDriver for PervasiveDisplays {
    open spec fn spec_update_channel_frame(channel: u8, buffer: Seq<u8>) -> Seq<OpView> {
        command(if channel == 0 { 0x10 } else { 0x13 })
        + data(buffer)
    }

    fn update_channel_frame(channel: u8, buffer: &[u8]) -> (r: Result<Vec<Op>, DisplayError>) {
        if channel > 1 {
            return Err(DisplayError::InvalidChannel);
        }
        let mut ops = no_ops();
        push_command(&mut ops, if channel == 0 { 0x10 } else { 0x13 });
        assert(ops_view(ops@) =~= command(if channel == 0 { 0x10 } else { 0x13 }));
        push_data(&mut ops, slice_to_vec(buffer));
        Ok(ops)
    }
}

impl WaveformDriver for PervasiveDisplays {
    open spec fn spec_waveform_turn_on_display() -> Seq<OpView> {
        <Self as Driver>::spec_turn_on_display()
    }

    open spec fn spec_update_waveform(lut: Seq<u8>) -> Option<Seq<OpView>> {
        None
    }

    fn waveform_turn_on_display() -> (r: Vec<Op>) {
        <Self as Driver>::turn_on_display()
    }

    /// This controller takes five tables at once, so a single table is refused.
    fn update_waveform(lut: &[u8]) -> (r: Result<Vec<Op>, DisplayError>) {
        Err(DisplayError::InvalidFormatError)
    }
}

impl FastUpdateDriver for PervasiveDisplays {
    open spec fn spec_setup_fast_waveform() -> Seq<OpView> {
        command_data(0x20, LUT_VCOM@)
        + command_data(0x21, LUT_FAST_WW@)
        + command_data(0x22, LUT_FAST_BW@)
        + command_data(0x23, LUT_FAST_WB@)
        + command_data(0x24, LUT_FAST_BB@)
        + command_data(0x25, LUT_FAST_WW@)
    }

    open spec fn spec_restore_fast_normal_waveform() -> Seq<OpView> {
        command_data(0x20, LUT_VCOM@)
        + command_data(0x21, LUT_NORMAL_WW@)
        + command_data(0x22, LUT_NORMAL_BW@)
        + command_data(0x23, LUT_NORMAL_WB@)
        + command_data(0x24, LUT_NORMAL_BB@)
        + command_data(0x25, LUT_NORMAL_WW@)
    }

    fn setup_fast_waveform() -> (r: Vec<Op>) {
        let mut ops = no_ops();
        push_command_data(&mut ops, 0x20, slice_to_vec(&LUT_VCOM));
        assert(ops_view(ops@) =~= command_data(0x20, LUT_VCOM@));
        push_command_data(&mut ops, 0x21, slice_to_vec(&LUT_FAST_WW));
        push_command_data(&mut ops, 0x22, slice_to_vec(&LUT_FAST_BW));
        push_command_data(&mut ops, 0x23, slice_to_vec(&LUT_FAST_WB));
        push_command_data(&mut ops, 0x24, slice_to_vec(&LUT_FAST_BB));
        push_command_data(&mut ops, 0x25, slice_to_vec(&LUT_FAST_WW));
        ops
    }

    fn restore_normal_waveform() -> (r: Vec<Op>) {
        let mut ops = no_ops();
        push_command_data(&mut ops, 0x20, slice_to_vec(&LUT_VCOM));
        assert(ops_view(ops@) =~= command_data(0x20, LUT_VCOM@));
        push_command_data(&mut ops, 0x21, slice_to_vec(&LUT_NORMAL_WW));
        push_command_data(&mut ops, 0x22, slice_to_vec(&LUT_NORMAL_BW));
        push_command_data(&mut ops, 0x23, slice_to_vec(&LUT_NORMAL_WB));
        push_command_data(&mut ops, 0x24, slice_to_vec(&LUT_NORMAL_BB));
        push_command_data(&mut ops, 0x25, slice_to_vec(&LUT_NORMAL_WW));
        ops
    }
}

} // verus!
