//! SSD1675B driver

use vstd::prelude::*;
use vstd::slice::slice_to_vec;
use crate::interface::{DisplayError, Op, OpView, ops_view, command, command_data, data, repeated, reset, wait_while_busy, no_ops, push_all, push_command, push_command_data, push_command_data_1, push_command_data_2, push_command_data_3, push_command_data_4, push_data, push_repeat, push_reset, push_wait_while_busy};
use super::{Driver, FastUpdateDriver, MultiColorDriver, WaveformDriver};

verus! {

/// Update waveform, used for both fast and normal updates.
pub const LUT_UPDATE: [u8; 105] = [
    // VS
    0x2A, 0x05, 0x00, 0x00, 0x00, 0x00, 0x00, 0x00, 0x00, 0x00, //1
    0x05, 0x2A, 0x00, 0x00, 0x00, 0x00, 0x00, 0x00, 0x00, 0x00, //2
    0x2A, 0x15, 0x00, 0x00, 0x00, 0x00, 0x00, 0x00, 0x00, 0x00, //3
    0x05, 0x0A, 0x00, 0x00, 0x00, 0x00, 0x00, 0x00, 0x00, 0x00, //4
    0x00, 0x00, 0x00, 0x00, 0x00, 0x00, 0x00, 0x00, 0x00, 0x00, //5

    0x00, 0x02, 0x03, 0x0A, 0x00, 0x02, 0x06, 0x0A, 0x05, 0x00, //6
    0x00, 0x00, 0x00, 0x00, 0x00, 0x00, 0x00, 0x00, 0x00, 0x00, //7
    0x00, 0x00, 0x00, 0x00, 0x00, 0x00, 0x00, 0x00, 0x00, 0x00, //8
    0x00, 0x00, 0x00, 0x00, 0x00, 0x00, 0x00, 0x00, 0x00, 0x00, //9
    0x00, 0x00, 0x00, 0x00, 0x00, 0x00, 0x00, 0x00, 0x00, 0x00, //10
    0x22, 0x22, 0x22, 0x22, 0x22,
];

/// 160 Source x 296 Gate Red/Black/White.
/// 100 bytes LUT. almost the same as SSD1619A.
pub struct SSD1675B;

impl Driver for SSD1675B {
    open spec fn spec_black_bit() -> bool {
        false
    }

    open spec fn spec_busy_wait() -> Seq<OpView> {
        wait_while_busy(true)
    }

    open spec fn spec_wake_up() -> Seq<OpView> {
        reset(200_000, 200_000)
        + Self::spec_busy_wait()
        + command(0x12)
        + Self::spec_busy_wait()
        + command_data(0x74, seq![0x54u8])
        + command_data(0x7e, seq![0x3bu8])
        + command_data(0x2b, seq![0x03u8, 0x63u8])
        + command_data(0x0c, seq![0x8bu8, 0x9cu8, 0x96u8, 0x0fu8])
        + command_data(0x01, seq![0x2bu8, 0x01u8, 0x00u8])
        + command_data(0x11, seq![0x03u8])
        + command_data(0x3c, seq![0x01u8])
        + command_data(0x18, seq![0x80u8])
        + command_data(0x22, seq![0xb9u8])
        + command(0x20)
        + Self::spec_busy_wait()
        + command_data(0x4e, seq![0x00u8])
        + command_data(0x4f, seq![0x00u8, 0x00u8])
        + command(0x26)
        + data(repeated(0x00, 5920))
    }

    open spec fn spec_set_shape(x: u16, y: u16) -> Seq<OpView> {
        command_data(0x44, seq![0u8, (((x - 1) / 8) % 256) as u8])
        + command_data(0x45, seq![0u8, 0u8, ((y - 1) % 256) as u8, ((y - 1) / 256) as u8])
    }

    open spec fn spec_update_frame(buffer: Seq<u8>) -> Seq<OpView> {
        command_data(0x4e, seq![0x00u8])
        + command_data(0x4f, seq![0x00u8, 0x00u8])
        + command(0x24)
        + data(buffer)
    }

    open spec fn spec_turn_on_display() -> Seq<OpView> {
        command_data(0x22, seq![0xf7u8])
        + command(0x20)
        + Self::spec_busy_wait()
    }

    open spec fn spec_sleep() -> Seq<OpView> {
        Seq::empty()
    }

    fn black_bit() -> (r: bool) {
        false
    }

    fn busy_wait() -> (r: Vec<Op>) {
        let mut ops = no_ops();
        push_wait_while_busy(&mut ops, true);
        assert(ops_view(ops@) =~= wait_while_busy(true));
        ops
    }

    fn wake_up() -> (r: Vec<Op>) {
        let mut ops = no_ops();
        push_reset(&mut ops, 200_000, 200_000);
        assert(ops_view(ops@) =~= reset(200_000, 200_000));
        push_all(&mut ops, Self::busy_wait());
        push_command(&mut ops, 0x12);
        push_all(&mut ops, Self::busy_wait());
        push_command_data_1(&mut ops, 0x74, 0x54);
        push_command_data_1(&mut ops, 0x7e, 0x3b);
        push_command_data_2(&mut ops, 0x2b, 0x03, 0x63);
        push_command_data_4(&mut ops, 0x0c, 0x8b, 0x9c, 0x96, 0x0f);
        push_command_data_3(&mut ops, 0x01, 0x2b, 0x01, 0x00);
        push_command_data_1(&mut ops, 0x11, 0x03);
        push_command_data_1(&mut ops, 0x3c, 0x01);
        push_command_data_1(&mut ops, 0x18, 0x80);
        push_command_data_1(&mut ops, 0x22, 0xb9);
        push_command(&mut ops, 0x20);
        push_all(&mut ops, Self::busy_wait());
        push_command_data_1(&mut ops, 0x4e, 0x00);
        push_command_data_2(&mut ops, 0x4f, 0x00, 0x00);
        push_command(&mut ops, 0x26);
        push_repeat(&mut ops, 0x00, 5920);
        ops
    }

    fn set_shape(x: u16, y: u16) -> (r: Vec<Op>) {
        let mut ops = no_ops();
        push_command_data_2(&mut ops, 0x44, 0, (((x - 1) / 8) % 256) as u8);
        assert(ops_view(ops@) =~= command_data(0x44, seq![0u8, (((x - 1) / 8) % 256) as u8]));
        push_command_data_4(&mut ops, 0x45, 0, 0, ((y - 1) % 256) as u8, ((y - 1) / 256) as u8);
        ops
    }

    fn update_frame(buffer: &[u8]) -> (r: Vec<Op>) {
        let mut ops = no_ops();
        push_command_data_1(&mut ops, 0x4e, 0x00);
        assert(ops_view(ops@) =~= command_data(0x4e, seq![0x00u8]));
        push_command_data_2(&mut ops, 0x4f, 0x00, 0x00);
        push_command(&mut ops, 0x24);
        push_data(&mut ops, slice_to_vec(buffer));
        ops
    }

    fn turn_on_display() -> (r: Vec<Op>) {
        let mut ops = no_ops();
        push_command_data_1(&mut ops, 0x22, 0xf7);
        assert(ops_view(ops@) =~= command_data(0x22, seq![0xf7u8]));
        push_command(&mut ops, 0x20);
        push_all(&mut ops, Self::busy_wait());
        ops
    }

    fn sleep() -> (r: Vec<Op>) {
        no_ops()
    }
}

impl MultiColorDriver for SSD1675B {
    open spec fn spec_update_channel_frame(channel: u8, buffer: Seq<u8>) -> Seq<OpView> {
        command_data(0x4e, seq![0x00u8])
        + command_data(0x4f, seq![0x00u8, 0x00u8])
        + command(if channel == 0 { 0x24 } else { 0x26 })
        + data(buffer)
    }

    fn update_channel_frame(channel: u8, buffer: &[u8]) -> (r: Result<Vec<Op>, DisplayError>) {
        if channel > 1 {
            return Err(DisplayError::InvalidChannel);
        }
        let mut ops = no_ops();
        push_command_data_1(&mut ops, 0x4e, 0x00);
        assert(ops_view(ops@) =~= command_data(0x4e, seq![0x00u8]));
        push_command_data_2(&mut ops, 0x4f, 0x00, 0x00);
        push_command(&mut ops, if channel == 0 { 0x24 } else { 0x26 });
        push_data(&mut ops, slice_to_vec(buffer));
        Ok(ops)
    }
}

impl WaveformDriver for SSD1675B {
    open spec fn spec_waveform_turn_on_display() -> Seq<OpView> {
        command_data(0x22, seq![0xc5u8])
        + command(0x20)
        + Self::spec_busy_wait()
    }

    open spec fn spec_update_waveform(lut: Seq<u8>) -> Option<Seq<OpView>> {
        Some(command_data(0x32, lut))
    }

    fn waveform_turn_on_display() -> (r: Vec<Op>) {
        let mut ops = no_ops();
        push_command_data_1(&mut ops, 0x22, 0xc5);
        assert(ops_view(ops@) =~= command_data(0x22, seq![0xc5u8]));
        push_command(&mut ops, 0x20);
        push_all(&mut ops, Self::busy_wait());
        ops
    }

    fn update_waveform(lut: &[u8]) -> (r: Result<Vec<Op>, DisplayError>) {
        let mut ops = no_ops();
        push_command_data(&mut ops, 0x32, slice_to_vec(lut));
        assert(ops_view(ops@) =~= command_data(0x32, lut@));
        Ok(ops)
    }
}

impl FastUpdateDriver for SSD1675B {
    open spec fn spec_setup_fast_waveform() -> Seq<OpView> {
        command_data(0x32, LUT_UPDATE@)
    }

    open spec fn spec_restore_fast_normal_waveform() -> Seq<OpView> {
        command_data(0x32, LUT_UPDATE@)
    }

    fn setup_fast_waveform() -> (r: Vec<Op>) {
        let mut ops = no_ops();
        push_command_data(&mut ops, 0x32, slice_to_vec(&LUT_UPDATE));
        assert(ops_view(ops@) =~= command_data(0x32, LUT_UPDATE@));
        ops
    }

    fn restore_normal_waveform() -> (r: Vec<Op>) {
        let mut ops = no_ops();
        push_command_data(&mut ops, 0x32, slice_to_vec(&LUT_UPDATE));
        assert(ops_view(ops@) =~= command_data(0x32, LUT_UPDATE@));
        ops
    }
}

} // verus!
