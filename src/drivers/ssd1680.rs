//! SSD1680 driver, as on the GDEY029Z94 2in9 B/W/R panel.

use vstd::prelude::*;
use vstd::slice::slice_to_vec;
use crate::interface::{DisplayError, Op, OpView, ops_view, command, command_data, data, repeated, reset, wait_while_busy, delay_us, no_ops, push_all, push_command, push_command_data, push_command_data_1, push_command_data_2, push_command_data_3, push_command_data_4, push_data, push_repeat, push_reset, push_wait_while_busy, push_delay_us};
use super::{Driver, FastUpdateDriver, MultiColorDriver, WaveformDriver};

verus! {

/// Fast update waveform.
pub const LUT_FAST: [u8; 153] = [
    // VS
    // 00 - VSS
    // 01 - VSH1
    // 10 - VSL
    // 11 - VSH2
    0b01_00_00_00,
          0x00, 0x00, 0x00, 0x00, 0x00, 0x00, 0x00, 0x00, 0x00, 0x00, 0x00,  // B
    0b10_00_00_00,
          0x00, 0x00, 0x00, 0x00, 0x00, 0x00, 0x00, 0x00, 0x00, 0x00, 0x00,  // W
    0b10_00_00_00,
          0x00, 0x00, 0x00, 0x00, 0x00, 0x00, 0x00, 0x00, 0x00, 0x00, 0x00,  // R | L2 = L0
    0b10_00_00_00,
          0x00, 0x00, 0x00, 0x00, 0x00, 0x00, 0x00, 0x00, 0x00, 0x00, 0x00,  // L3 = L1
    0x00, 0x00, 0x00, 0x00, 0x00, 0x00, 0x00, 0x00, 0x00, 0x00, 0x00, 0x00,
    // TPnA, TPnB, SRnAB, TPnC, TPnD, SRnCD, RPn
    0x7f, 0x00, 0x00, 0x00, 0x00, 0x00, 0x00, // 0
    0x00, 0x00, 0x00, 0x00, 0x00, 0x00, 0x00,
    0x00, 0x00, 0x00, 0x00, 0x00, 0x00, 0x00,
    0x00, 0x00, 0x00, 0x00, 0x00, 0x00, 0x00,
    0x00, 0x00, 0x00, 0x00, 0x00, 0x00, 0x00,
    0x00, 0x00, 0x00, 0x00, 0x00, 0x00, 0x00,
    0x00, 0x00, 0x00, 0x00, 0x00, 0x00, 0x00, // 6
    0x00, 0x00, 0x00, 0x00, 0x00, 0x00, 0x00,
    0x00, 0x00, 0x00, 0x00, 0x00, 0x00, 0x00,
    0x00, 0x00, 0x00, 0x00, 0x00, 0x00, 0x00,
    0x00, 0x00, 0x00, 0x00, 0x00, 0x00, 0x00,
    0x00, 0x00, 0x00, 0x00, 0x00, 0x00, 0x00, // 11
    // FR
    0b0111_0000, 0x00, 0x00, 0x00, 0x00, 0x00,
    // XON
    0x00, 0x00, 0x00,
];

/// Normal waveform; its first 153 bytes are loaded, the rest are voltage settings.
pub const LUT_NORMAL: [u8; 159] = [
    //   0           1      2  3  4  5  6  7       8      9 10 11
     0b10000000, 0b01100110, 0, 0, 0, 0, 0, 0, 0b01000000, 0, 0, 0, // LUT 0 (black to black)
     0b00010000, 0b01100110, 0, 0, 0, 0, 0, 0, 0b00100000, 0, 0, 0, // LUT 1 (black to white)
     0b10000000, 0b01100110, 0, 0, 0, 0, 0, 0, 0b01000000, 0, 0, 0, // LUT 2 (white to black)
     0b00010000, 0b01100110, 0, 0, 0, 0, 0, 0, 0b00100000, 0, 0, 0, // LUT 3 (white to white)
     0,          0,          0, 0, 0, 0, 0, 0, 0,          0, 0, 0, // LUT 4
     //TP[A]
     //  TP[B]
     //      SR[AB]
     //          TB[C]
     //              TB[D]
     //                  SR[CD]
     //                      RP
     20, 8,  0,  0,  0,  0,  1, // Group 0
     10, 10, 0,  10, 10, 0,  1, // Group 1
     0,  0,  0,  0,  0,  0,  0, // Group 2
     0,  0,  0,  0,  0,  0,  0, // Group 3
     0,  0,  0,  0,  0,  0,  0, // Group 4
     0,  0,  0,  0,  0,  0,  0, // Group 5
     0,  0,  0,  0,  0,  0,  0, // Group 6
     0,  0,  0,  0,  0,  0,  0, // Group 7
     20, 8,  0,  1,  0,  0,  1, // Group 8
     0,  0,  0,  0,  0,  0,  1, // Group 9
     0,  0,  0,  0,  0,  0,  0, // Group 11
     0,  0,  0,  0,  0,  0,  0, // Group 12
     0x44, 0x44, 0x44, 0x44, 0x44, 0x44, // Framerates (FR[0] to FR[11])
     0, 0, 0, // Gate scan selection (XON)
     0x22, // EOPT = Normal
     0x17, // VGH  = 20V
     0x41, // VSH1 = 15 V
     0,    // VSH2 = Unknown
     0x32, // VSL  = -15 V
     0x36, // VCOM = -1.3 to -1.4 (not shown on datasheet)
];

/// 176 Source x 296 Gate Red/Black/White
pub struct SSD1680;

impl Driver for SSD1680 {
    open spec fn spec_black_bit() -> bool {
        false
    }

    open spec fn spec_busy_wait() -> Seq<OpView> {
        wait_while_busy(true)
    }

    open spec fn spec_wake_up() -> Seq<OpView> {
        reset(10_000, 10_000)
        + Self::spec_busy_wait()
        + command(0x12)
        + Self::spec_busy_wait()
        + command_data(0x01, seq![0x27u8, 0x01u8, 0x00u8])
        + command_data(0x11, seq![0x03u8])
        + command_data(0x21, seq![0x00u8, 0x80u8])
        + command_data(0x4e, seq![0x00u8])
        + command_data(0x4f, seq![0x00u8, 0x00u8])
        + command(0x26)
        + data(repeated(0x00, 6512))
        + command(0x7f)
    }

    open spec fn spec_set_shape(x: u16, y: u16) -> Seq<OpView> {
        command_data(0x44, seq![0u8, (((x - 1) / 8) % 256) as u8])
        + command_data(0x45, seq![0u8, 0u8, ((y - 1) % 256) as u8, ((y - 1) / 256) as u8])
    }

    open spec fn spec_update_frame(buffer: Seq<u8>) -> Seq<OpView> {
        command_data(0x4e, seq![0x00u8])
        + command_data(0x4f, seq![0x00u8, 0x00u8])
        + command(0x24)
        + data(buffer)
    }

    open spec fn spec_turn_on_display() -> Seq<OpView> {
        command_data(0x22, seq![0xf7u8])
        + command(0x20)
        + Self::spec_busy_wait()
    }

    open spec fn spec_sleep() -> Seq<OpView> {
        command_data(0x10, seq![0x01u8])
        + delay_us(100_000)
    }

    fn black_bit() -> (r: bool) {
        false
    }

    fn busy_wait() -> (r: Vec<Op>) {
        let mut ops = no_ops();
        push_wait_while_busy(&mut ops, true);
        assert(ops_view(ops@) =~= wait_while_busy(true));
        ops
    }

    fn wake_up() -> (r: Vec<Op>) {
        let mut ops = no_ops();
        push_reset(&mut ops, 10_000, 10_000);
        assert(ops_view(ops@) =~= reset(10_000, 10_000));
        push_all(&mut ops, Self::busy_wait());
        push_command(&mut ops, 0x12);
        push_all(&mut ops, Self::busy_wait());
        push_command_data_3(&mut ops, 0x01, 0x27, 0x01, 0x00);
        push_command_data_1(&mut ops, 0x11, 0x03);
        push_command_data_2(&mut ops, 0x21, 0x00, 0x80);
        push_command_data_1(&mut ops, 0x4e, 0x00);
        push_command_data_2(&mut ops, 0x4f, 0x00, 0x00);
        push_command(&mut ops, 0x26);
        push_repeat(&mut ops, 0x00, 6512);
        push_command(&mut ops, 0x7f);
        ops
    }

    fn set_shape(x: u16, y: u16) -> (r: Vec<Op>) {
        let mut ops = no_ops();
        push_command_data_2(&mut ops, 0x44, 0, (((x - 1) / 8) % 256) as u8);
        assert(ops_view(ops@) =~= command_data(0x44, seq![0u8, (((x - 1) / 8) % 256) as u8]));
        push_command_data_4(&mut ops, 0x45, 0, 0, ((y - 1) % 256) as u8, ((y - 1) / 256) as u8);
        ops
    }

    fn update_frame(buffer: &[u8]) -> (r: Vec<Op>) {
        let mut ops = no_ops();
        push_command_data_1(&mut ops, 0x4e, 0x00);
        assert(ops_view(ops@) =~= command_data(0x4e, seq![0x00u8]));
        push_command_data_2(&mut ops, 0x4f, 0x00, 0x00);
        push_command(&mut ops, 0x24);
        push_data(&mut ops, slice_to_vec(buffer));
        ops
    }

    fn turn_on_display() -> (r: Vec<Op>) {
        let mut ops = no_ops();
        push_command_data_1(&mut ops, 0x22, 0xf7);
        assert(ops_view(ops@) =~= command_data(0x22, seq![0xf7u8]));
        push_command(&mut ops, 0x20);
        push_all(&mut ops, Self::busy_wait());
        ops
    }

    fn sleep() -> (r: Vec<Op>) {
        let mut ops = no_ops();
        push_command_data_1(&mut ops, 0x10, 0x01);
        assert(ops_view(ops@) =~= command_data(0x10, seq![0x01u8]));
        push_delay_us(&mut ops, 100_000);
        ops
    }
}

impl MultiColorDriver for SSD1680 {
    open spec fn spec_update_channel_frame(channel: u8, buffer: Seq<u8>) -> Seq<OpView> {
        command_data(0x4e, seq![0x00u8])
        + command_data(0x4f, seq![0x00u8, 0x00u8])
        + command(if channel == 0 { 0x24 } else { 0x26 })
        + data(buffer)
    }

    fn update_channel_frame(channel: u8, buffer: &[u8]) -> (r: Result<Vec<Op>, DisplayError>) {
        if channel > 1 {
            return Err(DisplayError::InvalidChannel);
        }
        let mut ops = no_ops();
        push_command_data_1(&mut ops, 0x4e, 0x00);
        assert(ops_view(ops@) =~= command_data(0x4e, seq![0x00u8]));
        push_command_data_2(&mut ops, 0x4f, 0x00, 0x00);
        push_command(&mut ops, if channel == 0 { 0x24 } else { 0x26 });
        push_data(&mut ops, slice_to_vec(buffer));
        Ok(ops)
    }
}

impl WaveformDriver for SSD1680 {
    open spec fn spec_waveform_turn_on_display() -> Seq<OpView> {
        command_data(0x22, seq![0xc7u8])
        + command(0x20)
        + Self::spec_busy_wait()
    }

    open spec fn spec_update_waveform(lut: Seq<u8>) -> Option<Seq<OpView>> {
        Some(command_data(0x32, lut))
    }

    fn waveform_turn_on_display() -> (r: Vec<Op>) {
        let mut ops = no_ops();
        push_command_data_1(&mut ops, 0x22, 0xc7);
        assert(ops_view(ops@) =~= command_data(0x22, seq![0xc7u8]));
        push_command(&mut ops, 0x20);
        push_all(&mut ops, Self::busy_wait());
        ops
    }

    fn update_waveform(lut: &[u8]) -> (r: Result<Vec<Op>, DisplayError>) {
        let mut ops = no_ops();
        push_command_data(&mut ops, 0x32, slice_to_vec(lut));
        assert(ops_view(ops@) =~= command_data(0x32, lut@));
        Ok(ops)
    }
}

impl FastUpdateDriver for SSD1680 {
    open spec fn spec_setup_fast_waveform() -> Seq<OpView> {
        command_data(0x32, LUT_FAST@)
    }

    open spec fn spec_restore_fast_normal_waveform() -> Seq<OpView> {
        command_data(0x32, LUT_NORMAL@.subrange(0, 153))
    }

    fn setup_fast_waveform() -> (r: Vec<Op>) {
        let mut ops = no_ops();
        push_command_data(&mut ops, 0x32, slice_to_vec(&LUT_FAST));
        assert(ops_view(ops@) =~= command_data(0x32, LUT_FAST@));
        ops
    }

    fn restore_normal_waveform() -> (r: Vec<Op>) {
        let mut ops = no_ops();
        let mut lut = slice_to_vec(&LUT_NORMAL);
        lut.truncate(153);
        push_command_data(&mut ops, 0x32, lut);
        assert(ops_view(ops@) =~= command_data(0x32, LUT_NORMAL@.subrange(0, 153)));
        ops
    }
}

} // verus!
