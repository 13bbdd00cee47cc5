//! UC8179 driver; it reports busy through a status read, low while it works.

use vstd::prelude::*;
use vstd::slice::slice_to_vec;
use crate::interface::{DisplayError, Op, OpView, ops_view, command, command_data, data, reset, wait_while_busy, no_ops, push_all, push_command, push_command_data_1, push_command_data_2, push_command_data_4, push_data, push_reset, push_wait_while_busy};
use super::{Driver, MultiColorDriver};

verus! {

/// 800 x 600 x 2
pub struct UC8179;

impl Driver for UC8179 {
    open spec fn spec_black_bit() -> bool {
        false
    }

    open spec fn spec_busy_wait() -> Seq<OpView> {
        command(0x71)
        + wait_while_busy(false)
    }

    open spec fn spec_wake_up() -> Seq<OpView> {
        reset(10_000, 10_000)
        + Self::spec_busy_wait()
        + command_data(0x01, seq![0x07u8, 0x07u8, 0x3fu8, 0x3fu8])
        + command(0x04)
        + Self::spec_busy_wait()
        + command_data(0x00, seq![0x0fu8])
        + command_data(0x15, seq![0x00u8])
        + command_data(0x50, seq![0x11u8, 0x07u8])
        + command_data(0x60, seq![0x22u8])
    }

    open spec fn spec_set_shape(x: u16, y: u16) -> Seq<OpView> {
        command_data(0x61, seq![(x / 256) as u8, (x % 256) as u8, (y / 256) as u8, (y % 256) as u8])
    }

    open spec fn spec_update_frame(buffer: Seq<u8>) -> Seq<OpView> {
        command(0x10)
        + data(buffer)
    }

    open spec fn spec_turn_on_display() -> Seq<OpView> {
        command(0x04)
        + Self::spec_busy_wait()
        + Self::spec_busy_wait()
    }

    open spec fn spec_sleep() -> Seq<OpView> {
        Seq::empty()
    }

    fn black_bit() -> (r: bool) {
        false
    }

    fn busy_wait() -> (r: Vec<Op>) {
        let mut ops = no_ops();
        push_command(&mut ops, 0x71);
        assert(ops_view(ops@) =~= command(0x71));
        push_wait_while_busy(&mut ops, false);
        ops
    }

    fn wake_up() -> (r: Vec<Op>) {
        let mut ops = no_ops();
        push_reset(&mut ops, 10_000, 10_000);
        assert(ops_view(ops@) =~= reset(10_000, 10_000));
        push_all(&mut ops, Self::busy_wait());
        push_command_data_4(&mut ops, 0x01, 0x07, 0x07, 0x3f, 0x3f);
        push_command(&mut ops, 0x04);
        push_all(&mut ops, Self::busy_wait());
        push_command_data_1(&mut ops, 0x00, 0x0f);
        push_command_data_1(&mut ops, 0x15, 0x00);
        push_command_data_2(&mut ops, 0x50, 0x11, 0x07);
        push_command_data_1(&mut ops, 0x60, 0x22);
        ops
    }

    fn set_shape(x: u16, y: u16) -> (r: Vec<Op>) {
        let mut ops = no_ops();
        push_command_data_4(&mut ops, 0x61, (x / 256) as u8, (x % 256) as u8, (y / 256) as u8, (y % 256) as u8);
        assert(ops_view(ops@) =~= command_data(0x61, seq![(x / 256) as u8, (x % 256) as u8, (y / 256) as u8, (y % 256) as u8]));
        ops
    }

    fn update_frame(buffer: &[u8]) -> (r: Vec<Op>) {
        let mut ops = no_ops();
        push_command(&mut ops, 0x10);
        assert(ops_view(ops@) =~= command(0x10));
        push_data(&mut ops, slice_to_vec(buffer));
        ops
    }

    fn turn_on_display() -> (r: Vec<Op>) {
        let mut ops = no_ops();
        push_command(&mut ops, 0x04);
        assert(ops_view(ops@) =~= command(0x04));
        push_all(&mut ops, Self::busy_wait());
        push_all(&mut ops, Self::busy_wait());
        ops
    }

    fn sleep() -> (r: Vec<Op>) {
        no_ops()
    }
}

impl MultiColorDriver for UC8179 {
    open spec fn spec_update_channel_frame(channel: u8, buffer: Seq<u8>) -> Seq<OpView> {
        command(if channel == 0 { 0x10 } else { 0x13 })
        + data(buffer)
    }

    fn update_channel_frame(channel: u8, buffer: &[u8]) -> (r: Result<Vec<Op>, DisplayError>) {
        if channel > 1 {
            return Err(DisplayError::InvalidChannel);
        }
        let mut ops = no_ops();
        push_command(&mut ops, if channel == 0 { 0x10 } else { 0x13 });
        assert(ops_view(ops@) =~= command(if channel == 0 { 0x10 } else { 0x13 }));
        push_data(&mut ops, slice_to_vec(buffer));
        Ok(ops)
    }
}

} // verus!
