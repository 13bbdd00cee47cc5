//! The driver protocol of each controller, as lists of operations.
//!
//! [`Driver`] is the baseline every controller implements; the other traits
//! are facets that only some controllers have. Each method returns the
//! operations that carry out one step of the protocol, and its contract names
//! them exactly through the matching `spec_` function of the implementation.

use vstd::prelude::*;
use crate::color::GrayColorInBits;
use crate::interface::{DisplayError, Op, OpView, ops_view};

pub use self::il3895::IL3895;
pub use self::pd::PervasiveDisplays;
pub use self::ssd1608::{SSD1608, SSD1608Fast};
pub use self::ssd1619a::SSD1619A;
pub use self::ssd1675b::SSD1675B;
pub use self::ssd1680::SSD1680;
pub use self::uc8176::UC8176;
pub use self::uc8179::UC8179;

pub mod il3895;
mod pd;
mod ssd1608;
mod ssd1619a;
mod ssd1675b;
mod ssd1680;
mod uc8176;
mod uc8179;

verus! {

pub type IL3820 = SSD1608;

pub trait Driver {
    spec fn spec_black_bit() -> bool;

    spec fn spec_busy_wait() -> Seq<OpView>;

    spec fn spec_wake_up() -> Seq<OpView>;

    spec fn spec_set_shape(x: u16, y: u16) -> Seq<OpView>;

    spec fn spec_update_frame(buffer: Seq<u8>) -> Seq<OpView>;

    spec fn spec_turn_on_display() -> Seq<OpView>;

    spec fn spec_sleep() -> Seq<OpView>;

    /// Whether a set bit stands for black on this controller (most use a clear bit).
    fn black_bit() -> (r: bool)
        ensures
            r == Self::spec_black_bit(),
    ;

    /// Waits until the controller is idle.
    fn busy_wait() -> (r: Vec<Op>)
        ensures
            ops_view(r@) == Self::spec_busy_wait(),
    ;

    /// Reset, then the controller's initialisation sequence.
    fn wake_up() -> (r: Vec<Op>)
        ensures
            ops_view(r@) == Self::spec_wake_up(),
    ;

    /// Sets the RAM window to `x` x `y` pixels.
    fn set_shape(x: u16, y: u16) -> (r: Vec<Op>)
        requires
            1 <= x,
            1 <= y,
        ensures
            ops_view(r@) == Self::spec_set_shape(x, y),
    ;

    /// Writes one plane into the controller's RAM.
    fn update_frame(buffer: &[u8]) -> (r: Vec<Op>)
        ensures
            ops_view(r@) == Self::spec_update_frame(buffer@),
    ;

    /// Starts the display update and waits until it is done.
    fn turn_on_display() -> (r: Vec<Op>)
        ensures
            ops_view(r@) == Self::spec_turn_on_display(),
    ;

    /// Puts the controller in a low-power state.
    fn sleep() -> (r: Vec<Op>)
        ensures
            ops_view(r@) == Self::spec_sleep(),
    ;
}

pub trait MultiColorDriver: Driver {
    spec fn spec_update_channel_frame(channel: u8, buffer: Seq<u8>) -> Seq<OpView>;

    /// Writes one plane into colour channel `channel` (0: black/white, 1: red);
    /// any other channel is refused.
    fn update_channel_frame(channel: u8, buffer: &[u8]) -> (r: Result<Vec<Op>, DisplayError>)
        ensures
            match r {
                Ok(ops) => channel <= 1 && ops_view(ops@) == Self::spec_update_channel_frame(
                    channel,
                    buffer@,
                ),
                Err(e) => channel > 1 && e == DisplayError::InvalidChannel,
            },
    ;
}

pub trait WaveformDriver: Driver {
    spec fn spec_waveform_turn_on_display() -> Seq<OpView>;

    /// The operations that load `lut`, or `None` where the controller takes no single table.
    spec fn spec_update_waveform(lut: Seq<u8>) -> Option<Seq<OpView>>;

    /// Starts the display update with a loaded waveform, and waits until it is done.
    fn waveform_turn_on_display() -> (r: Vec<Op>)
        ensures
            ops_view(r@) == Self::spec_waveform_turn_on_display(),
    ;

    /// Loads the waveform table `lut`.
    fn update_waveform(lut: &[u8]) -> (r: Result<Vec<Op>, DisplayError>)
        ensures
            match r {
                Ok(ops) => Self::spec_update_waveform(lut@) == Some(ops_view(ops@)),
                Err(e) => Self::spec_update_waveform(lut@) is None && e
                    == DisplayError::InvalidFormatError,
            },
    ;
}

pub trait FastUpdateDriver: WaveformDriver {
    spec fn spec_setup_fast_waveform() -> Seq<OpView>;

    spec fn spec_restore_fast_normal_waveform() -> Seq<OpView>;

    /// Loads the quick, low-quality waveform.
    fn setup_fast_waveform() -> (r: Vec<Op>)
        ensures
            ops_view(r@) == Self::spec_setup_fast_waveform(),
    ;

    /// Loads the slow, full-quality waveform.
    fn restore_normal_waveform() -> (r: Vec<Op>)
        ensures
            ops_view(r@) == Self::spec_restore_fast_normal_waveform(),
    ;
}

pub trait GrayScaleDriver<C: GrayColorInBits>: WaveformDriver {
    spec fn spec_setup_gray_scale_waveform() -> Seq<OpView>;

    spec fn spec_restore_gray_normal_waveform() -> Seq<OpView>;

    /// Loads the short-pulse waveform that each gray pass uses.
    fn setup_gray_scale_waveform() -> (r: Vec<Op>)
        ensures
            ops_view(r@) == Self::spec_setup_gray_scale_waveform(),
    ;

    /// Loads the normal waveform again.
    fn restore_normal_waveform() -> (r: Vec<Op>)
        ensures
            ops_view(r@) == Self::spec_restore_gray_normal_waveform(),
    ;
}

} // verus!
