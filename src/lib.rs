//! Driver layer for e-paper display controllers.
//!
//! A session ([`Epd`], [`FastUpdateEpd`], [`TriColorEpd`], [`GrayScaleEpd`]) owns
//! the frame planes that callers draw into and the transport to the panel. Each
//! step of its life (initialisation, flush, sleep) is returned as the list of
//! [`interface::Op`] that the chosen driver asks for; whoever owns the bus runs it.

pub mod color;
pub mod display;
pub mod drivers;
pub mod interface;

use core::marker::PhantomData;
use vstd::prelude::*;
use vstd::arithmetic::power2::{pow2, lemma2_to64};
pub use color::TriColor;
use color::{GrayColorInBits, max_level, valid_bits};
use display::{DisplaySize, FrameBuffer, GrayFrameBuffer, GrayPlaneView, PlaneView, DisplayRotation};
use drivers::{Driver, FastUpdateDriver, GrayScaleDriver, MultiColorDriver, WaveformDriver};
pub use interface::EpdInterface;
use interface::{DisplayError, Op, OpView, ops_view, push_all};

verus! {

/// The plane a session of size `S` starts with: every byte 0xff (every pixel
/// on, white), or 0 where the driver stores black as a set bit.
pub open spec fn initial_plane<S: DisplaySize>(black_bit: bool) -> PlaneView {
    PlaneView {
        width: S::spec_width(),
        height: S::spec_height(),
        rotation: DisplayRotation::Rotate0,
        mirroring: display::Mirroring::NoMirroring,
        inverted: false,
        bytes: Seq::new(
            (display::bytes_per_row(S::spec_width(), 1) * S::spec_height()) as nat,
            |i: int| if black_bit { 0x00u8 } else { 0xffu8 },
        ),
    }
}

/// What bringing up a panel of size `S` asks of driver `D`: wake-up, then the RAM window.
pub open spec fn start_ops<S: DisplaySize, D: Driver>() -> Seq<OpView> {
    D::spec_wake_up() + D::spec_set_shape(S::spec_width() as u16, S::spec_height() as u16)
}

fn start<S: DisplaySize, D: Driver>() -> (r: Vec<Op>)
    ensures
        ops_view(r@) == start_ops::<S, D>(),
{
    let w = S::width();
    let h = S::height();
    let mut ops = D::wake_up();
    push_all(&mut ops, D::set_shape(w as u16, h as u16));
    ops
}

fn plane_for<S: DisplaySize>(black_bit: bool) -> (r: FrameBuffer)
    ensures
        r.wf(),
        r@ == initial_plane::<S>(black_bit),
{
    let w = S::width();
    let h = S::height();
    let r = if black_bit {
        FrameBuffer::new(w, h)
    } else {
        FrameBuffer::new_ones(w, h)
    };
    assert(r@.bytes =~= initial_plane::<S>(black_bit).bytes);
    r
}

/// Black/white panel with one plane.
pub struct Epd<I, S, D> {
    pub interface: I,
    pub framebuf: FrameBuffer,
    pub phantom: PhantomData<(S, D)>,
}

impl<I, S: DisplaySize, D: Driver> Epd<I, S, D> {
    pub open spec fn wf(&self) -> bool {
        &&& self.framebuf.wf()
        &&& self.framebuf@.width == S::spec_width()
        &&& self.framebuf@.height == S::spec_height()
    }

    pub fn new(interface: I) -> (r: Self)
        ensures
            r.wf(),
            r.interface == interface,
            r.framebuf@ == initial_plane::<S>(D::spec_black_bit()),
    {
        Epd { interface, framebuf: plane_for::<S>(D::black_bit()), phantom: PhantomData }
    }

    /// Wakes the controller and sets its RAM window to the panel's size.
    pub fn init(&self) -> (r: Vec<Op>)
        ensures
            ops_view(r@) == start_ops::<S, D>(),
    {
        start::<S, D>()
    }

    pub fn set_rotation(&mut self, rotation: i32)
        requires
            old(self).wf(),
        ensures
            final(self).wf(),
            final(self).interface == old(self).interface,
            final(self).framebuf@ == (PlaneView {
                rotation: DisplayRotation::spec_from_degrees(rotation),
                ..old(self).framebuf@
            }),
    {
        self.framebuf.set_rotation(rotation);
    }

    /// Sets logical pixel (x, y) to `on`; a pixel outside the panel is dropped.
    pub fn draw_pixel(&mut self, x: i32, y: i32, on: bool)
        requires
            old(self).wf(),
        ensures
            final(self).wf(),
            final(self).interface == old(self).interface,
            final(self).framebuf@ == old(self).framebuf@.with_pixel(x as int, y as int, on),
    {
        self.framebuf.draw_pixel(x, y, on);
    }

    /// (width, height) as a caller sees them.
    pub fn bounding_box(&self) -> (r: (usize, usize))
        ensures
            r.0 == self.framebuf@.bounding_box().0,
            r.1 == self.framebuf@.bounding_box().1,
    {
        self.framebuf.bounding_box()
    }

    /// Sends the plane and shows it.
    pub fn display_frame(&self) -> (r: Vec<Op>)
        ensures
            ops_view(r@) == D::spec_update_frame(self.framebuf@.bytes) + D::spec_turn_on_display(),
    {
        let mut ops = D::update_frame(self.framebuf.as_bytes());
        push_all(&mut ops, D::turn_on_display());
        ops
    }

    pub fn sleep(&self) -> (r: Vec<Op>)
        ensures
            ops_view(r@) == D::spec_sleep(),
    {
        D::sleep()
    }

    /// Wakes the controller from sleep and sets its RAM window again.
    pub fn wake_up(&self) -> (r: Vec<Op>)
        ensures
            ops_view(r@) == start_ops::<S, D>(),
    {
        start::<S, D>()
    }
}

/// Black/white panel refreshed with a fast waveform; a full-quality refresh is
/// also offered, which callers should run now and then to clear ghosting.
pub struct FastUpdateEpd<I, S, D> {
    pub interface: I,
    pub framebuf: FrameBuffer,
    pub phantom: PhantomData<(S, D)>,
}

impl<I, S: DisplaySize, D: FastUpdateDriver> FastUpdateEpd<I, S, D> {
    pub open spec fn wf(&self) -> bool {
        &&& self.framebuf.wf()
        &&& self.framebuf@.width == S::spec_width()
        &&& self.framebuf@.height == S::spec_height()
    }

    pub fn new(interface: I) -> (r: Self)
        ensures
            r.wf(),
            r.interface == interface,
            r.framebuf@ == initial_plane::<S>(D::spec_black_bit()),
    {
        FastUpdateEpd { interface, framebuf: plane_for::<S>(D::black_bit()), phantom: PhantomData }
    }

    /// Wakes the controller, sets its RAM window and loads the fast waveform.
    pub fn init(&self) -> (r: Vec<Op>)
        ensures
            ops_view(r@) == start_ops::<S, D>() + D::spec_setup_fast_waveform(),
    {
        let mut ops = start::<S, D>();
        push_all(&mut ops, D::setup_fast_waveform());
        ops
    }

    pub fn set_rotation(&mut self, rotation: i32)
        requires
            old(self).wf(),
        ensures
            final(self).wf(),
            final(self).interface == old(self).interface,
            final(self).framebuf@ == (PlaneView {
                rotation: DisplayRotation::spec_from_degrees(rotation),
                ..old(self).framebuf@
            }),
    {
        self.framebuf.set_rotation(rotation);
    }

    /// Sets logical pixel (x, y) to `on`; a pixel outside the panel is dropped.
    pub fn draw_pixel(&mut self, x: i32, y: i32, on: bool)
        requires
            old(self).wf(),
        ensures
            final(self).wf(),
            final(self).interface == old(self).interface,
            final(self).framebuf@ == old(self).framebuf@.with_pixel(x as int, y as int, on),
    {
        self.framebuf.draw_pixel(x, y, on);
    }

    pub fn bounding_box(&self) -> (r: (usize, usize))
        ensures
            r.0 == self.framebuf@.bounding_box().0,
            r.1 == self.framebuf@.bounding_box().1,
    {
        self.framebuf.bounding_box()
    }

    /// Sends the plane and shows it with the loaded (fast) waveform.
    pub fn display_frame(&self) -> (r: Vec<Op>)
        ensures
            ops_view(r@) == D::spec_update_frame(self.framebuf@.bytes)
                + D::spec_waveform_turn_on_display(),
    {
        let mut ops = D::update_frame(self.framebuf.as_bytes());
        push_all(&mut ops, D::waveform_turn_on_display());
        ops
    }

    /// Shows the plane with the full-quality waveform, then loads the fast one again.
    pub fn display_frame_full_update(&self) -> (r: Vec<Op>)
        ensures
            ops_view(r@) == D::spec_restore_fast_normal_waveform() + D::spec_update_frame(
                self.framebuf@.bytes,
            ) + D::spec_waveform_turn_on_display() + D::spec_setup_fast_waveform(),
    {
        let mut ops = D::restore_normal_waveform();
        push_all(&mut ops, D::update_frame(self.framebuf.as_bytes()));
        push_all(&mut ops, D::waveform_turn_on_display());
        push_all(&mut ops, D::setup_fast_waveform());
        ops
    }

    pub fn sleep(&self) -> (r: Vec<Op>)
        ensures
            ops_view(r@) == D::spec_sleep(),
    {
        D::sleep()
    }

    /// Wakes the controller from sleep and sets its RAM window again.
    pub fn wake_up(&self) -> (r: Vec<Op>)
        ensures
            ops_view(r@) == start_ops::<S, D>(),
    {
        start::<S, D>()
    }
}

/// The values written into (channel 0, channel 1) for a colour:
/// white is (on, off), black (off, off), red (on, on).
pub open spec fn tri_color_planes(color: TriColor) -> (bool, bool) {
    match color {
        TriColor::White => (true, false),
        TriColor::Black => (false, false),
        TriColor::Red => (true, true),
    }
}

/// Painting one pixel in a colour gives it that colour's pair of values in the
/// two planes, and leaves every other pixel of both planes as it was. The two
/// planes share size, rotation and mirroring, as a session keeps them.
pub proof fn lemma_tri_color_pixel(
    v0: PlaneView,
    v1: PlaneView,
    x: int,
    y: int,
    color: TriColor,
    x2: int,
    y2: int,
)
    requires
        v0.wf(),
        v1.wf(),
        v1.width == v0.width,
        v1.height == v0.height,
        v1.rotation == v0.rotation,
        v1.mirroring == v0.mirroring,
        v0.in_bounds(x, y),
        v0.in_bounds(x2, y2),
    ensures
        v0.with_pixel(x, y, tri_color_planes(color).0).pixel_on(x2, y2) == (if x2 == x && y2 == y {
            tri_color_planes(color).0
        } else {
            v0.pixel_on(x2, y2)
        }),
        v1.with_pixel(x, y, tri_color_planes(color).1).pixel_on(x2, y2) == (if x2 == x && y2 == y {
            tri_color_planes(color).1
        } else {
            v1.pixel_on(x2, y2)
        }),
{
    display::lemma_set_pixel_round_trip(v0, x, y, tri_color_planes(color).0, x2, y2);
    display::lemma_set_pixel_round_trip(v1, x, y, tri_color_planes(color).1, x2, y2);
}

/// Three-colour panel: a black/white plane (channel 0) and a red plane (channel 1).
pub struct TriColorEpd<I, S, D> {
    pub interface: I,
    pub framebuf0: FrameBuffer,
    pub framebuf1: FrameBuffer,
    pub phantom: PhantomData<(S, D)>,
}

impl<I, S: DisplaySize, D: MultiColorDriver> TriColorEpd<I, S, D> {
    pub open spec fn wf(&self) -> bool {
        &&& self.framebuf0.wf()
        &&& self.framebuf1.wf()
        &&& self.framebuf0@.width == S::spec_width()
        &&& self.framebuf0@.height == S::spec_height()
        &&& self.framebuf1@.width == S::spec_width()
        &&& self.framebuf1@.height == S::spec_height()
        &&& self.framebuf1@.rotation == self.framebuf0@.rotation
        &&& self.framebuf1@.mirroring == self.framebuf0@.mirroring
    }

    /// Channel 0 starts all 0xff, channel 1 all zero.
    pub fn new(interface: I) -> (r: Self)
        ensures
            r.wf(),
            r.interface == interface,
            r.framebuf0@ == initial_plane::<S>(false),
            r.framebuf1@ == initial_plane::<S>(true),
    {
        TriColorEpd {
            interface,
            framebuf0: plane_for::<S>(false),
            framebuf1: plane_for::<S>(true),
            phantom: PhantomData,
        }
    }

    /// Wakes the controller and sets its RAM window to the panel's size.
    pub fn init(&self) -> (r: Vec<Op>)
        ensures
            ops_view(r@) == start_ops::<S, D>(),
    {
        start::<S, D>()
    }

    pub fn set_rotation(&mut self, rotation: i32)
        requires
            old(self).wf(),
        ensures
            final(self).wf(),
            final(self).interface == old(self).interface,
            final(self).framebuf0@ == (PlaneView {
                rotation: DisplayRotation::spec_from_degrees(rotation),
                ..old(self).framebuf0@
            }),
            final(self).framebuf1@ == (PlaneView {
                rotation: DisplayRotation::spec_from_degrees(rotation),
                ..old(self).framebuf1@
            }),
    {
        self.framebuf0.set_rotation(rotation);
        self.framebuf1.set_rotation(rotation);
    }

    /// Paints logical pixel (x, y) in `color`: one write in each plane, by
    /// [`tri_color_planes`]; a pixel outside the panel is dropped.
    pub fn draw_pixel(&mut self, x: i32, y: i32, color: TriColor)
        requires
            old(self).wf(),
        ensures
            final(self).wf(),
            final(self).interface == old(self).interface,
            final(self).framebuf0@ == old(self).framebuf0@.with_pixel(
                x as int,
                y as int,
                tri_color_planes(color).0,
            ),
            final(self).framebuf1@ == old(self).framebuf1@.with_pixel(
                x as int,
                y as int,
                tri_color_planes(color).1,
            ),
    {
        match color {
            TriColor::White => {
                self.framebuf0.draw_pixel(x, y, true);
                self.framebuf1.draw_pixel(x, y, false);
            },
            TriColor::Black => {
                self.framebuf0.draw_pixel(x, y, false);
                self.framebuf1.draw_pixel(x, y, false);
            },
            TriColor::Red => {
                self.framebuf0.draw_pixel(x, y, true);
                self.framebuf1.draw_pixel(x, y, true);
            },
        }
    }

    pub fn bounding_box(&self) -> (r: (usize, usize))
        ensures
            r.0 == self.framebuf0@.bounding_box().0,
            r.1 == self.framebuf0@.bounding_box().1,
    {
        self.framebuf0.bounding_box()
    }

    /// Sends channel 0, then channel 1, then shows them once.
    pub fn display_frame(&self) -> (r: Result<Vec<Op>, DisplayError>)
        ensures
            r matches Ok(ops) && ops_view(ops@) == D::spec_update_channel_frame(
                0,
                self.framebuf0@.bytes,
            ) + D::spec_update_channel_frame(1, self.framebuf1@.bytes) + D::spec_turn_on_display(),
    {
        let mut ops = D::update_channel_frame(0, self.framebuf0.as_bytes())?;
        let red = D::update_channel_frame(1, self.framebuf1.as_bytes())?;
        push_all(&mut ops, red);
        push_all(&mut ops, D::turn_on_display());
        Ok(ops)
    }

    pub fn sleep(&self) -> (r: Vec<Op>)
        ensures
            ops_view(r@) == D::spec_sleep(),
    {
        D::sleep()
    }

    /// Wakes the controller from sleep and sets its RAM window again.
    pub fn wake_up(&self) -> (r: Vec<Op>)
        ensures
            ops_view(r@) == start_ops::<S, D>(),
    {
        start::<S, D>()
    }
}

/// The levels of the gray passes, in the order they run: from `max` down to 0.
pub open spec fn pass_levels(max: int) -> Seq<int> {
    Seq::new((max + 1) as nat, |i: int| max - i)
}

/// One pass per level of `levels`, in order: the pass frame for the level is
/// written, then shown.
pub open spec fn gray_passes<D: WaveformDriver>(v: GrayPlaneView, levels: Seq<int>) -> Seq<OpView>
    decreases levels.len(),
{
    if levels.len() == 0 {
        Seq::empty()
    } else {
        gray_passes::<D>(v, levels.drop_last()) + D::spec_update_frame(v.pass_frame(levels.last()))
            + D::spec_waveform_turn_on_display()
    }
}

/// Rendering a plane of `bits` bits per pixel takes one pass per level,
/// 2^bits in all: the first at the largest level, each next one level lower,
/// the last at level 0.
pub proof fn lemma_pass_levels(bits: int)
    requires
        valid_bits(bits),
    ensures
        pass_levels(max_level(bits)).len() == pow2(bits as nat),
        pass_levels(max_level(bits))[0] == max_level(bits),
        pass_levels(max_level(bits)).last() == 0,
        forall|i: int|
            0 <= i < pass_levels(max_level(bits)).len() - 1 ==> #[trigger] pass_levels(
                max_level(bits),
            )[i] == pass_levels(max_level(bits))[i + 1] + 1,
{
    lemma2_to64();
}

/// Gray panel, rendered by stacking one binary pass per gray level.
pub struct GrayScaleEpd<C, I, S, D> {
    pub interface: I,
    pub framebuf: GrayFrameBuffer<C>,
    pub phantom: PhantomData<(S, D)>,
}

impl<C: GrayColorInBits, I, S: DisplaySize, D: GrayScaleDriver<C>> GrayScaleEpd<C, I, S, D> {
    pub open spec fn wf(&self) -> bool {
        &&& self.framebuf.wf()
        &&& self.framebuf@.width == S::spec_width()
        &&& self.framebuf@.height == S::spec_height()
    }

    /// Every pixel starts at the largest level.
    pub fn new(interface: I) -> (r: Self)
        ensures
            r.wf(),
            r.interface == interface,
            r.framebuf@.rotation == DisplayRotation::Rotate0,
            r.framebuf@.mirroring == display::Mirroring::NoMirroring,
            r.framebuf@.bytes == Seq::new(r.framebuf@.bytes.len(), |i: int| 0xffu8),
    {
        let w = S::width();
        let h = S::height();
        GrayScaleEpd { interface, framebuf: GrayFrameBuffer::new(w, h), phantom: PhantomData }
    }

    /// Wakes the controller and sets its RAM window to the panel's size.
    pub fn init(&self) -> (r: Vec<Op>)
        ensures
            ops_view(r@) == start_ops::<S, D>(),
    {
        start::<S, D>()
    }

    pub fn set_rotation(&mut self, rotation: i32)
        requires
            old(self).wf(),
        ensures
            final(self).wf(),
            final(self).interface == old(self).interface,
            final(self).framebuf@ == (GrayPlaneView {
                rotation: DisplayRotation::spec_from_degrees(rotation),
                ..old(self).framebuf@
            }),
    {
        self.framebuf.set_rotation(rotation);
    }

    /// Stores `color` at logical pixel (x, y); a pixel outside the panel is dropped.
    pub fn draw_pixel(&mut self, x: i32, y: i32, color: C)
        requires
            old(self).wf(),
        ensures
            final(self).wf(),
            final(self).interface == old(self).interface,
            final(self).framebuf@ == old(self).framebuf@.with_level(
                x as int,
                y as int,
                color.spec_luma(),
            ),
    {
        self.framebuf.draw_pixel(x, y, color);
    }

    pub fn bounding_box(&self) -> (r: (usize, usize))
        ensures
            r.0 == self.framebuf@.bounding_box().0,
            r.1 == self.framebuf@.bounding_box().1,
    {
        self.framebuf.bounding_box()
    }

    /// Loads the gray waveform, then runs one pass per level from the largest
    /// down to 0; each pass darkens the pixels stored below its level.
    pub fn display_frame(&self) -> (r: Vec<Op>)
        requires
            self.wf(),
        ensures
            ops_view(r@) == D::spec_setup_gray_scale_waveform() + gray_passes::<D>(
                self.framebuf@,
                pass_levels(max_level(C::spec_bits_per_pixel())),
            ),
    {
        let mut ops = D::setup_gray_scale_waveform();
        let max = C::max_value();
        let ghost levels = pass_levels(max as int);
        let ghost setup = ops_view(ops@);
        let mut remaining: u16 = max as u16 + 1;
        while remaining > 0
            invariant
                self.wf(),
                remaining <= max as int + 1,
                levels == pass_levels(max as int),
                ops_view(ops@) == setup + gray_passes::<D>(
                    self.framebuf@,
                    levels.take(max as int + 1 - remaining),
                ),
            decreases remaining,
        {
            let level = (remaining - 1) as u8;
            let frame = self.framebuf.pass_frame(level);
            let ghost before = ops_view(ops@);
            push_all(&mut ops, D::update_frame(frame.as_slice()));
            push_all(&mut ops, D::waveform_turn_on_display());
            proof {
                let done = levels.take(max as int + 1 - remaining);
                let next = levels.take(max as int + 1 - remaining + 1);
                assert(next.drop_last() =~= done);
                assert(next.last() == level as int);
                assert(ops_view(ops@) =~= setup + gray_passes::<D>(self.framebuf@, next));
            }
            remaining = remaining - 1;
        }
        assert(levels.take(max as int + 1) =~= levels);
        ops
    }

    pub fn sleep(&self) -> (r: Vec<Op>)
        ensures
            ops_view(r@) == D::spec_sleep(),
    {
        D::sleep()
    }

    /// Loads the normal waveform, sets every bit of the plane (to 1 where
    /// `on`), sends the plane once and shows it.
    pub fn clear_display(&mut self, on: bool) -> (r: Vec<Op>)
        requires
            old(self).wf(),
        ensures
            final(self).wf(),
            final(self).interface == old(self).interface,
            final(self).framebuf@ == (GrayPlaneView {
                bytes: Seq::new(
                    old(self).framebuf@.bytes.len(),
                    |i: int| if on { 0xffu8 } else { 0x00u8 },
                ),
                ..old(self).framebuf@
            }),
            ops_view(r@) == D::spec_restore_gray_normal_waveform() + D::spec_update_frame(
                final(self).framebuf@.bytes,
            ) + <D as Driver>::spec_turn_on_display(),
    {
        let mut ops = D::restore_normal_waveform();
        self.framebuf.fill(on);
        push_all(&mut ops, D::update_frame(self.framebuf.as_bytes()));
        push_all(&mut ops, <D as Driver>::turn_on_display());
        ops
    }
}

} // verus!
