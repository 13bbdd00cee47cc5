//! Frame planes: packed bitmaps written through a rotation and a mirroring.
//!
//! A plane stores `bits` bits per pixel, most significant bit first, row after
//! row; a row takes `ceil(width * bits / 8)` bytes. A caller writes at logical
//! coordinates, which the plane's rotation and then its mirroring map to the
//! physical position in the buffer.

use core::marker::PhantomData;
use vstd::prelude::*;
use vstd::arithmetic::div_mod::{lemma_fundamental_div_mod_converse, lemma_mod_breakdown, lemma_small_mod};
use vstd::arithmetic::power2::{pow2, lemma_pow2_unfold, lemma_pow2_pos, lemma_pow2_strictly_increases, lemma2_to64};
use crate::color::{GrayColorInBits, max_level, valid_bits};

verus! {

/// Rotation of the display, clockwise.
#[derive(Clone, Copy, Debug, PartialEq, Eq, Structural)]
pub enum DisplayRotation {
    /// No rotation, normal display
    Rotate0,
    /// Rotate by 90 degrees clockwise
    Rotate90,
    /// Rotate by 180 degrees clockwise
    Rotate180,
    /// Rotate by 270 degrees clockwise
    Rotate270,
}

/// Mirroring, applied after the rotation.
#[derive(Clone, Copy, Debug, PartialEq, Eq, Structural)]
pub enum Mirroring {
    NoMirroring,
    Horizontal,
    Vertical,
    Origin,
}

impl DisplayRotation {
    pub open spec fn spec_from_degrees(degrees: i32) -> DisplayRotation {
        if degrees == 90 {
            DisplayRotation::Rotate90
        } else if degrees == 180 {
            DisplayRotation::Rotate180
        } else if degrees == 270 {
            DisplayRotation::Rotate270
        } else {
            DisplayRotation::Rotate0
        }
    }

    /// The rotation of `degrees` clockwise; any value but 90, 180 and 270 gives no rotation.
    pub fn from_degrees(degrees: i32) -> (r: DisplayRotation)
        ensures
            r == Self::spec_from_degrees(degrees),
    {
        match degrees {
            90 => DisplayRotation::Rotate90,
            180 => DisplayRotation::Rotate180,
            270 => DisplayRotation::Rotate270,
            _ => DisplayRotation::Rotate0,
        }
    }
}

/// Size of a panel in pixels.
pub trait DisplaySize {
    spec fn spec_width() -> int;

    spec fn spec_height() -> int;

    /// Width in pixels
    fn width() -> (r: usize)
        ensures
            r == Self::spec_width(),
            1 <= r <= 0xffff,
            Self::spec_width() * Self::spec_height() * 8 <= usize::MAX,
    ;

    /// Height in pixels
    fn height() -> (r: usize)
        ensures
            r == Self::spec_height(),
            1 <= r <= 0xffff,
            Self::spec_width() * Self::spec_height() * 8 <= usize::MAX,
    ;
}

/// 2in9
#[derive(Clone, Copy)]
pub struct DisplaySize128x296;

/// SSD1608/IL3820 in cascade mode 2x 200x300
#[derive(Clone, Copy)]
pub struct DisplaySize200x300;

/// For 2in13 PPD with Black, Red/Yellow and White, WIDTH=104, HEIGHT=212.
#[derive(Clone, Copy)]
pub struct DisplaySize212x104;

#[derive(Clone, Copy)]
pub struct DisplaySize104x201;

/// For 2in13 EPD with Black and White, WIDTH=122, HEIGHT=250.
#[derive(Clone, Copy)]
pub struct DisplaySize250x122;

/// 4in2
#[derive(Clone, Copy)]
pub struct DisplaySize400x300;

impl DisplaySize for DisplaySize128x296 {
    open spec fn spec_width() -> int {
        128
    }

    open spec fn spec_height() -> int {
        296
    }

    fn width() -> (r: usize) {
        128
    }

    fn height() -> (r: usize) {
        296
    }
}

impl DisplaySize for DisplaySize200x300 {
    open spec fn spec_width() -> int {
        200
    }

    open spec fn spec_height() -> int {
        300
    }

    fn width() -> (r: usize) {
        200
    }

    fn height() -> (r: usize) {
        300
    }
}

impl DisplaySize for DisplaySize212x104 {
    open spec fn spec_width() -> int {
        104
    }

    open spec fn spec_height() -> int {
        212
    }

    fn width() -> (r: usize) {
        104
    }

    fn height() -> (r: usize) {
        212
    }
}

impl DisplaySize for DisplaySize104x201 {
    open spec fn spec_width() -> int {
        212
    }

    open spec fn spec_height() -> int {
        104
    }

    fn width() -> (r: usize) {
        212
    }

    fn height() -> (r: usize) {
        104
    }
}

impl DisplaySize for DisplaySize250x122 {
    open spec fn spec_width() -> int {
        122
    }

    open spec fn spec_height() -> int {
        250
    }

    fn width() -> (r: usize) {
        122
    }

    fn height() -> (r: usize) {
        250
    }
}

impl DisplaySize for DisplaySize400x300 {
    open spec fn spec_width() -> int {
        400
    }

    open spec fn spec_height() -> int {
        300
    }

    fn width() -> (r: usize) {
        400
    }

    fn height() -> (r: usize) {
        300
    }
}

// ---------------------------------------------------------------------------
// Geometry

/// Logical (width, height) of a `w` x `h` plane: swapped by a quarter turn.
pub open spec fn logical_size(r: DisplayRotation, w: int, h: int) -> (int, int) {
    match r {
        DisplayRotation::Rotate0 | DisplayRotation::Rotate180 => (w, h),
        _ => (h, w),
    }
}

pub open spec fn in_bounds(r: DisplayRotation, w: int, h: int, x: int, y: int) -> bool {
    0 <= x < logical_size(r, w, h).0 && 0 <= y < logical_size(r, w, h).1
}

pub open spec fn rotate(r: DisplayRotation, w: int, h: int, x: int, y: int) -> (int, int) {
    match r {
        DisplayRotation::Rotate0 => (x, y),
        DisplayRotation::Rotate90 => (w - 1 - y, x),
        DisplayRotation::Rotate180 => (w - 1 - x, h - 1 - y),
        DisplayRotation::Rotate270 => (y, h - 1 - x),
    }
}

/// Mirroring within the un-rotated plane's own width and height.
pub open spec fn mirror(m: Mirroring, w: int, h: int, x: int, y: int) -> (int, int) {
    match m {
        Mirroring::NoMirroring => (x, y),
        Mirroring::Horizontal => (w - 1 - x, y),
        Mirroring::Vertical => (x, h - 1 - y),
        Mirroring::Origin => (w - 1 - x, h - 1 - y),
    }
}

/// Physical position of logical (x, y): rotate, then mirror.
pub open spec fn to_physical(r: DisplayRotation, m: Mirroring, w: int, h: int, x: int, y: int) -> (
    int,
    int,
) {
    let p = rotate(r, w, h, x, y);
    mirror(m, w, h, p.0, p.1)
}

pub open spec fn bytes_per_row(w: int, bits: int) -> int {
    (w * bits + 7) / 8
}

/// Byte that holds bit `i` of the pixel at physical (px, py).
pub open spec fn bit_byte(w: int, bits: int, px: int, py: int, i: int) -> int {
    bytes_per_row(w, bits) * py + (px * bits + i) / 8
}

/// Place of bit `i` of the pixel at physical column `px` in its byte, 0 being the most significant.
pub open spec fn bit_index(bits: int, px: int, i: int) -> int {
    (px * bits + i) % 8
}

pub open spec fn mask(j: int) -> u8 {
    0x80u8 >> (j as u8)
}

pub open spec fn bit_at(s: Seq<u8>, k: int, j: int) -> bool {
    s[k] & mask(j) != 0
}

pub open spec fn with_bit(byte: u8, j: int, v: bool) -> u8 {
    if v {
        byte | mask(j)
    } else {
        byte & !mask(j)
    }
}

pub open spec fn write_bit(s: Seq<u8>, k: int, j: int, v: bool) -> Seq<u8> {
    s.update(k, with_bit(s[k], j, v))
}

pub proof fn lemma_with_bit(byte: u8, j: int, v: bool, j2: int)
    requires
        0 <= j < 8,
        0 <= j2 < 8,
    ensures
        (with_bit(byte, j, v) & mask(j2) != 0) == (if j == j2 {
            v
        } else {
            byte & mask(j2) != 0
        }),
{
    let a = j as u8;
    let c = j2 as u8;
    if v {
        if a == c {
            assert((byte | (0x80u8 >> a)) & (0x80u8 >> c) != 0) by (bit_vector)
                requires
                    a < 8,
                    a == c,
            ;
        } else {
            assert(((byte | (0x80u8 >> a)) & (0x80u8 >> c) != 0) == (byte & (0x80u8 >> c) != 0))
                by (bit_vector)
                requires
                    a < 8,
                    c < 8,
                    a != c,
            ;
        }
    } else {
        if a == c {
            assert((byte & !(0x80u8 >> a)) & (0x80u8 >> c) == 0) by (bit_vector)
                requires
                    a < 8,
                    a == c,
            ;
        } else {
            assert(((byte & !(0x80u8 >> a)) & (0x80u8 >> c) != 0) == (byte & (0x80u8 >> c) != 0))
                by (bit_vector)
                requires
                    a < 8,
                    c < 8,
                    a != c,
            ;
        }
    }
}

pub proof fn lemma_write_bit(s: Seq<u8>, k: int, j: int, v: bool, k2: int, j2: int)
    requires
        0 <= k < s.len(),
        0 <= k2 < s.len(),
        0 <= j < 8,
        0 <= j2 < 8,
    ensures
        write_bit(s, k, j, v).len() == s.len(),
        bit_at(write_bit(s, k, j, v), k2, j2) == (if k == k2 && j == j2 {
            v
        } else {
            bit_at(s, k2, j2)
        }),
{
    if k == k2 {
        lemma_with_bit(s[k], j, v, j2);
    }
}

/// Two bytes whose eight bits agree are equal.
pub proof fn lemma_bits_determine_byte(a: u8, b: u8)
    requires
        forall|j: int| 0 <= j < 8 ==> ((a & #[trigger] mask(j) != 0) == (b & mask(j) != 0)),
    ensures
        a == b,
{
    assert((a & mask(0) != 0) == (b & mask(0) != 0));
    assert((a & mask(1) != 0) == (b & mask(1) != 0));
    assert((a & mask(2) != 0) == (b & mask(2) != 0));
    assert((a & mask(3) != 0) == (b & mask(3) != 0));
    assert((a & mask(4) != 0) == (b & mask(4) != 0));
    assert((a & mask(5) != 0) == (b & mask(5) != 0));
    assert((a & mask(6) != 0) == (b & mask(6) != 0));
    assert((a & mask(7) != 0) == (b & mask(7) != 0));
    assert(((a & (0x80u8 >> 0u8) != 0) == (b & (0x80u8 >> 0u8) != 0) && (a & (0x80u8 >> 1u8) != 0)
        == (b & (0x80u8 >> 1u8) != 0) && (a & (0x80u8 >> 2u8) != 0) == (b & (0x80u8 >> 2u8) != 0)
        && (a & (0x80u8 >> 3u8) != 0) == (b & (0x80u8 >> 3u8) != 0) && (a & (0x80u8 >> 4u8) != 0)
        == (b & (0x80u8 >> 4u8) != 0) && (a & (0x80u8 >> 5u8) != 0) == (b & (0x80u8 >> 5u8) != 0)
        && (a & (0x80u8 >> 6u8) != 0) == (b & (0x80u8 >> 6u8) != 0) && (a & (0x80u8 >> 7u8) != 0)
        == (b & (0x80u8 >> 7u8) != 0)) ==> a == b) by (bit_vector);
}

/// `q * d + r` with `0 <= r < d` determines `q` and `r`.
proof fn lemma_unique_split(d: int, q: int, r: int, q2: int, r2: int)
    requires
        0 < d,
        0 <= r < d,
        0 <= r2 < d,
        q * d + r == q2 * d + r2,
    ensures
        q == q2,
        r == r2,
{
    lemma_fundamental_div_mod_converse(q * d + r, d, q, r);
    lemma_fundamental_div_mod_converse(q2 * d + r2, d, q2, r2);
}

/// Every bit of every pixel of a plane lies inside its buffer.
pub proof fn lemma_bit_in_plane(w: int, bits: int, h: int, px: int, py: int, i: int)
    requires
        0 < bits,
        0 <= px < w,
        0 <= py < h,
        0 <= i < bits,
    ensures
        0 <= (px * bits + i) / 8 < bytes_per_row(w, bits),
        0 <= bit_byte(w, bits, px, py, i) < bytes_per_row(w, bits) * h,
        0 <= bit_index(bits, px, i) < 8,
        px * bits + i < w * bits,
{
    assert(px * bits + i < w * bits) by (nonlinear_arith)
        requires
            0 <= px < w,
            0 <= i < bits,
    ;
    assert(0 <= px * bits) by (nonlinear_arith)
        requires
            0 <= px,
            0 < bits,
    ;
    let bpr = bytes_per_row(w, bits);
    let q = (px * bits + i) / 8;
    assert(q < bpr);
    assert(bpr * py + q < bpr * h) by (nonlinear_arith)
        requires
            0 <= q < bpr,
            0 <= py < h,
    ;
    assert(0 <= bpr * py) by (nonlinear_arith)
        requires
            0 <= bpr,
            0 <= py,
    ;
}

/// Distinct bits of distinct pixels never share a place in the buffer.
pub proof fn lemma_bit_position_unique(
    w: int,
    bits: int,
    px: int,
    py: int,
    i: int,
    px2: int,
    py2: int,
    i2: int,
)
    requires
        0 < bits,
        0 <= px < w,
        0 <= px2 < w,
        0 <= py,
        0 <= py2,
        0 <= i < bits,
        0 <= i2 < bits,
        bit_byte(w, bits, px, py, i) == bit_byte(w, bits, px2, py2, i2),
        bit_index(bits, px, i) == bit_index(bits, px2, i2),
    ensures
        px == px2,
        py == py2,
        i == i2,
{
    lemma_bit_in_plane(w, bits, py + 1, px, py, i);
    lemma_bit_in_plane(w, bits, py2 + 1, px2, py2, i2);
    let bpr = bytes_per_row(w, bits);
    let b1 = px * bits + i;
    let b2 = px2 * bits + i2;
    assert(py * bpr + b1 / 8 == py2 * bpr + b2 / 8) by (nonlinear_arith)
        requires
            bpr * py + b1 / 8 == bpr * py2 + b2 / 8,
    ;
    lemma_unique_split(bpr, py, b1 / 8, py2, b2 / 8);
    assert(b1 == b2);
    assert(px * bits + i == px2 * bits + i2);
    lemma_unique_split(bits, px, i, px2, i2);
}

/// Rotation then mirroring maps the logical plane one to one onto the physical plane.
pub proof fn lemma_physical_in_plane(
    r: DisplayRotation,
    m: Mirroring,
    w: int,
    h: int,
    x: int,
    y: int,
)
    requires
        in_bounds(r, w, h, x, y),
    ensures
        0 <= to_physical(r, m, w, h, x, y).0 < w,
        0 <= to_physical(r, m, w, h, x, y).1 < h,
{
}

pub proof fn lemma_physical_injective(
    r: DisplayRotation,
    m: Mirroring,
    w: int,
    h: int,
    x: int,
    y: int,
    x2: int,
    y2: int,
)
    requires
        in_bounds(r, w, h, x, y),
        in_bounds(r, w, h, x2, y2),
        to_physical(r, m, w, h, x, y) == to_physical(r, m, w, h, x2, y2),
    ensures
        x == x2,
        y == y2,
{
}

// ---------------------------------------------------------------------------
// Binary plane

/// What a binary plane holds: its geometry, its transform and its bytes.
pub struct PlaneView {
    pub width: int,
    pub height: int,
    pub rotation: DisplayRotation,
    pub mirroring: Mirroring,
    pub inverted: bool,
    pub bytes: Seq<u8>,
}

impl PlaneView {
    pub open spec fn wf(self) -> bool {
        &&& 0 <= self.width
        &&& 0 <= self.height
        &&& self.width * self.height * 8 <= usize::MAX
        &&& self.bytes.len() == bytes_per_row(self.width, 1) * self.height
    }

    pub open spec fn in_bounds(self, x: int, y: int) -> bool {
        in_bounds(self.rotation, self.width, self.height, x, y)
    }

    pub open spec fn physical(self, x: int, y: int) -> (int, int) {
        to_physical(self.rotation, self.mirroring, self.width, self.height, x, y)
    }

    /// Byte that holds logical pixel (x, y).
    pub open spec fn pixel_byte(self, x: int, y: int) -> int {
        bit_byte(self.width, 1, self.physical(x, y).0, self.physical(x, y).1, 0)
    }

    /// Place of logical pixel (x, y) in its byte.
    pub open spec fn pixel_bit(self, x: int, y: int) -> int {
        bit_index(1, self.physical(x, y).0, 0)
    }

    /// Whether logical pixel (x, y) is on: its bit is set, or clear on an inverted plane.
    pub open spec fn pixel_on(self, x: int, y: int) -> bool {
        bit_at(self.bytes, self.pixel_byte(x, y), self.pixel_bit(x, y)) != self.inverted
    }

    /// The plane after logical pixel (x, y) is set to `on`; unchanged where (x, y) is out of range.
    pub open spec fn with_pixel(self, x: int, y: int, on: bool) -> PlaneView {
        if self.in_bounds(x, y) {
            PlaneView {
                bytes: write_bit(self.bytes, self.pixel_byte(x, y), self.pixel_bit(x, y), on != self.inverted),
                ..self
            }
        } else {
            self
        }
    }

    /// The byte that every byte of the plane takes when it is filled with `on`.
    pub open spec fn fill_byte(self, on: bool) -> u8 {
        if on != self.inverted {
            0xff
        } else {
            0x00
        }
    }

    /// (width, height) as a caller sees them.
    pub open spec fn bounding_box(self) -> (int, int) {
        logical_size(self.rotation, self.width, self.height)
    }
}

proof fn lemma_pixel_place(v: PlaneView, x: int, y: int)
    requires
        v.wf(),
        v.in_bounds(x, y),
    ensures
        0 <= v.pixel_byte(x, y) < v.bytes.len(),
        0 <= v.pixel_bit(x, y) < 8,
{
    let p = v.physical(x, y);
    lemma_physical_in_plane(v.rotation, v.mirroring, v.width, v.height, x, y);
    lemma_bit_in_plane(v.width, 1, v.height, p.0, p.1, 0);
}

/// Setting one logical pixel gives it the value written and leaves every
/// other pixel as it was, under each rotation and mirroring: no two pixels
/// share a bit.
pub proof fn lemma_set_pixel_round_trip(v: PlaneView, x: int, y: int, on: bool, x2: int, y2: int)
    requires
        v.wf(),
        v.in_bounds(x, y),
        v.in_bounds(x2, y2),
    ensures
        v.with_pixel(x, y, on).pixel_on(x2, y2) == (if x2 == x && y2 == y {
            on
        } else {
            v.pixel_on(x2, y2)
        }),
{
    lemma_pixel_place(v, x, y);
    lemma_pixel_place(v, x2, y2);
    lemma_write_bit(v.bytes, v.pixel_byte(x, y), v.pixel_bit(x, y), on != v.inverted, v.pixel_byte(x2, y2), v.pixel_bit(x2, y2));
    if v.pixel_byte(x, y) == v.pixel_byte(x2, y2) && v.pixel_bit(x, y) == v.pixel_bit(x2, y2) {
        let p = v.physical(x, y);
        let q = v.physical(x2, y2);
        lemma_physical_in_plane(v.rotation, v.mirroring, v.width, v.height, x, y);
        lemma_physical_in_plane(v.rotation, v.mirroring, v.width, v.height, x2, y2);
        lemma_bit_position_unique(v.width, 1, p.0, p.1, 0, q.0, q.1, 0);
        lemma_physical_injective(v.rotation, v.mirroring, v.width, v.height, x, y, x2, y2);
    }
}

/// Toggling one pixel flips exactly one bit of one byte.
pub proof fn lemma_toggle_flips_one_bit(v: PlaneView, x: int, y: int)
    requires
        v.wf(),
        v.in_bounds(x, y),
    ensures
        ({
            let t = v.with_pixel(x, y, !v.pixel_on(x, y));
            let k = v.pixel_byte(x, y);
            &&& t.bytes.len() == v.bytes.len()
            &&& forall|i: int| 0 <= i < v.bytes.len() && i != k ==> t.bytes[i] == v.bytes[i]
            &&& t.bytes[k] ^ v.bytes[k] == mask(v.pixel_bit(x, y))
        }),
{
    lemma_pixel_place(v, x, y);
    let k = v.pixel_byte(x, y);
    let j = v.pixel_bit(x, y) as u8;
    let b = v.bytes[k];
    if b & (0x80u8 >> j) != 0 {
        assert((b & !(0x80u8 >> j)) ^ b == 0x80u8 >> j) by (bit_vector)
            requires
                b & (0x80u8 >> j) != 0,
        ;
    } else {
        assert((b | (0x80u8 >> j)) ^ b == 0x80u8 >> j) by (bit_vector)
            requires
                b & (0x80u8 >> j) == 0,
        ;
    }
}

/// A one-bit-per-pixel plane.
#[derive(Clone)]
pub struct FrameBuffer {
    buf: Vec<u8>,
    width: usize,
    height: usize,
    rotation: DisplayRotation,
    mirroring: Mirroring,
    inverted: bool,
}

impl View for FrameBuffer {
    type V = PlaneView;

    closed spec fn view(&self) -> PlaneView {
        PlaneView {
            width: self.width as int,
            height: self.height as int,
            rotation: self.rotation,
            mirroring: self.mirroring,
            inverted: self.inverted,
            bytes: self.buf@,
        }
    }
}

/// Bytes in a row of `width` pixels of `bits` bits.
fn row_bytes(width: usize, bits: usize) -> (r: usize)
    requires
        width * bits <= usize::MAX,
    ensures
        r == bytes_per_row(width as int, bits as int),
{
    let n = width * bits;
    n / 8 + if n % 8 != 0 {
        1
    } else {
        0
    }
}

/// Bytes of a plane of `width` x `height` pixels of `bits` bits.
fn plane_bytes(width: usize, height: usize, bits: usize) -> (r: usize)
    requires
        width * height * 8 <= usize::MAX,
        1 <= bits <= 8,
    ensures
        r == bytes_per_row(width as int, bits as int) * height,
{
    assert(width * bits <= width * 8) by (nonlinear_arith)
        requires
            bits <= 8,
    ;
    assert(width * 8 <= usize::MAX || height == 0) by (nonlinear_arith)
        requires
            width * height * 8 <= usize::MAX,
    ;
    if height == 0 {
        return 0;
    }
    let bpr = row_bytes(width, bits);
    assert(bpr * height <= width * height * 8) by (nonlinear_arith)
        requires
            bpr == (width * bits + 7) / 8,
            bits <= 8,
    ;
    bpr * height
}

impl FrameBuffer {
    pub open spec fn wf(&self) -> bool {
        self@.wf()
    }

    /// A plane of `width` x `height` pixels, every byte zero: every pixel off.
    pub fn new(width: usize, height: usize) -> (r: Self)
        requires
            width * height * 8 <= usize::MAX,
        ensures
            r.wf(),
            r@.width == width,
            r@.height == height,
            r@.rotation == DisplayRotation::Rotate0,
            r@.mirroring == Mirroring::NoMirroring,
            !r@.inverted,
            r@.bytes == Seq::new(r@.bytes.len(), |i: int| 0u8),
    {
        let n = plane_bytes(width, height, 1);
        let buf = vec![0u8; n];
        let r = FrameBuffer {
            buf,
            width,
            height,
            rotation: DisplayRotation::Rotate0,
            mirroring: Mirroring::NoMirroring,
            inverted: false,
        };
        assert(r@.bytes =~= Seq::new(r@.bytes.len(), |i: int| 0u8));
        r
    }

    /// A plane of `width` x `height` pixels, every byte 0xff: every pixel on (light).
    pub fn new_ones(width: usize, height: usize) -> (r: Self)
        requires
            width * height * 8 <= usize::MAX,
        ensures
            r.wf(),
            r@.width == width,
            r@.height == height,
            r@.rotation == DisplayRotation::Rotate0,
            r@.mirroring == Mirroring::NoMirroring,
            !r@.inverted,
            r@.bytes == Seq::new(r@.bytes.len(), |i: int| 0xffu8),
    {
        let n = plane_bytes(width, height, 1);
        let buf = vec![0xffu8; n];
        let r = FrameBuffer {
            buf,
            width,
            height,
            rotation: DisplayRotation::Rotate0,
            mirroring: Mirroring::NoMirroring,
            inverted: false,
        };
        assert(r@.bytes =~= Seq::new(r@.bytes.len(), |i: int| 0xffu8));
        r
    }

    /// An inverted plane of `width` x `height` pixels, every byte 0xff: every pixel off.
    pub fn new_inverted(width: usize, height: usize) -> (r: Self)
        requires
            width * height * 8 <= usize::MAX,
        ensures
            r.wf(),
            r@.width == width,
            r@.height == height,
            r@.rotation == DisplayRotation::Rotate0,
            r@.mirroring == Mirroring::NoMirroring,
            r@.inverted,
            r@.bytes == Seq::new(r@.bytes.len(), |i: int| 0xffu8),
    {
        let mut r = Self::new_ones(width, height);
        r.inverted = true;
        r
    }

    /// Sets every pixel to `on`.
    pub fn fill(&mut self, on: bool)
        requires
            old(self).wf(),
        ensures
            final(self).wf(),
            final(self)@ == (PlaneView {
                bytes: Seq::new(old(self)@.bytes.len(), |i: int| old(self)@.fill_byte(on)),
                ..old(self)@
            }),
    {
        let value: u8 = if on != self.inverted {
            0xff
        } else {
            0x00
        };
        let n = self.buf.len();
        let mut i: usize = 0;
        while i < n
            invariant
                n == self.buf.len(),
                n == old(self).buf.len(),
                i <= n,
                self.width == old(self).width,
                self.height == old(self).height,
                self.rotation == old(self).rotation,
                self.mirroring == old(self).mirroring,
                self.inverted == old(self).inverted,
                value == old(self)@.fill_byte(on),
                forall|k: int| 0 <= k < i ==> self.buf@[k] == value,
            decreases n - i,
        {
            self.buf.set(i, value);
            i += 1;
        }
        assert(self@.bytes =~= Seq::new(old(self)@.bytes.len(), |i: int| old(self)@.fill_byte(on)));
    }

    /// Rotation of `rotation` degrees clockwise; a value other than 0, 90, 180 or 270 means 0.
    pub fn set_rotation(&mut self, rotation: i32)
        requires
            old(self).wf(),
        ensures
            final(self).wf(),
            final(self)@ == (PlaneView {
                rotation: DisplayRotation::spec_from_degrees(rotation),
                ..old(self)@
            }),
    {
        self.rotation = DisplayRotation::from_degrees(rotation);
    }

    pub fn set_mirroring(&mut self, mirroring: Mirroring)
        requires
            old(self).wf(),
        ensures
            final(self).wf(),
            final(self)@ == (PlaneView { mirroring, ..old(self)@ }),
    {
        self.mirroring = mirroring;
    }

    /// Records the polarity `inverted` and flips every stored bit.
    pub fn set_inverted(&mut self, inverted: bool)
        requires
            old(self).wf(),
        ensures
            final(self).wf(),
            final(self)@ == (PlaneView {
                inverted,
                bytes: Seq::new(old(self)@.bytes.len(), |i: int| !old(self)@.bytes[i]),
                ..old(self)@
            }),
    {
        self.inverted = inverted;
        let n = self.buf.len();
        let mut i: usize = 0;
        while i < n
            invariant
                n == self.buf.len(),
                n == old(self).buf.len(),
                i <= n,
                self.width == old(self).width,
                self.height == old(self).height,
                self.rotation == old(self).rotation,
                self.mirroring == old(self).mirroring,
                self.inverted == inverted,
                forall|k: int| 0 <= k < i ==> self.buf@[k] == !old(self).buf@[k],
                forall|k: int| i <= k < n ==> self.buf@[k] == old(self).buf@[k],
            decreases n - i,
        {
            let b = self.buf[i];
            self.buf.set(i, !b);
            i += 1;
        }
        assert(self@.bytes =~= Seq::new(old(self)@.bytes.len(), |i: int| !old(self)@.bytes[i]));
    }

    /// Sets logical pixel (x, y) to `on`; a pixel out of range is dropped.
    pub fn set_pixel(&mut self, x: usize, y: usize, on: bool)
        requires
            old(self).wf(),
        ensures
            final(self).wf(),
            final(self)@ == old(self)@.with_pixel(x as int, y as int, on),
    {
        let w = self.width;
        let h = self.height;
        let (lw, lh) = match self.rotation {
            DisplayRotation::Rotate0 | DisplayRotation::Rotate180 => (w, h),
            _ => (h, w),
        };
        if x >= lw || y >= lh {
            return;
        }
        let (px, py) = match self.rotation {
            DisplayRotation::Rotate0 => (x, y),
            DisplayRotation::Rotate90 => (w - y - 1, x),
            DisplayRotation::Rotate180 => (w - x - 1, h - y - 1),
            DisplayRotation::Rotate270 => (y, h - x - 1),
        };
        let (px, py) = match self.mirroring {
            Mirroring::NoMirroring => (px, py),
            Mirroring::Horizontal => (w - px - 1, py),
            Mirroring::Vertical => (px, h - py - 1),
            Mirroring::Origin => (w - px - 1, h - py - 1),
        };
        proof {
            lemma_pixel_place(self@, x as int, y as int);
            assert((px as int, py as int) == self@.physical(x as int, y as int));
        }
        let n = self.buf.len();
        let bpr = row_bytes(w, 1);
        assert(bpr * py + px / 8 == self@.pixel_byte(x as int, y as int));
        assert(bpr * py + px / 8 < n);
        let k = bpr * py + px / 8;
        let j = (px % 8) as u8;
        let b = self.buf[k];
        let nb = if on ^ self.inverted {
            b | (0x80u8 >> j)
        } else {
            b & !(0x80u8 >> j)
        };
        self.buf.set(k, nb);
    }

    /// Sets logical pixel (x, y) to `on`; a pixel out of range, or at a negative coordinate, is dropped.
    pub fn draw_pixel(&mut self, x: i32, y: i32, on: bool)
        requires
            old(self).wf(),
        ensures
            final(self).wf(),
            final(self)@ == old(self)@.with_pixel(x as int, y as int, on),
    {
        if x >= 0 && y >= 0 {
            self.set_pixel(x as usize, y as usize, on);
        }
    }

    /// Whether logical (x, y) lies on the plane under its rotation: a write
    /// anywhere else is dropped.
    pub fn contains(&self, x: i32, y: i32) -> (r: bool)
        ensures
            r == self@.in_bounds(x as int, y as int),
    {
        if x < 0 || y < 0 {
            return false;
        }
        let (lw, lh) = self.bounding_box();
        (x as usize) < lw && (y as usize) < lh
    }

    pub fn as_bytes(&self) -> (r: &[u8])
        ensures
            r@ == self@.bytes,
    {
        self.buf.as_slice()
    }

    /// (width, height) as a caller sees them: swapped under a quarter turn.
    pub fn bounding_box(&self) -> (r: (usize, usize))
        ensures
            r.0 == self@.bounding_box().0,
            r.1 == self@.bounding_box().1,
    {
        match self.rotation {
            DisplayRotation::Rotate0 | DisplayRotation::Rotate180 => (self.width, self.height),
            _ => (self.height, self.width),
        }
    }
}


// ---------------------------------------------------------------------------
// Gray plane

/// Whether bit `i` of `level` is set.
pub open spec fn level_bit(level: int, i: int) -> bool {
    (level / pow2(i as nat) as int) % 2 == 1
}

/// The level made of the `n` low bits of the pixel at physical (px, py).
pub open spec fn read_level(s: Seq<u8>, w: int, bits: int, px: int, py: int, n: nat) -> int
    decreases n,
{
    if n == 0 {
        0
    } else {
        read_level(s, w, bits, px, py, (n - 1) as nat) + if bit_at(
            s,
            bit_byte(w, bits, px, py, n - 1),
            bit_index(bits, px, n - 1),
        ) {
            pow2((n - 1) as nat) as int
        } else {
            0
        }
    }
}

/// `s` after the `n` low bits of `level` are stored at the pixel at physical (px, py).
pub open spec fn write_level(
    s: Seq<u8>,
    w: int,
    bits: int,
    px: int,
    py: int,
    level: int,
    n: nat,
) -> Seq<u8>
    decreases n,
{
    if n == 0 {
        s
    } else {
        write_bit(
            write_level(s, w, bits, px, py, level, (n - 1) as nat),
            bit_byte(w, bits, px, py, n - 1),
            bit_index(bits, px, n - 1),
            level_bit(level, n - 1),
        )
    }
}

/// What a gray plane holds: its geometry, its bit depth, its transform and its bytes.
pub struct GrayPlaneView {
    pub width: int,
    pub height: int,
    pub bits: int,
    pub rotation: DisplayRotation,
    pub mirroring: Mirroring,
    pub bytes: Seq<u8>,
}

impl GrayPlaneView {
    pub open spec fn wf(self) -> bool {
        &&& 0 <= self.width
        &&& 0 <= self.height
        &&& valid_bits(self.bits)
        &&& self.width * self.height * 8 <= usize::MAX
        &&& self.bytes.len() == bytes_per_row(self.width, self.bits) * self.height
    }

    pub open spec fn in_bounds(self, x: int, y: int) -> bool {
        in_bounds(self.rotation, self.width, self.height, x, y)
    }

    pub open spec fn physical(self, x: int, y: int) -> (int, int) {
        to_physical(self.rotation, self.mirroring, self.width, self.height, x, y)
    }

    /// Level stored at physical (px, py), with no rotation or mirroring.
    pub open spec fn raw_level(self, px: int, py: int) -> int {
        read_level(self.bytes, self.width, self.bits, px, py, self.bits as nat)
    }

    /// The plane after logical pixel (x, y) takes `level`; unchanged where (x, y) is out of range.
    pub open spec fn with_level(self, x: int, y: int, level: int) -> GrayPlaneView {
        if self.in_bounds(x, y) {
            GrayPlaneView {
                bytes: write_level(
                    self.bytes,
                    self.width,
                    self.bits,
                    self.physical(x, y).0,
                    self.physical(x, y).1,
                    level,
                    self.bits as nat,
                ),
                ..self
            }
        } else {
            self
        }
    }

    pub open spec fn bounding_box(self) -> (int, int) {
        logical_size(self.rotation, self.width, self.height)
    }

    /// Whether bit `j` of byte `k` of the pass frame for `level` is set (light):
    /// it is clear (dark) exactly where a pixel's stored level is below `level`.
    pub open spec fn pass_light(self, level: int, k: int, j: int) -> bool {
        let row = bytes_per_row(self.width, 1);
        let x = (k % row) * 8 + j;
        let y = k / row;
        !(x < self.width && self.raw_level(x, y) < level)
    }

    /// The `n` leading bits of byte `k` of the pass frame for `level`.
    pub open spec fn pass_byte(self, level: int, k: int, n: nat) -> u8
        decreases n,
    {
        if n == 0 {
            0
        } else if self.pass_light(level, k, n - 1) {
            self.pass_byte(level, k, (n - 1) as nat) | mask(n - 1)
        } else {
            self.pass_byte(level, k, (n - 1) as nat)
        }
    }

    /// The one-bit-per-pixel frame shown by the pass for `level`.
    pub open spec fn pass_frame(self, level: int) -> Seq<u8> {
        Seq::new(
            (bytes_per_row(self.width, 1) * self.height) as nat,
            |k: int| self.pass_byte(level, k, 8),
        )
    }
}

proof fn lemma_write_level_bit(
    s: Seq<u8>,
    w: int,
    bits: int,
    h: int,
    px: int,
    py: int,
    level: int,
    n: nat,
    i: int,
)
    requires
        0 < bits,
        0 <= px < w,
        0 <= py < h,
        s.len() == bytes_per_row(w, bits) * h,
        n <= bits,
        0 <= i < n,
    ensures
        write_level(s, w, bits, px, py, level, n).len() == s.len(),
        bit_at(
            write_level(s, w, bits, px, py, level, n),
            bit_byte(w, bits, px, py, i),
            bit_index(bits, px, i),
        ) == level_bit(level, i),
    decreases n,
{
    let t = write_level(s, w, bits, px, py, level, (n - 1) as nat);
    lemma_write_level_len(s, w, bits, h, px, py, level, (n - 1) as nat);
    lemma_bit_in_plane(w, bits, h, px, py, n - 1);
    lemma_bit_in_plane(w, bits, h, px, py, i);
    lemma_write_bit(
        t,
        bit_byte(w, bits, px, py, n - 1),
        bit_index(bits, px, n - 1),
        level_bit(level, n - 1),
        bit_byte(w, bits, px, py, i),
        bit_index(bits, px, i),
    );
    if i < n - 1 {
        lemma_write_level_bit(s, w, bits, h, px, py, level, (n - 1) as nat, i);
        if bit_byte(w, bits, px, py, n - 1) == bit_byte(w, bits, px, py, i) && bit_index(
            bits,
            px,
            n - 1,
        ) == bit_index(bits, px, i) {
            lemma_bit_position_unique(w, bits, px, py, n - 1, px, py, i);
        }
    }
}

proof fn lemma_write_level_len(
    s: Seq<u8>,
    w: int,
    bits: int,
    h: int,
    px: int,
    py: int,
    level: int,
    n: nat,
)
    requires
        0 < bits,
        0 <= px < w,
        0 <= py < h,
        s.len() == bytes_per_row(w, bits) * h,
        n <= bits,
    ensures
        write_level(s, w, bits, px, py, level, n).len() == s.len(),
    decreases n,
{
    if n > 0 {
        lemma_write_level_len(s, w, bits, h, px, py, level, (n - 1) as nat);
        lemma_bit_in_plane(w, bits, h, px, py, n - 1);
    }
}

proof fn lemma_read_level(s: Seq<u8>, w: int, bits: int, px: int, py: int, level: int, n: nat)
    requires
        0 <= level,
        forall|i: int|
            0 <= i < n ==> #[trigger] bit_at(s, bit_byte(w, bits, px, py, i), bit_index(bits, px, i))
                == level_bit(level, i),
    ensures
        read_level(s, w, bits, px, py, n) == level % pow2(n) as int,
    decreases n,
{
    lemma_pow2_pos(n);
    if n > 0 {
        let m = (n - 1) as nat;
        lemma_read_level(s, w, bits, px, py, level, m);
        lemma_pow2_pos(m);
        lemma_pow2_unfold(n);
        lemma_mod_breakdown(level, pow2(m) as int, 2);
        assert(bit_at(s, bit_byte(w, bits, px, py, m as int), bit_index(bits, px, m as int))
            == level_bit(level, m as int));
    } else {
        assert(pow2(0) == 1) by {
            lemma2_to64();
        }
    }
}

proof fn lemma_read_level_bound(s: Seq<u8>, w: int, bits: int, px: int, py: int, n: nat)
    ensures
        0 <= read_level(s, w, bits, px, py, n) < pow2(n),
    decreases n,
{
    lemma_pow2_pos(n);
    if n > 0 {
        lemma_read_level_bound(s, w, bits, px, py, (n - 1) as nat);
        lemma_pow2_unfold(n);
    } else {
        lemma2_to64();
    }
}

/// A level written at a logical pixel reads back unchanged from the physical
/// position that the pixel maps to, for every level the bit depth holds.
pub proof fn lemma_gray_round_trip(v: GrayPlaneView, x: int, y: int, level: int)
    requires
        v.wf(),
        v.in_bounds(x, y),
        0 <= level <= max_level(v.bits),
    ensures
        v.with_level(x, y, level).raw_level(v.physical(x, y).0, v.physical(x, y).1) == level,
{
    let p = v.physical(x, y);
    lemma_physical_in_plane(v.rotation, v.mirroring, v.width, v.height, x, y);
    let t = v.with_level(x, y, level).bytes;
    assert forall|i: int| 0 <= i < v.bits implies #[trigger] bit_at(
        t,
        bit_byte(v.width, v.bits, p.0, p.1, i),
        bit_index(v.bits, p.0, i),
    ) == level_bit(level, i) by {
        lemma_write_level_bit(v.bytes, v.width, v.bits, v.height, p.0, p.1, level, v.bits as nat, i);
    }
    lemma_read_level(t, v.width, v.bits, p.0, p.1, level, v.bits as nat);
    lemma_pow2_pos(v.bits as nat);
    lemma_small_mod(level as nat, pow2(v.bits as nat));
}

/// Storing the bits of the pixel at physical (px, py) leaves every bit of any
/// other pixel (qx, qy) as it was.
proof fn lemma_write_level_other_bit(
    s: Seq<u8>,
    w: int,
    bits: int,
    h: int,
    px: int,
    py: int,
    level: int,
    n: nat,
    qx: int,
    qy: int,
    i: int,
)
    requires
        0 < bits,
        0 <= px < w,
        0 <= py < h,
        0 <= qx < w,
        0 <= qy < h,
        px != qx || py != qy,
        s.len() == bytes_per_row(w, bits) * h,
        n <= bits,
        0 <= i < bits,
    ensures
        bit_at(write_level(s, w, bits, px, py, level, n), bit_byte(w, bits, qx, qy, i), bit_index(bits, qx, i))
            == bit_at(s, bit_byte(w, bits, qx, qy, i), bit_index(bits, qx, i)),
    decreases n,
{
    if n > 0 {
        let t = write_level(s, w, bits, px, py, level, (n - 1) as nat);
        lemma_write_level_other_bit(s, w, bits, h, px, py, level, (n - 1) as nat, qx, qy, i);
        lemma_write_level_len(s, w, bits, h, px, py, level, (n - 1) as nat);
        lemma_bit_in_plane(w, bits, h, px, py, n - 1);
        lemma_bit_in_plane(w, bits, h, qx, qy, i);
        lemma_write_bit(
            t,
            bit_byte(w, bits, px, py, n - 1),
            bit_index(bits, px, n - 1),
            level_bit(level, n - 1),
            bit_byte(w, bits, qx, qy, i),
            bit_index(bits, qx, i),
        );
        if bit_byte(w, bits, px, py, n - 1) == bit_byte(w, bits, qx, qy, i) && bit_index(bits, px, n - 1)
            == bit_index(bits, qx, i) {
            lemma_bit_position_unique(w, bits, px, py, n - 1, qx, qy, i);
        }
    }
}

proof fn lemma_read_level_unchanged(
    s: Seq<u8>,
    w: int,
    bits: int,
    h: int,
    px: int,
    py: int,
    level: int,
    qx: int,
    qy: int,
    n: nat,
)
    requires
        0 < bits,
        0 <= px < w,
        0 <= py < h,
        0 <= qx < w,
        0 <= qy < h,
        px != qx || py != qy,
        s.len() == bytes_per_row(w, bits) * h,
        n <= bits,
    ensures
        read_level(write_level(s, w, bits, px, py, level, bits as nat), w, bits, qx, qy, n)
            == read_level(s, w, bits, qx, qy, n),
    decreases n,
{
    if n > 0 {
        lemma_read_level_unchanged(s, w, bits, h, px, py, level, qx, qy, (n - 1) as nat);
        lemma_write_level_other_bit(s, w, bits, h, px, py, level, bits as nat, qx, qy, n - 1);
    }
}

/// Writing a logical pixel of a gray plane leaves the level stored at every
/// other physical position as it was: no two pixels share a bit, under each
/// rotation and mirroring.
pub proof fn lemma_gray_write_keeps_others(v: GrayPlaneView, x: int, y: int, level: int, qx: int, qy: int)
    requires
        v.wf(),
        v.in_bounds(x, y),
        0 <= qx < v.width,
        0 <= qy < v.height,
        (qx, qy) != v.physical(x, y),
    ensures
        v.with_level(x, y, level).raw_level(qx, qy) == v.raw_level(qx, qy),
{
    let p = v.physical(x, y);
    lemma_physical_in_plane(v.rotation, v.mirroring, v.width, v.height, x, y);
    lemma_read_level_unchanged(v.bytes, v.width, v.bits, v.height, p.0, p.1, level, qx, qy, v.bits as nat);
}

proof fn lemma_pass_byte_bit(v: GrayPlaneView, level: int, k: int, n: nat, j: int)
    requires
        n <= 8,
        0 <= j < 8,
    ensures
        (v.pass_byte(level, k, n) & mask(j) != 0) == (j < n && v.pass_light(level, k, j)),
    decreases n,
{
    if n == 0 {
        let c = j as u8;
        assert(0u8 & (0x80u8 >> c) == 0) by (bit_vector);
    } else {
        lemma_pass_byte_bit(v, level, k, (n - 1) as nat, j);
        if v.pass_light(level, k, n - 1) {
            lemma_with_bit(v.pass_byte(level, k, (n - 1) as nat), n - 1, true, j);
        }
    }
}

/// Pixel (x, y) of a one-bit plane with `row` bytes a row is bit `j` of byte `k` exactly
/// where `k` and `j` name it.
proof fn lemma_pass_place(row: int, w: int, x: int, y: int, k: int, j: int)
    requires
        row == bytes_per_row(w, 1),
        0 <= x < w,
        0 <= y,
        0 <= k,
        0 <= j < 8,
    ensures
        (k / row == y && (k % row) * 8 + j == x) == (k == row * y + x / 8 && j == x % 8),
        (row * y + x / 8) / row == y,
        (row * y + x / 8) % row == x / 8,
{
    lemma_bit_in_plane(w, 1, y + 1, x, y, 0);
    assert(0 < row);
    lemma_fundamental_div_mod_converse(row * y + x / 8, row, y, x / 8);
    if k / row == y && (k % row) * 8 + j == x {
        lemma_fundamental_div_mod_converse(x, 8, k % row, j);
        vstd::arithmetic::div_mod::lemma_fundamental_div_mod(k, row);
    }
}

/// A plane of `bits` bits per pixel, for the gray levels of `C`.
pub struct GrayFrameBuffer<C> {
    buf: Vec<u8>,
    width: usize,
    height: usize,
    bits: usize,
    rotation: DisplayRotation,
    mirroring: Mirroring,
    color: PhantomData<C>,
}

impl<C> View for GrayFrameBuffer<C> {
    type V = GrayPlaneView;

    closed spec fn view(&self) -> GrayPlaneView {
        GrayPlaneView {
            width: self.width as int,
            height: self.height as int,
            bits: self.bits as int,
            rotation: self.rotation,
            mirroring: self.mirroring,
            bytes: self.buf@,
        }
    }
}

impl<C: GrayColorInBits> GrayFrameBuffer<C> {
    pub open spec fn wf(&self) -> bool {
        &&& self@.wf()
        &&& self@.bits == C::spec_bits_per_pixel()
    }

    /// A plane of `width` x `height` pixels, every pixel at the largest level.
    pub fn new(width: usize, height: usize) -> (r: Self)
        requires
            width * height * 8 <= usize::MAX,
        ensures
            r.wf(),
            r@.width == width,
            r@.height == height,
            r@.rotation == DisplayRotation::Rotate0,
            r@.mirroring == Mirroring::NoMirroring,
            r@.bytes == Seq::new(r@.bytes.len(), |i: int| 0xffu8),
    {
        let bits = C::bits_per_pixel();
        let n = plane_bytes(width, height, bits);
        let buf = vec![0xffu8; n];
        let r = GrayFrameBuffer {
            buf,
            width,
            height,
            bits,
            rotation: DisplayRotation::Rotate0,
            mirroring: Mirroring::NoMirroring,
            color: PhantomData,
        };
        assert(r@.bytes =~= Seq::new(r@.bytes.len(), |i: int| 0xffu8));
        r
    }

    /// Sets every bit: to 1 where `on`, to 0 otherwise.
    pub fn fill(&mut self, on: bool)
        requires
            old(self).wf(),
        ensures
            final(self).wf(),
            final(self)@ == (GrayPlaneView {
                bytes: Seq::new(old(self)@.bytes.len(), |i: int| if on { 0xffu8 } else { 0x00u8 }),
                ..old(self)@
            }),
    {
        let value: u8 = if on {
            0xff
        } else {
            0x00
        };
        let n = self.buf.len();
        let mut i: usize = 0;
        while i < n
            invariant
                n == self.buf.len(),
                n == old(self).buf.len(),
                i <= n,
                self.width == old(self).width,
                self.height == old(self).height,
                self.bits == old(self).bits,
                self.rotation == old(self).rotation,
                self.mirroring == old(self).mirroring,
                value == (if on { 0xffu8 } else { 0x00u8 }),
                forall|k: int| 0 <= k < i ==> self.buf@[k] == value,
            decreases n - i,
        {
            self.buf.set(i, value);
            i += 1;
        }
        assert(self@.bytes =~= Seq::new(
            old(self)@.bytes.len(),
            |i: int| if on { 0xffu8 } else { 0x00u8 },
        ));
    }

    /// Rotation of `rotation` degrees clockwise; a value other than 0, 90, 180 or 270 means 0.
    pub fn set_rotation(&mut self, rotation: i32)
        requires
            old(self).wf(),
        ensures
            final(self).wf(),
            final(self)@ == (GrayPlaneView {
                rotation: DisplayRotation::spec_from_degrees(rotation),
                ..old(self)@
            }),
    {
        self.rotation = DisplayRotation::from_degrees(rotation);
    }

    pub fn set_mirroring(&mut self, mirroring: Mirroring)
        requires
            old(self).wf(),
        ensures
            final(self).wf(),
            final(self)@ == (GrayPlaneView { mirroring, ..old(self)@ }),
    {
        self.mirroring = mirroring;
    }

    /// Whether logical (x, y) lies on the plane under its rotation: a write
    /// anywhere else is dropped.
    pub fn contains(&self, x: i32, y: i32) -> (r: bool)
        ensures
            r == self@.in_bounds(x as int, y as int),
    {
        if x < 0 || y < 0 {
            return false;
        }
        let (lw, lh) = self.bounding_box();
        (x as usize) < lw && (y as usize) < lh
    }

    pub fn as_bytes(&self) -> (r: &[u8])
        ensures
            r@ == self@.bytes,
    {
        self.buf.as_slice()
    }

    /// The colour stored at physical (x, y), with no rotation or mirroring;
    /// the largest level outside the plane.
    pub fn get_pixel_in_raw_pos(&self, x: usize, y: usize) -> (r: C)
        requires
            self.wf(),
        ensures
            r.spec_luma() == (if x < self@.width && y < self@.height {
                self@.raw_level(x as int, y as int)
            } else {
                max_level(self@.bits)
            }),
    {
        if x >= self.width || y >= self.height {
            return C::from_u8(C::max_value());
        }
        let w = self.width;
        let h = self.height;
        let b = self.bits;
        let n = self.buf.len();
        assert(w * b <= w * h * 8) by (nonlinear_arith)
            requires
                b <= 8,
                h >= 1,
        ;
        let bpr = row_bytes(w, b);
        let mut luma: u8 = 0;
        let mut p: u16 = 1;
        let mut i: usize = 0;
        proof {
            lemma2_to64();
        }
        while i < b
            invariant
                self.wf(),
                w == self@.width,
                h == self@.height,
                b == self@.bits,
                n == self@.bytes.len(),
                x < w,
                y < h,
                w * b <= usize::MAX,
                bpr == bytes_per_row(w as int, b as int),
                i <= b,
                p == pow2(i as nat),
                luma == read_level(self@.bytes, w as int, b as int, x as int, y as int, i as nat),
            decreases b - i,
        {
            proof {
                lemma_bit_in_plane(w as int, b as int, h as int, x as int, y as int, i as int);
                lemma_read_level_bound(self@.bytes, w as int, b as int, x as int, y as int, i as nat);
                lemma_pow2_unfold((i + 1) as nat);
                lemma2_to64();
                if i + 1 < 8 {
                    lemma_pow2_strictly_increases((i + 1) as nat, 8);
                }
            }
            let bi = x * b + i;
            let k = bpr * y + bi / 8;
            let j = (bi % 8) as u8;
            assert(k == bit_byte(w as int, b as int, x as int, y as int, i as int));
            assert(j == bit_index(b as int, x as int, i as int));
            if self.buf[k] & (0x80u8 >> j) != 0 {
                luma = luma + p as u8;
            }
            p = p * 2;
            i = i + 1;
        }
        proof {
            lemma_read_level_bound(self@.bytes, w as int, b as int, x as int, y as int, b as nat);
            lemma_pow2_pos(b as nat);
        }
        C::from_u8(luma)
    }

    /// Stores `pixel` at logical (x, y); a pixel out of range is dropped.
    pub fn set_pixel(&mut self, x: usize, y: usize, pixel: C)
        requires
            old(self).wf(),
        ensures
            final(self).wf(),
            final(self)@ == old(self)@.with_level(x as int, y as int, pixel.spec_luma()),
    {
        let w = self.width;
        let h = self.height;
        let b = self.bits;
        let (lw, lh) = match self.rotation {
            DisplayRotation::Rotate0 | DisplayRotation::Rotate180 => (w, h),
            _ => (h, w),
        };
        if x >= lw || y >= lh {
            return;
        }
        let (px, py) = match self.rotation {
            DisplayRotation::Rotate0 => (x, y),
            DisplayRotation::Rotate90 => (w - y - 1, x),
            DisplayRotation::Rotate180 => (w - x - 1, h - y - 1),
            DisplayRotation::Rotate270 => (y, h - x - 1),
        };
        let (px, py) = match self.mirroring {
            Mirroring::NoMirroring => (px, py),
            Mirroring::Horizontal => (w - px - 1, py),
            Mirroring::Vertical => (px, h - py - 1),
            Mirroring::Origin => (w - px - 1, h - py - 1),
        };
        proof {
            lemma_physical_in_plane(self.rotation, self.mirroring, w as int, h as int, x as int, y as int);
            assert((px as int, py as int) == self@.physical(x as int, y as int));
        }
        let level = pixel.luma();
        let n = self.buf.len();
        assert(w * b <= w * h * 8) by (nonlinear_arith)
            requires
                b <= 8,
                h >= 1,
        ;
        let bpr = row_bytes(w, b);
        let ghost s0 = self@.bytes;
        let mut p: u16 = 1;
        let mut i: usize = 0;
        proof {
            lemma2_to64();
        }
        while i < b
            invariant
                old(self).wf(),
                self.width == old(self).width,
                self.height == old(self).height,
                self.bits == old(self).bits,
                self.rotation == old(self).rotation,
                self.mirroring == old(self).mirroring,
                s0 == old(self)@.bytes,
                w == self@.width,
                h == self@.height,
                b == self@.bits,
                valid_bits(b as int),
                n == s0.len(),
                px < w,
                py < h,
                w * b <= usize::MAX,
                bpr == bytes_per_row(w as int, b as int),
                i <= b,
                p == pow2(i as nat),
                self@.bytes == write_level(s0, w as int, b as int, px as int, py as int, level as int, i as nat),
            decreases b - i,
        {
            proof {
                lemma_bit_in_plane(w as int, b as int, h as int, px as int, py as int, i as int);
                lemma_write_level_len(s0, w as int, b as int, h as int, px as int, py as int, level as int, i as nat);
                lemma_pow2_unfold((i + 1) as nat);
                lemma_pow2_pos(i as nat);
                lemma2_to64();
                if i + 1 < 8 {
                    lemma_pow2_strictly_increases((i + 1) as nat, 8);
                }
            }
            let bi = px * b + i;
            let k = bpr * py + bi / 8;
            let j = (bi % 8) as u8;
            let bit = (level as u16 / p) % 2 == 1;
            let old_byte = self.buf[k];
            let new_byte = if bit {
                old_byte | (0x80u8 >> j)
            } else {
                old_byte & !(0x80u8 >> j)
            };
            self.buf.set(k, new_byte);
            p = p * 2;
            i = i + 1;
        }
        proof {
            lemma_write_level_len(s0, w as int, b as int, h as int, px as int, py as int, level as int, b as nat);
        }
    }

    /// Stores `pixel` at logical (x, y); a pixel out of range, or at a negative coordinate, is dropped.
    pub fn draw_pixel(&mut self, x: i32, y: i32, pixel: C)
        requires
            old(self).wf(),
        ensures
            final(self).wf(),
            final(self)@ == old(self)@.with_level(x as int, y as int, pixel.spec_luma()),
    {
        if x >= 0 && y >= 0 {
            self.set_pixel(x as usize, y as usize, pixel);
        }
    }

    /// The one-bit-per-pixel frame of the pass for `level`: all light, but dark
    /// wherever the stored level (read in raw physical order) is below `level`.
    pub fn pass_frame(&self, level: u8) -> (r: Vec<u8>)
        requires
            self.wf(),
        ensures
            r@ == self@.pass_frame(level as int),
    {
        let w = self.width;
        let h = self.height;
        let row = row_bytes(w, 1);
        let n = plane_bytes(w, h, 1);
        let mut frame = vec![0xffu8; n];
        let ghost v = self@;
        assert forall|k: int, j: int| 0 <= k < n && 0 <= j < 8 implies #[trigger] bit_at(frame@, k, j) by {
            let c = j as u8;
            assert(0xffu8 & (0x80u8 >> c) != 0) by (bit_vector)
                requires
                    c < 8,
            ;
        }
        let mut y: usize = 0;
        while y < h
            invariant
                self.wf(),
                v == self@,
                w == v.width,
                h == v.height,
                row == bytes_per_row(w as int, 1),
                n == row * h,
                frame@.len() == n,
                y <= h,
                forall|k: int, j: int|
                    0 <= k < n && 0 <= j < 8 ==> #[trigger] bit_at(frame@, k, j) == (if k / (row as int) < y {
                        v.pass_light(level as int, k, j)
                    } else {
                        true
                    }),
            decreases h - y,
        {
            let mut x: usize = 0;
            while x < w
                invariant
                    self.wf(),
                    v == self@,
                    w == v.width,
                    h == v.height,
                    row == bytes_per_row(w as int, 1),
                    n == row * h,
                    frame@.len() == n,
                    y < h,
                    x <= w,
                    forall|k: int, j: int|
                        0 <= k < n && 0 <= j < 8 ==> #[trigger] bit_at(frame@, k, j) == (if k / (row as int) < y
                            || (k / (row as int) == y && (k % (row as int)) * 8 + j < x) {
                            v.pass_light(level as int, k, j)
                        } else {
                            true
                        }),
                decreases w - x,
            {
                let value = self.get_pixel_in_raw_pos(x, y).luma();
                proof {
                    lemma_bit_in_plane(w as int, 1, h as int, x as int, y as int, 0);
                }
                let k0 = row * y + x / 8;
                let j0 = (x % 8) as u8;
                let ghost before = frame@;
                if value < level {
                    let byte = frame[k0];
                    frame.set(k0, byte & !(0x80u8 >> j0));
                }
                assert forall|k: int, j: int| 0 <= k < n && 0 <= j < 8 implies #[trigger] bit_at(
                    frame@,
                    k,
                    j,
                ) == (if k / (row as int) < y || (k / (row as int) == y && (k % (row as int)) * 8 + j < x + 1) {
                    v.pass_light(level as int, k, j)
                } else {
                    true
                }) by {
                    lemma_pass_place(row as int, w as int, x as int, y as int, k, j);
                    lemma_pass_place(row as int, w as int, x as int, y as int, k0 as int, j0 as int);
                    if value < level {
                        lemma_write_bit(before, k0 as int, j0 as int, false, k, j);
                    }
                }
                x = x + 1;
            }
            assert forall|k: int, j: int| 0 <= k < n && 0 <= j < 8 implies #[trigger] bit_at(
                frame@,
                k,
                j,
            ) == (if k / (row as int) < y + 1 {
                v.pass_light(level as int, k, j)
            } else {
                true
            }) by {
                if k / (row as int) == y && (k % (row as int)) * 8 + j >= w {
                    assert(v.pass_light(level as int, k, j));
                }
            }
            y = y + 1;
        }
        assert forall|k: int| 0 <= k < n implies frame@[k] == #[trigger] v.pass_frame(level as int)[k] by {
            assert(k / (row as int) < h) by {
                vstd::arithmetic::div_mod::lemma_div_is_ordered_by_denominator(k, row as int, row as int);
                if k / (row as int) >= h {
                    vstd::arithmetic::div_mod::lemma_fundamental_div_mod(k, row as int);
                    assert((row as int) * (k / (row as int)) >= (row as int) * (h as int)) by (nonlinear_arith)
                        requires
                            k / (row as int) >= h as int,
                            row >= 0,
                    ;
                    vstd::arithmetic::div_mod::lemma_mod_pos_bound(k, row as int);
                }
            }
            assert forall|j: int| 0 <= j < 8 implies ((frame@[k] & #[trigger] mask(j) != 0) == (
            v.pass_byte(level as int, k, 8) & mask(j) != 0)) by {
                lemma_pass_byte_bit(v, level as int, k, 8, j);
                assert(bit_at(frame@, k, j) == v.pass_light(level as int, k, j));
            }
            lemma_bits_determine_byte(frame@[k], v.pass_byte(level as int, k, 8));
        }
        assert(frame@ =~= v.pass_frame(level as int));
        frame
    }

    /// (width, height) as a caller sees them: swapped under a quarter turn.
    pub fn bounding_box(&self) -> (r: (usize, usize))
        ensures
            r.0 == self@.bounding_box().0,
            r.1 == self@.bounding_box().1,
    {
        match self.rotation {
            DisplayRotation::Rotate0 | DisplayRotation::Rotate180 => (self.width, self.height),
            _ => (self.height, self.width),
        }
    }
}

} // verus!
