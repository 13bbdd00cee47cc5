use epd_driver::color::{Gray2, Gray3, Gray4, Gray8, GrayColorInBits};
use epd_driver::display::{DisplayRotation, FrameBuffer, GrayFrameBuffer, Mirroring};

fn changed_bytes(before: &[u8], after: &[u8]) -> Vec<usize> {
    (0..before.len()).filter(|&i| before[i] != after[i]).collect()
}

#[test]
fn new_ones_is_all_light() {
    let fb = FrameBuffer::new_ones(128, 296);
    assert_eq!(fb.as_bytes().len(), 16 * 296);
    assert!(fb.as_bytes().iter().all(|&b| b == 0xff));
}

#[test]
fn new_is_all_zero() {
    let fb = FrameBuffer::new(122, 250);
    assert_eq!(fb.as_bytes().len(), 16 * 250);
    assert!(fb.as_bytes().iter().all(|&b| b == 0x00));
}

#[test]
fn light_fill_under_inversion_is_all_zero() {
    let mut fb = FrameBuffer::new_inverted(16, 4);
    assert!(fb.as_bytes().iter().all(|&b| b == 0xff));
    fb.fill(true);
    assert!(fb.as_bytes().iter().all(|&b| b == 0x00));
    fb.fill(false);
    assert!(fb.as_bytes().iter().all(|&b| b == 0xff));
}

#[test]
fn fill_follows_polarity() {
    let mut fb = FrameBuffer::new(16, 2);
    fb.fill(true);
    assert!(fb.as_bytes().iter().all(|&b| b == 0xff));
    fb.fill(false);
    assert!(fb.as_bytes().iter().all(|&b| b == 0x00));
}

#[test]
fn set_inverted_flips_every_byte() {
    let mut fb = FrameBuffer::new(16, 2);
    fb.set_pixel(0, 0, true);
    assert_eq!(fb.as_bytes()[0], 0x80);
    fb.set_inverted(true);
    assert_eq!(fb.as_bytes()[0], 0x7f);
    assert!(fb.as_bytes()[1..].iter().all(|&b| b == 0xff));
}

#[test]
fn toggling_a_pixel_flips_one_bit() {
    let mut fb = FrameBuffer::new_ones(20, 3);
    let before = fb.as_bytes().to_vec();
    fb.set_pixel(9, 2, false);
    let after = fb.as_bytes().to_vec();
    // row of 3 bytes; pixel 9 of row 2 is byte 2 * 3 + 1, bit 0x40
    assert_eq!(changed_bytes(&before, &after), vec![7]);
    assert_eq!(before[7] ^ after[7], 0x40);
    fb.set_pixel(9, 2, true);
    assert_eq!(fb.as_bytes().to_vec(), before);
}

#[test]
fn rotation_270_origin_pixel() {
    // 128 x 296, rotation 270: logical (0, 0) is physical (0, 295)
    let mut fb = FrameBuffer::new(128, 296);
    fb.set_rotation(270);
    let before = fb.as_bytes().to_vec();
    fb.set_pixel(0, 0, true);
    let after = fb.as_bytes().to_vec();
    assert_eq!(changed_bytes(&before, &after), vec![16 * 295]);
    assert_eq!(after[16 * 295], 0x80);
}

#[test]
fn rotation_270_origin_pixel_inverted() {
    let mut fb = FrameBuffer::new_inverted(128, 296);
    fb.set_rotation(270);
    fb.set_pixel(0, 0, true);
    let bytes = fb.as_bytes();
    assert_eq!(bytes[16 * 295], 0x7f);
    assert_eq!(bytes.iter().filter(|&&b| b != 0xff).count(), 1);
}

#[test]
fn origin_pixel_without_rotation_is_byte_zero_bit_seven() {
    let mut fb = FrameBuffer::new(128, 296);
    fb.set_pixel(0, 0, true);
    assert_eq!(fb.as_bytes()[0], 0x80);
    assert!(fb.as_bytes()[1..].iter().all(|&b| b == 0x00));
}

#[test]
fn each_rotation_maps_the_corner() {
    // 16 x 8 plane, 2 bytes a row; logical (1, 0) under each rotation
    let cases = [(0, 0usize, 0x40u8), (90, 2 * 1 + 1, 0x01), (180, 2 * 7 + 1, 0x02), (270, 2 * 6, 0x80)];
    for (degrees, byte, bit) in cases {
        let mut fb = FrameBuffer::new(16, 8);
        fb.set_rotation(degrees);
        fb.set_pixel(1, 0, true);
        let bytes = fb.as_bytes();
        assert_eq!(bytes[byte], bit, "rotation {}", degrees);
        assert_eq!(bytes.iter().filter(|&&b| b != 0).count(), 1, "rotation {}", degrees);
    }
}

#[test]
fn mirroring_maps_the_corner() {
    let cases = [
        (Mirroring::NoMirroring, 0usize, 0x80u8),
        (Mirroring::Horizontal, 1, 0x01),
        (Mirroring::Vertical, 2 * 7, 0x80),
        (Mirroring::Origin, 2 * 7 + 1, 0x01),
    ];
    for (m, byte, bit) in cases {
        let mut fb = FrameBuffer::new(16, 8);
        fb.set_mirroring(m);
        fb.set_pixel(0, 0, true);
        assert_eq!(fb.as_bytes()[byte], bit);
        assert_eq!(fb.as_bytes().iter().filter(|&&b| b != 0).count(), 1);
    }
}

#[test]
fn distinct_pixels_never_share_a_bit() {
    for degrees in [0, 90, 180, 270] {
        for m in [Mirroring::NoMirroring, Mirroring::Horizontal, Mirroring::Vertical, Mirroring::Origin] {
            let mut fb = FrameBuffer::new(12, 5);
            fb.set_rotation(degrees);
            fb.set_mirroring(m);
            let (w, h) = fb.bounding_box();
            let mut count = 0;
            for y in 0..h {
                for x in 0..w {
                    fb.set_pixel(x, y, true);
                    count += 1;
                    let on: u32 = fb.as_bytes().iter().map(|b| b.count_ones()).sum();
                    assert_eq!(on, count);
                }
            }
        }
    }
}

#[test]
fn out_of_range_pixels_are_dropped() {
    let mut fb = FrameBuffer::new(16, 8);
    assert!(!fb.contains(16, 0));
    assert!(!fb.contains(-1, 0));
    assert!(fb.contains(15, 7));
    fb.set_pixel(16, 0, true);
    fb.set_pixel(0, 8, true);
    fb.draw_pixel(-1, 0, true);
    fb.draw_pixel(3, -2, true);
    fb.set_rotation(90);
    assert!(!fb.contains(8, 0));
    assert!(fb.contains(7, 15));
    fb.set_pixel(8, 0, true);
    assert!(fb.as_bytes().iter().all(|&b| b == 0x00));
    let g = GrayFrameBuffer::<Gray2>::new(4, 2);
    assert!(g.contains(3, 1));
    assert!(!g.contains(4, 1));
}

#[test]
fn bounding_box_swaps_under_quarter_turns() {
    let mut fb = FrameBuffer::new(128, 296);
    assert_eq!(fb.bounding_box(), (128, 296));
    fb.set_rotation(90);
    assert_eq!(fb.bounding_box(), (296, 128));
    fb.set_rotation(180);
    assert_eq!(fb.bounding_box(), (128, 296));
    fb.set_rotation(270);
    assert_eq!(fb.bounding_box(), (296, 128));
    fb.set_rotation(45);
    assert_eq!(fb.bounding_box(), (128, 296));
    let mut g = GrayFrameBuffer::<Gray4>::new(104, 212);
    g.set_rotation(90);
    assert_eq!(g.bounding_box(), (212, 104));
}

#[test]
fn rotation_from_degrees() {
    assert_eq!(DisplayRotation::from_degrees(90), DisplayRotation::Rotate90);
    assert_eq!(DisplayRotation::from_degrees(270), DisplayRotation::Rotate270);
    assert_eq!(DisplayRotation::from_degrees(-90), DisplayRotation::Rotate0);
}

#[test]
fn gray_plane_two_bits_saturates() {
    let mut g = GrayFrameBuffer::<Gray2>::new(8, 1);
    assert_eq!(g.as_bytes().len(), 2);
    g.set_pixel(3, 0, Gray2::new(3));
    assert_eq!(g.get_pixel_in_raw_pos(3, 0).luma(), 3);
    g.set_pixel(3, 0, Gray2::new(7));
    assert_eq!(g.get_pixel_in_raw_pos(3, 0).luma(), 3);
}

#[test]
fn gray_bits_are_stored_low_bit_first() {
    let mut g = GrayFrameBuffer::<Gray2>::new(8, 1);
    g.fill(false);
    g.set_pixel(1, 0, Gray2::new(1));
    // pixel 1 takes bits 2 and 3 of the row; its low bit comes first
    assert_eq!(g.as_bytes(), &[0x20, 0x00]);
}

fn round_trip<C: GrayColorInBits + Copy>(w: usize, h: usize) {
    let max = C::max_value();
    let mut g = GrayFrameBuffer::<C>::new(w, h);
    for level in 0..=max {
        let x = (level as usize * 7) % w;
        let y = (level as usize * 3) % h;
        g.set_pixel(x, y, C::from_u8(level));
        assert_eq!(g.get_pixel_in_raw_pos(x, y).luma(), level);
    }
}

#[test]
fn gray_round_trip_each_depth() {
    round_trip::<Gray2>(9, 3);
    round_trip::<Gray3>(9, 3);
    round_trip::<Gray4>(9, 3);
    round_trip::<Gray8>(9, 3);
}

#[test]
fn gray_levels_saturate() {
    assert_eq!(Gray3::new(9).luma(), 7);
    assert_eq!(Gray3::new(5).luma(), 5);
    assert_eq!(Gray4::from_u8(200).luma(), 15);
    assert_eq!(Gray8::new(200).luma(), 200);
    assert_eq!(Gray2::max_value(), 3);
    assert_eq!(Gray8::bits_per_pixel(), 8);
}

#[test]
fn gray_write_leaves_neighbours() {
    let mut g = GrayFrameBuffer::<Gray3>::new(5, 2);
    g.set_pixel(2, 1, Gray3::new(2));
    for y in 0..2 {
        for x in 0..5 {
            let expected = if (x, y) == (2, 1) { 2 } else { 7 };
            assert_eq!(g.get_pixel_in_raw_pos(x, y).luma(), expected);
        }
    }
    assert_eq!(g.get_pixel_in_raw_pos(5, 0).luma(), 7);
}

#[test]
fn gray_rotation_moves_the_write() {
    let mut g = GrayFrameBuffer::<Gray4>::new(6, 4);
    g.set_rotation(90);
    g.set_pixel(0, 0, Gray4::new(9));
    // rotation 90: logical (0, 0) is physical (5, 0)
    assert_eq!(g.get_pixel_in_raw_pos(5, 0).luma(), 9);
    assert_eq!(g.get_pixel_in_raw_pos(0, 0).luma(), 15);
}

#[test]
fn pass_frame_darkens_lower_levels() {
    let mut g = GrayFrameBuffer::<Gray2>::new(10, 2);
    g.set_pixel(0, 0, Gray2::new(0));
    g.set_pixel(9, 1, Gray2::new(1));
    // level 3 pass: every pixel below 3 is dark
    assert_eq!(g.pass_frame(3), vec![0x7f, 0xff, 0xff, 0xbf]);
    assert_eq!(g.pass_frame(1), vec![0x7f, 0xff, 0xff, 0xff]);
    assert_eq!(g.pass_frame(0), vec![0xff, 0xff, 0xff, 0xff]);
}
