use epd_driver::color::{Gray4, GrayColorInBits};
use epd_driver::display::DisplaySize128x296;
use epd_driver::drivers::{Driver, SSD1608, SSD1619A, UC8176};
use epd_driver::interface::Op;
use epd_driver::{Epd, FastUpdateEpd, GrayScaleEpd, TriColor, TriColorEpd};

#[test]
fn epd_starts_light_and_flushes() {
    let mut epd: Epd<(), DisplaySize128x296, SSD1608> = Epd::new(());
    assert!(epd.framebuf.as_bytes().iter().all(|&b| b == 0xff));
    let init = epd.init();
    let mut expected = SSD1608::wake_up();
    expected.extend(SSD1608::set_shape(128, 296));
    assert_eq!(init, expected);
    epd.draw_pixel(0, 0, true);
    let ops = epd.display_frame();
    let mut expected = SSD1608::update_frame(epd.framebuf.as_bytes());
    expected.extend(<SSD1608 as Driver>::turn_on_display());
    assert_eq!(ops, expected);
    assert_eq!(epd.sleep(), SSD1608::sleep());
    epd.set_rotation(90);
    assert_eq!(epd.bounding_box(), (296, 128));
}

#[test]
fn fast_update_full_refresh_restores_then_reloads_fast() {
    let epd: FastUpdateEpd<(), DisplaySize128x296, SSD1619A> = FastUpdateEpd::new(());
    let ops = epd.display_frame_full_update();
    assert_eq!(ops[0], Op::Command(0x32));
    assert_eq!(ops[ops.len() - 11], Op::Command(0x32));
    assert_eq!(ops[ops.len() - 1], Op::WaitWhileBusy { busy_level: true });
}

#[test]
fn tri_color_table() {
    let mut epd: TriColorEpd<(), DisplaySize128x296, UC8176> = TriColorEpd::new(());
    epd.draw_pixel(0, 0, TriColor::Black);
    epd.draw_pixel(1, 0, TriColor::Red);
    epd.draw_pixel(2, 0, TriColor::White);
    // on is a set bit; a new session is all white: channel 0 all on, channel 1 all off
    // black is (0, 0), red (1, 1), white (1, 0)
    assert_eq!(epd.framebuf0.as_bytes()[0], 0b0111_1111);
    assert_eq!(epd.framebuf1.as_bytes()[0], 0b0100_0000);
    epd.draw_pixel(1, 0, TriColor::White);
    assert_eq!(epd.framebuf0.as_bytes()[0], 0b0111_1111);
    assert_eq!(epd.framebuf1.as_bytes()[0], 0b0000_0000);
    assert!(epd.framebuf1.as_bytes()[1..].iter().all(|&b| b == 0x00));
    assert!(epd.framebuf0.as_bytes()[1..].iter().all(|&b| b == 0xff));
}

#[test]
fn tri_color_flush_sends_both_channels_then_shows() {
    let epd: TriColorEpd<(), DisplaySize128x296, UC8176> = TriColorEpd::new(());
    let ops = epd.display_frame().unwrap();
    assert_eq!(ops[0], Op::Command(0x10));
    assert_eq!(ops[2], Op::Command(0x13));
    assert_eq!(ops[3], Op::Data(vec![0u8; 16 * 296]));
    assert_eq!(ops[4..].to_vec(), <UC8176 as Driver>::turn_on_display());
}

#[test]
fn gray_four_bits_takes_sixteen_passes_in_descending_order() {
    let mut epd: GrayScaleEpd<Gray4, (), DisplaySize128x296, SSD1619A> = GrayScaleEpd::new(());
    epd.draw_pixel(0, 0, Gray4::new(5));
    let ops = epd.display_frame();
    let activations = ops.iter().filter(|op| **op == Op::Data(vec![0xc5])).count();
    assert_eq!(activations, 16);
    let frames: Vec<&Vec<u8>> = ops
        .iter()
        .filter_map(|op| match op {
            Op::Data(d) if d.len() == 16 * 296 => Some(d),
            _ => None,
        })
        .collect();
    assert_eq!(frames.len(), 16);
    // passes run at levels 15 down to 0; pixel (0, 0) holds 5, so it is dark
    // in the first ten passes (levels 15..6) and light after
    for (i, frame) in frames.iter().enumerate() {
        let dark = frame[0] & 0x80 == 0;
        assert_eq!(dark, i < 10, "pass {}", i);
        assert!(frame[1..].iter().all(|&b| b == 0xff));
    }
}

#[test]
fn gray_max_level_is_never_dark() {
    let epd: GrayScaleEpd<Gray4, (), DisplaySize128x296, SSD1619A> = GrayScaleEpd::new(());
    assert_eq!(Gray4::max_value(), 15);
    let frame = epd.framebuf.pass_frame(15);
    assert!(frame.iter().all(|&b| b == 0xff));
}

#[test]
fn gray_clear_display_sends_flat_plane() {
    let mut epd: GrayScaleEpd<Gray4, (), DisplaySize128x296, SSD1619A> = GrayScaleEpd::new(());
    let ops = epd.clear_display(false);
    assert!(epd.framebuf.as_bytes().iter().all(|&b| b == 0));
    assert_eq!(ops[0], Op::Command(0x32));
    assert!(ops.contains(&Op::Data(vec![0u8; 64 * 296])));
    assert_eq!(ops[ops.len() - 1], Op::WaitWhileBusy { busy_level: true });
}
