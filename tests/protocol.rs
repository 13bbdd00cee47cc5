use epd_driver::drivers::il3895::command::Command;
use epd_driver::drivers::{
    Driver, FastUpdateDriver, GrayScaleDriver, MultiColorDriver, PervasiveDisplays, WaveformDriver, IL3895,
    SSD1608, SSD1608Fast, SSD1619A, SSD1675B, SSD1680, UC8176, UC8179,
};
use epd_driver::color::{Gray3, Gray4};
use epd_driver::interface::{DisplayError, Op};
use epd_driver::EpdInterface;

fn cd(code: u8, data: &[u8]) -> Vec<Op> {
    vec![Op::Command(code), Op::Data(data.to_vec())]
}

#[test]
fn ssd1608_set_shape_encodes_window() {
    let mut expected = cd(0x01, &[0x2b, 0x01, 0x00]);
    expected.extend(cd(0x44, &[0x00, 0x18]));
    expected.extend(cd(0x45, &[0x00, 0x00, 0x2b, 0x01]));
    assert_eq!(SSD1608::set_shape(200, 300), expected);
}

#[test]
fn uc8176_set_shape_encodes_size() {
    assert_eq!(UC8176::set_shape(400, 300), cd(0x61, &[0x01, 0x90, 0x01, 0x2c]));
}

#[test]
fn il3895_set_shape_encodes_window() {
    let mut expected = cd(0x01, &[0xf9, 0x00]);
    expected.extend(cd(0x44, &[0x00, 0x0f]));
    expected.extend(cd(0x45, &[0x00, 0xf9]));
    assert_eq!(IL3895::set_shape(122, 250), expected);
}

#[test]
fn ssd1608_update_frame() {
    let mut expected = cd(0x4e, &[0]);
    expected.extend(cd(0x4f, &[0, 0]));
    expected.push(Op::Command(0x24));
    expected.push(Op::Data(vec![1, 2, 3]));
    expected.push(Op::Command(0xff));
    assert_eq!(SSD1608::update_frame(&[1, 2, 3]), expected);
}

#[test]
fn pervasive_update_frame_clears_red_channel() {
    let ops = PervasiveDisplays::update_frame(&[7, 8, 9, 10]);
    assert_eq!(
        ops,
        vec![
            Op::Command(0x10),
            Op::Data(vec![7, 8, 9, 10]),
            Op::Command(0x13),
            Op::Repeat { byte: 0, count: 4 },
        ]
    );
}

#[test]
fn ssd1619a_update_frame_fills_red_with_white() {
    let ops = SSD1619A::update_frame(&[0xaa; 5]);
    assert_eq!(ops.len(), 12);
    assert_eq!(ops[5], Op::Data(vec![0xaa; 5]));
    assert_eq!(ops[10], Op::Command(0x26));
    assert_eq!(ops[11], Op::Repeat { byte: 0, count: 5 });
}

#[test]
fn busy_polarity_per_chip() {
    assert_eq!(SSD1608::busy_wait(), vec![Op::WaitWhileBusy { busy_level: true }]);
    assert_eq!(UC8176::busy_wait(), vec![Op::WaitWhileBusy { busy_level: false }]);
    assert_eq!(PervasiveDisplays::busy_wait(), vec![Op::WaitWhileBusy { busy_level: false }]);
    assert_eq!(UC8179::busy_wait(), vec![Op::Command(0x71), Op::WaitWhileBusy { busy_level: false }]);
}

#[test]
fn ssd1608_turn_on_waits_for_idle() {
    let mut expected = cd(0x22, &[0xc4]);
    expected.push(Op::Command(0x20));
    expected.push(Op::Command(0xff));
    expected.push(Op::WaitWhileBusy { busy_level: true });
    assert_eq!(<SSD1608 as Driver>::turn_on_display(), expected);
}

#[test]
fn wake_up_starts_with_reset() {
    let ops = IL3895::wake_up();
    assert_eq!(ops[0], Op::Reset { initial_delay_us: 200_000, duration_us: 200_000 });
    assert_eq!(ops[1], Op::WaitWhileBusy { busy_level: true });
    assert_eq!(ops[ops.len() - 2], Op::Command(0x32));
    match &ops[ops.len() - 1] {
        Op::Data(lut) => assert_eq!(lut[0], 0x22),
        other => panic!("unexpected {:?}", other),
    }
    let uc = UC8176::wake_up();
    assert_eq!(uc[0], Op::Reset { initial_delay_us: 10_000, duration_us: 10_000 });
    assert_eq!(uc[uc.len() - 1], Op::Repeat { byte: 0, count: 15000 });
}

#[test]
fn ssd1608_fast_wake_up_adds_fast_waveform() {
    let base = SSD1608::wake_up();
    let fast = SSD1608Fast::wake_up();
    assert_eq!(fast.len(), base.len() + 2);
    assert_eq!(&fast[..base.len()], &base[..]);
    assert_eq!(fast[base.len()], Op::Command(0x32));
    assert!(SSD1608Fast::sleep().is_empty());
}

#[test]
fn ssd1680_restore_loads_153_bytes() {
    let ops = <SSD1680 as FastUpdateDriver>::restore_normal_waveform();
    match &ops[1] {
        Op::Data(lut) => {
            assert_eq!(lut.len(), 153);
            assert_eq!(lut[0], 0b1000_0000);
        }
        other => panic!("unexpected {:?}", other),
    }
    assert_eq!(SSD1680::sleep(), vec![Op::Command(0x10), Op::Data(vec![0x01]), Op::DelayUs(100_000)]);
}

#[test]
fn channel_frames_select_the_plane() {
    let ops = UC8176::update_channel_frame(1, &[5, 6]).unwrap();
    assert_eq!(ops, vec![Op::Command(0x13), Op::Data(vec![5, 6])]);
    let ops = SSD1680::update_channel_frame(0, &[5]).unwrap();
    assert_eq!(ops[4], Op::Command(0x24));
    let ops = SSD1675B::update_channel_frame(1, &[5]).unwrap();
    assert_eq!(ops[4], Op::Command(0x26));
}

#[test]
fn invalid_channel_is_refused() {
    assert_eq!(UC8179::update_channel_frame(2, &[1]), Err(DisplayError::InvalidChannel));
    assert_eq!(SSD1619A::update_channel_frame(7, &[1]), Err(DisplayError::InvalidChannel));
    assert_eq!(PervasiveDisplays::update_channel_frame(255, &[]), Err(DisplayError::InvalidChannel));
}

#[test]
fn single_table_waveform_is_refused_by_pervasive() {
    assert_eq!(PervasiveDisplays::update_waveform(&[1, 2, 3]), Err(DisplayError::InvalidFormatError));
    assert_eq!(SSD1608::update_waveform(&[1, 2, 3]), Ok(cd(0x32, &[1, 2, 3])));
}

#[test]
fn waveform_turn_on_differs_where_overridden() {
    let ops = SSD1619A::waveform_turn_on_display();
    assert_eq!(ops[..2].to_vec(), cd(0x22, &[0xc5]));
    assert_eq!(IL3895::waveform_turn_on_display(), <IL3895 as Driver>::turn_on_display());
}

#[test]
fn gray_waveforms_per_depth() {
    let g3 = <SSD1608 as GrayScaleDriver<Gray3>>::setup_gray_scale_waveform();
    assert_eq!(g3[..2].to_vec(), cd(0x04, &[0x00]));
    let g4 = <SSD1608 as GrayScaleDriver<Gray4>>::setup_gray_scale_waveform();
    assert_eq!(g4[..2].to_vec(), cd(0x2c, &[0xb8]));
    assert_eq!(g4.len(), 8);
}

#[test]
fn command_codes() {
    assert_eq!(Command::WriteRam.code(), 0x24);
    assert_eq!(Command::DriverOutputControl.code(), 0x01);
    assert_eq!(Command::SetRamYAddressCounter.code(), 0x4f);
}

#[test]
fn interface_release_returns_parts() {
    let i = EpdInterface::new(1u8, 2u16, 3u32, 4u64);
    assert_eq!(i.rst, 3);
    assert_eq!(i.release(), (1u8, 2u16, 4u64));
}
