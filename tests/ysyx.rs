use soc_devices::bus::Bus;
use soc_devices::ysyx::{clock_word, YsyxCommand};
use soc_devices::utils::{Exception, Size};

#[test]
fn ysyx_geometry_and_framebuffer() {
    let (mut bus, _ctl) = Bus::new();
    assert_eq!(bus.read(0x2000_0100, Size::_4).ok(), Some(0x0190_012c));
    assert_eq!(bus.read(0x2000_0104, Size::_4).ok(), Some(0));
    assert!(bus.write(0x2100_0008, Size::_4, 0x1_00ff_8800).is_ok());
    assert_eq!(bus.read(0x2100_0008, Size::_4).ok(), Some(0x00ff_8800));
    assert_eq!(bus.framebuffer()[2], 0x00ff_8800);
    assert!(bus.write(0x2101_d4c0, Size::_4, 6).is_ok());
    assert_eq!(bus.read(0x2101_d4c0, Size::_4).ok(), Some(6));
    assert!(bus.write(0x2107_52fc, Size::_4, 5).is_ok());
    assert_eq!(bus.read(0x2107_52fc, Size::_4).ok(), Some(5));
    assert_eq!(bus.framebuffer()[119_999], 5);
    assert!(matches!(bus.write(0x2107_5300, Size::_4, 5), Err(Exception::BusException)));
    assert!(matches!(bus.read(0x2107_5300, Size::_4), Err(Exception::BusException)));
    assert!(matches!(bus.read(0x2100_0008, Size::_8), Err(Exception::BusException)));
}

#[test]
fn ysyx_frame_request() {
    let (mut bus, _ctl) = Bus::new();
    assert!(!bus.take_frame());
    assert!(bus.write(0x2000_0104, Size::_4, 0).is_ok());
    assert!(bus.take_frame());
    assert!(!bus.take_frame());
}

#[test]
fn ysyx_keyboard_queue() {
    let (mut bus, _ctl) = Bus::new();
    assert_eq!(bus.read(0x2000_0200, Size::_4).ok(), Some(0));
    bus.host_key(41, true);
    bus.host_key(0, true);
    bus.host_key(4, false);
    assert_eq!(bus.read(0x2000_0200, Size::_4).ok(), Some(0x8001));
    assert_eq!(bus.read(0x2000_0200, Size::_4).ok(), Some(43));
    assert_eq!(bus.read(0x2000_0200, Size::_4).ok(), Some(0));
}

#[test]
fn ysyx_poweroff_and_clock() {
    let (mut bus, ctl) = Bus::new();
    assert!(!ctl.ysyx_receiver.avaliable());
    assert_eq!(bus.exit_code(), None);
    assert!(matches!(bus.write(0x2000_0300, Size::_4, 0), Err(Exception::BusException)));
    assert!(bus.write(0x2000_0300, Size::_1, 0x2a).is_ok());
    assert_eq!(bus.exit_code(), Some(0x2a));
    assert_eq!(ctl.ysyx_receiver.recv(), YsyxCommand::Poweroff);
    let t = bus.read(0x2000_0000, Size::_8).ok().unwrap();
    assert!(t > 1_600_000_000_000);
    assert_eq!(bus.read(0x2000_0008, Size::_8).ok(), Some(0));
    assert!(matches!(bus.read(0x2000_0000, Size::_4), Err(Exception::BusException)));
}

#[test]
fn ysyx_clock_word_split() {
    let ms: u128 = (7u128 << 64) | 0x0123_4567_89ab_cdef;
    assert_eq!(clock_word(ms, false), 0x0123_4567_89ab_cdef);
    assert_eq!(clock_word(ms, true), 7);
    assert_eq!(clock_word(1_700_000_000_000, false), 1_700_000_000_000);
    assert_eq!(clock_word(1_700_000_000_000, true), 0);
}
