use soc_devices::bus::Bus;
use soc_devices::memory::{MEMORY_END, MEMORY_START};
use soc_devices::utils::{Exception, Size};

#[test]
fn ram_round_trip_all_widths() {
    let (mut bus, _ctl) = Bus::new();
    let cases = [
        (Size::_1, 0xabu64),
        (Size::_2, 0xbeefu64),
        (Size::_4, 0xdead_beefu64),
        (Size::_8, 0x0123_4567_89ab_cdefu64),
    ];
    let mut addr = MEMORY_START + 0x100;
    for (size, v) in cases {
        assert!(bus.write(addr, size, v).is_ok());
        assert_eq!(bus.read(addr, size).ok(), Some(v));
        addr += 0x11;
    }
}

#[test]
fn ram_is_little_endian() {
    let (mut bus, _ctl) = Bus::new();
    let addr = MEMORY_START + 3;
    assert!(bus.write(addr, Size::_8, 0x0102_0304_0506_0708).is_ok());
    assert_eq!(bus.read(addr, Size::_1).ok(), Some(0x08));
    assert_eq!(bus.read(addr + 7, Size::_1).ok(), Some(0x01));
    assert_eq!(bus.read(addr, Size::_2).ok(), Some(0x0708));
    assert_eq!(bus.read(addr + 2, Size::_4).ok(), Some(0x0304_0506));
}

#[test]
fn ram_store_keeps_low_bytes_only() {
    let (mut bus, _ctl) = Bus::new();
    let addr = MEMORY_START + 0x40;
    assert!(bus.write(addr, Size::_8, u64::MAX).is_ok());
    assert!(bus.write(addr, Size::_2, 0x1234_5678).is_ok());
    assert_eq!(bus.read(addr, Size::_4).ok(), Some(0xffff_5678));
    assert_eq!(bus.read(addr, Size::_1).ok(), Some(0x78));
}

#[test]
fn ram_starts_zeroed() {
    let (mut bus, _ctl) = Bus::new();
    assert_eq!(bus.read(MEMORY_START, Size::_8).ok(), Some(0));
    assert_eq!(bus.read(MEMORY_END, Size::_1).ok(), Some(0));
}

#[test]
fn ram_access_past_end_faults() {
    let (mut bus, _ctl) = Bus::new();
    assert!(matches!(bus.write(MEMORY_END, Size::_8, 1), Err(Exception::BusException)));
    assert!(matches!(bus.read(MEMORY_END - 6, Size::_8), Err(Exception::BusException)));
    assert!(bus.write(MEMORY_END - 7, Size::_8, 7).is_ok());
    assert_eq!(bus.read(MEMORY_END - 7, Size::_8).ok(), Some(7));
    assert!(bus.write(MEMORY_END, Size::_1, 0x5a).is_ok());
    assert_eq!(bus.read(MEMORY_END, Size::_1).ok(), Some(0x5a));
}

#[test]
fn ram_narrower_reads_after_wide_store() {
    let (mut bus, _ctl) = Bus::new();
    let v: u64 = 0xf1e2_d3c4_b5a6_9788;
    let a = MEMORY_START + 0x1001;
    assert!(bus.write(a, Size::_8, v).is_ok());
    for i in 0..8u32 {
        assert_eq!(bus.read(a + i, Size::_1).ok(), Some((v >> (8 * i)) & 0xff));
    }
    assert_eq!(bus.read(a, Size::_2).ok(), Some(v & 0xffff));
    assert_eq!(bus.read(a, Size::_4).ok(), Some(v & 0xffff_ffff));
}
