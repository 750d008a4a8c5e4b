use soc_devices::bus::Bus;
use soc_devices::plic::Plic;
use soc_devices::utils::{Exception, Size};

const PRIORITY_5: u32 = 0x0c00_0014;
const PENDING_0: u32 = 0x0c00_1000;
const ENABLE_CTX0: u32 = 0x0c00_2000;
const THRESHOLD_CTX0: u32 = 0x0c20_0000;
const CLAIM_CTX0: u32 = 0x0c20_0004;

fn plic_with_source_5(priority: u64, threshold: u64, enable: u64) -> Plic {
    let mut plic = Plic::new();
    assert!(plic.write(PRIORITY_5, Size::_4, priority).is_ok());
    assert!(plic.write(THRESHOLD_CTX0, Size::_4, threshold).is_ok());
    assert!(plic.write(ENABLE_CTX0, Size::_4, enable).is_ok());
    plic
}

#[test]
fn plic_claim_complete_cycle() {
    let mut plic = plic_with_source_5(3, 1, 1 << 5);
    plic.irq(5, true);
    assert_eq!(plic.claim(0), 5);
    assert_eq!(plic.claim(0), 0);
    plic.complete(0, 5);
    plic.irq(5, true);
    assert_eq!(plic.claim(0), 5);
}

#[test]
fn plic_claimed_source_not_reclaimed_before_complete() {
    let mut plic = plic_with_source_5(3, 1, 1 << 5);
    plic.irq(5, true);
    assert_eq!(plic.claim(0), 5);
    plic.irq(5, true);
    assert_eq!(plic.claim(0), 0);
    plic.complete(0, 5);
    assert_eq!(plic.claim(0), 5);
}

#[test]
fn plic_claim_through_registers() {
    let mut plic = plic_with_source_5(3, 1, 1 << 5);
    plic.irq(5, true);
    assert_eq!(plic.read(PENDING_0, Size::_4).ok(), Some(1 << 5));
    assert_eq!(plic.read(CLAIM_CTX0, Size::_4).ok(), Some(5));
    assert_eq!(plic.read(PENDING_0, Size::_4).ok(), Some(0));
    assert_eq!(plic.read(CLAIM_CTX0, Size::_4).ok(), Some(0));
    assert!(plic.write(CLAIM_CTX0, Size::_4, 5).is_ok());
    plic.irq(5, true);
    assert_eq!(plic.read(CLAIM_CTX0, Size::_4).ok(), Some(5));
}

#[test]
fn plic_at_threshold_never_claimable() {
    let mut plic = plic_with_source_5(1, 1, 1 << 5);
    plic.irq(5, true);
    assert_eq!(plic.claim(0), 0);
    assert_eq!(plic.highest_irq(0), 0);
}

#[test]
fn plic_disabled_never_claimable() {
    let mut plic = plic_with_source_5(3, 1, 0);
    plic.irq(5, true);
    assert_eq!(plic.claim(0), 0);
    let mut other = plic_with_source_5(3, 0, 1 << 5);
    other.irq(5, true);
    assert_eq!(other.claim(1), 0);
}

#[test]
fn plic_highest_priority_wins_lowest_id_on_tie() {
    let mut plic = Plic::new();
    for (src, prio) in [(3u32, 2u64), (7, 4), (9, 4), (40, 1)] {
        assert!(plic.write(0x0c00_0000 + 4 * src, Size::_4, prio).is_ok());
        plic.irq(src, true);
    }
    assert!(plic.write(ENABLE_CTX0, Size::_4, (1 << 3) | (1 << 7) | (1 << 9)).is_ok());
    assert!(plic.write(ENABLE_CTX0 + 4, Size::_4, 1 << 8).is_ok());
    assert_eq!(plic.claim(0), 7);
    assert_eq!(plic.claim(0), 9);
    assert_eq!(plic.claim(0), 3);
    assert_eq!(plic.claim(0), 40);
    assert_eq!(plic.claim(0), 0);
}

#[test]
fn plic_interrupt_edges() {
    let mut plic = plic_with_source_5(3, 1, 1 << 5);
    assert_eq!(plic.check_interrupt(), None);
    plic.irq(5, true);
    assert_eq!(plic.check_interrupt(), Some(true));
    assert_eq!(plic.check_interrupt(), None);
    plic.irq(5, true);
    assert_eq!(plic.check_interrupt(), None);
    plic.irq(5, false);
    assert_eq!(plic.check_interrupt(), Some(false));
    plic.irq(6, true);
    assert_eq!(plic.check_interrupt(), Some(false));
}

#[test]
fn plic_register_map() {
    let mut plic = Plic::new();
    assert!(plic.write(PRIORITY_5, Size::_4, 0x1_0000_0007).is_ok());
    assert_eq!(plic.read(PRIORITY_5, Size::_4).ok(), Some(7));
    assert!(plic.write(0x0c20_1000, Size::_4, 9).is_ok());
    assert_eq!(plic.read(0x0c20_1000, Size::_4).ok(), Some(9));
    assert_eq!(plic.read(THRESHOLD_CTX0, Size::_4).ok(), Some(0));
    assert!(plic.write(0x0c00_2080 + 4, Size::_4, 0xff).is_ok());
    assert_eq!(plic.read(0x0c00_2084, Size::_4).ok(), Some(0xff));
    assert_eq!(plic.read(ENABLE_CTX0 + 4, Size::_4).ok(), Some(0));
    assert!(matches!(plic.read(0x0c00_0000, Size::_4), Err(Exception::BusException)));
    assert!(matches!(plic.read(0x0c00_0015, Size::_4), Err(Exception::BusException)));
    assert!(matches!(plic.write(PENDING_0, Size::_4, 1), Err(Exception::BusException)));
    assert!(matches!(plic.read(0x0c00_1080, Size::_4), Err(Exception::BusException)));
    assert!(matches!(plic.read(0x0c00_2100, Size::_4), Err(Exception::BusException)));
    assert!(matches!(plic.read(0x0c20_2000, Size::_4), Err(Exception::BusException)));
    assert!(matches!(plic.read(0x0c20_0008, Size::_4), Err(Exception::BusException)));
    assert!(plic.write(CLAIM_CTX0, Size::_4, 5000).is_ok());
}

#[test]
fn bus_interrupt_follows_plic() {
    let (mut bus, _ctl) = Bus::new();
    assert_eq!(bus.interrupt(), None);
    assert!(bus.write(0x0c00_0004, Size::_4, 1).is_ok());
    assert!(bus.write(ENABLE_CTX0, Size::_4, 1 << 1).is_ok());
    assert!(bus.write(0x1000_0001, Size::_1, 0b10).is_ok());
    for _ in 0..999 {
        bus.clk();
    }
    assert_eq!(bus.interrupt(), None);
    bus.clk();
    assert_eq!(bus.interrupt(), Some(true));
    assert_eq!(bus.interrupt(), None);
    assert_eq!(bus.read(PENDING_0, Size::_4).ok(), Some(1 << 1));
}

#[test]
fn bus_idle_cycles_report_nothing() {
    let (mut bus, _ctl) = Bus::new();
    assert!(bus.write(0x0c00_0004, Size::_4, 1).is_ok());
    assert!(bus.write(ENABLE_CTX0, Size::_4, 1 << 1).is_ok());
    assert!(bus.write(0x1000_0001, Size::_1, 0b10).is_ok());
    for _ in 0..1000 {
        bus.clk();
    }
    assert_eq!(bus.interrupt(), Some(true));
    for _ in 0..999 {
        bus.clk();
        assert_eq!(bus.interrupt(), None);
    }
}
