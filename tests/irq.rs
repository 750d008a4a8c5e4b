use soc_devices::irq::Irq;

#[test]
fn irq_events_come_out_last_first() {
    let mut irq = Irq::new();
    irq.irq(1, true);
    irq.irq(2, false);
    assert_eq!(irq.next(), Some((2, false)));
    assert_eq!(irq.next(), Some((1, true)));
    assert_eq!(irq.next(), None);
}
