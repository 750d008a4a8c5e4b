use soc_devices::channel::channel;

#[test]
fn channel_is_fifo() {
    let (tx, rx) = channel::<u32>();
    tx.send(1);
    tx.send(2);
    tx.send(3);
    assert_eq!(rx.recv(), 1);
    assert_eq!(rx.recv(), 2);
    assert_eq!(rx.recv(), 3);
    assert!(!rx.avaliable());
}

#[test]
fn channel_available_and_clear() {
    let (tx, rx) = channel::<u8>();
    assert!(!rx.avaliable());
    let tx2 = tx.clone();
    tx.send(7);
    tx2.send(8);
    assert!(rx.avaliable());
    rx.clear();
    assert!(!rx.avaliable());
    tx2.send(9);
    assert_eq!(rx.recv(), 9);
}

