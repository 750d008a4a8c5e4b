use soc_devices::bus::Bus;
use soc_devices::uart::{TxAction, Uart, UartRegs, LSR_TEMT, LSR_THRE};
use soc_devices::irq::Irq;
use soc_devices::utils::{Exception, Size};

const DATA: u32 = 0x1000_0000;
const IER: u32 = 0x1000_0001;
const IIR: u32 = 0x1000_0002;
const LCR: u32 = 0x1000_0003;
const MCR: u32 = 0x1000_0004;
const LSR: u32 = 0x1000_0005;
const MSR: u32 = 0x1000_0006;
const SCR: u32 = 0x1000_0007;

#[test]
fn uart_loopback_returns_byte_to_receiver() {
    let (mut bus, ctl) = Bus::new();
    assert!(bus.write(MCR, Size::_1, 0x10).is_ok());
    assert!(bus.write(DATA, Size::_1, 0x41).is_ok());
    assert!(!ctl.uart_receiver.avaliable());
    assert_eq!(bus.read(DATA, Size::_1).ok(), Some(0x41));
    assert_eq!(bus.read(DATA, Size::_1).ok(), Some(0));
}

#[test]
fn uart_transmits_to_output() {
    let (mut bus, ctl) = Bus::new();
    assert!(bus.write(DATA, Size::_1, 0x1_42).is_ok());
    assert!(ctl.uart_receiver.avaliable());
    assert_eq!(ctl.uart_receiver.recv(), 0x42);
}

#[test]
fn uart_receives_input() {
    let (mut bus, ctl) = Bus::new();
    assert_eq!(bus.read(DATA, Size::_1).ok(), Some(0));
    ctl.uart_sender.send(0x55);
    ctl.uart_sender.send(0x56);
    assert_eq!(bus.read(DATA, Size::_1).ok(), Some(0x55));
    assert_eq!(bus.read(DATA, Size::_1).ok(), Some(0x56));
}

#[test]
fn uart_overrun_drops_byte_without_fifo() {
    let (mut bus, ctl) = Bus::new();
    ctl.uart_sender.send(1);
    assert!(bus.write(DATA, Size::_1, 0x33).is_ok());
    assert!(!ctl.uart_receiver.avaliable());
    assert_eq!(bus.read(LSR, Size::_1).ok(), Some(0x42));
    assert_eq!(bus.read(DATA, Size::_1).ok(), Some(1));
    assert_eq!(bus.read(LSR, Size::_1).ok(), Some(0x40));
}

#[test]
fn uart_status_ready_without_thri() {
    let mut regs = UartRegs { lcr: 0, dll: 0, dlm: 0, ier: 0b1101, iir: 1, mcr: 0, lsr: 0, scr: 0, fcr: 0 };
    let t = regs.tick(false);
    assert!(!t.level);
    assert_eq!(regs.lsr & (LSR_TEMT | LSR_THRE), LSR_TEMT | LSR_THRE);
    let (mut bus, _ctl) = Bus::new();
    assert_eq!(bus.read(LSR, Size::_1).ok(), Some(0x40));
    for _ in 0..1000 {
        bus.clk();
    }
    assert_eq!(bus.read(LSR, Size::_1).ok(), Some(0x60));
}

#[test]
fn uart_tick_raises_receive_interrupt() {
    let (mut uart, tx, _rx) = Uart::new();
    assert!(uart.write(IER, Size::_1, 1).is_ok());
    tx.send(9);
    let mut irq = Irq::new();
    uart.clk(&mut irq);
    assert_eq!(irq.next(), Some((1, true)));
    assert_eq!(uart.read(IIR, Size::_1).ok(), Some(0b100));
    assert_eq!(uart.read(LSR, Size::_1).ok(), Some(0x61));
    assert_eq!(uart.read(DATA, Size::_1).ok(), Some(9));
    let mut irq = Irq::new();
    uart.clk(&mut irq);
    assert_eq!(irq.next(), Some((1, true)));
}

#[test]
fn uart_tick_without_causes_deasserts() {
    let (mut uart, _tx, _rx) = Uart::new();
    let mut irq = Irq::new();
    uart.clk(&mut irq);
    assert_eq!(irq.next(), Some((1, false)));
    assert_eq!(uart.read(IIR, Size::_1).ok(), Some(1));
}

#[test]
fn uart_divisor_latch_and_masks() {
    let (mut bus, ctl) = Bus::new();
    assert!(bus.write(LCR, Size::_1, 0x80).is_ok());
    assert_eq!(bus.read(DATA, Size::_1).ok(), Some(0x0c));
    assert!(bus.write(DATA, Size::_1, 0x03).is_ok());
    assert!(bus.write(IER, Size::_1, 0x01).is_ok());
    assert_eq!(bus.read(DATA, Size::_1).ok(), Some(0x03));
    assert_eq!(bus.read(IER, Size::_1).ok(), Some(0x01));
    assert!(!ctl.uart_receiver.avaliable());
    assert!(bus.write(LCR, Size::_1, 0x03).is_ok());
    assert_eq!(bus.read(IER, Size::_1).ok(), Some(0));
    assert!(bus.write(IER, Size::_1, 0xff).is_ok());
    assert_eq!(bus.read(IER, Size::_1).ok(), Some(0x0f));
    assert!(bus.write(MCR, Size::_1, 0xff).is_ok());
    assert_eq!(bus.read(MCR, Size::_1).ok(), Some(0x1f));
    assert!(bus.write(SCR, Size::_1, 0xa5).is_ok());
    assert_eq!(bus.read(SCR, Size::_1).ok(), Some(0xa5));
    assert_eq!(bus.read(MSR, Size::_1).ok(), Some(0));
    assert_eq!(bus.read(LCR, Size::_1).ok(), Some(0x03));
    assert!(matches!(bus.write(LSR, Size::_1, 0), Err(Exception::BusException)));
    assert!(matches!(bus.write(MSR, Size::_1, 0), Err(Exception::BusException)));
}

#[test]
fn uart_reset_state() {
    let (mut bus, _ctl) = Bus::new();
    assert_eq!(bus.read(IIR, Size::_1).ok(), Some(1));
    assert_eq!(bus.read(MCR, Size::_1).ok(), Some(0x08));
    assert_eq!(bus.read(LSR, Size::_1).ok(), Some(0x40));
}

fn idle_regs() -> UartRegs {
    UartRegs { lcr: 0, dll: 0x0c, dlm: 0, ier: 0, iir: 1, mcr: 0x08, lsr: 0x40, scr: 0, fcr: 0 }
}

#[test]
fn uart_regs_write_destinations() {
    let mut regs = idle_regs();
    regs.mcr = 0x18;
    assert_eq!(regs.write_reg(0, 0x41, false).ok(), Some(TxAction::Loopback(0x41)));
    assert_eq!(regs.lsr, 0x60);
    let mut regs = idle_regs();
    regs.fcr = 1;
    assert_eq!(regs.write_reg(0, 0x41, true).ok(), Some(TxAction::Transmit(0x41)));
    let mut regs = idle_regs();
    assert_eq!(regs.write_reg(0, 0x41, true).ok(), Some(TxAction::Nothing));
    assert_eq!(regs.lsr, 0x42);
    let mut regs = idle_regs();
    assert!(matches!(regs.write_reg(5, 0, false), Err(Exception::BusException)));
    assert_eq!(regs, idle_regs());
}

#[test]
fn uart_regs_receive() {
    let mut regs = idle_regs();
    regs.lsr = 0x43;
    assert_eq!(regs.receive(Some(7)), 7);
    assert_eq!(regs.lsr, 0x41);
    assert_eq!(regs.receive(None), 0);
    assert_eq!(regs.lsr, 0x41);
}

#[test]
fn uart_regs_clear_requests_in_line_control() {
    let mut regs = idle_regs();
    regs.lcr = 0b110;
    regs.lsr = 0x03;
    regs.ier = 0b10;
    let t = regs.tick(true);
    assert!(t.clear_rx);
    assert!(t.level);
    assert_eq!(regs.lcr, 0b010);
    assert_eq!(regs.lsr, 0x60);
    assert_eq!(regs.iir, 0b010);
}
