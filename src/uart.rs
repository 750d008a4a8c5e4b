//! Serial port: the register model of a 16550A subset, bridged to channels.
use vstd::prelude::*;

use crate::channel::{channel, Receiver, Sender};
use crate::irq::Irq;
use crate::utils::{Exception, Size};

verus! {

pub const UART_START: u32 = 0x1000_0000;

pub const UART_END: u32 = 0x1000_0007;

/// Interrupt source of the serial port.
pub const UART_IRQ: u32 = 1;

pub const IER_RDI: u8 = 0b0000_0001;

pub const IER_THRI: u8 = 0b0000_0010;

pub const IIR_NO_INT: u8 = 0b0000_0001;

pub const IIR_THRI: u8 = 0b0000_0010;

pub const IIR_RDI: u8 = 0b0000_0100;

pub const FCR_ENABLE_FIFO: u8 = 0b0000_0001;

pub const FCR_CLEAR_RCVR: u8 = 0b0000_0010;

pub const FCR_CLEAR_XMIT: u8 = 0b0000_0100;

pub const LCR_DLAB: u8 = 0b1000_0000;

pub const MCR_LOOP: u8 = 0b0001_0000;

pub const MCR_OUT2: u8 = 0b0000_1000;

pub const LSR_DR: u8 = 0b0000_0001;

pub const LSR_OE: u8 = 0b0000_0010;

pub const LSR_BI: u8 = 0b0001_0000;

pub const LSR_THRE: u8 = 0b0010_0000;

pub const LSR_TEMT: u8 = 0b0100_0000;

/// The byte registers of the port.
#[derive(Debug, Clone, Copy, PartialEq, Eq, Structural)]
pub struct UartRegs {
    pub lcr: u8,
    pub dll: u8,
    pub dlm: u8,
    pub ier: u8,
    pub iir: u8,
    pub mcr: u8,
    pub lsr: u8,
    pub scr: u8,
    pub fcr: u8,
}

/// Where a byte written to the data register goes.
#[derive(Debug, Clone, Copy, PartialEq, Eq, Structural)]
pub enum TxAction {
    /// the byte is kept in a register or dropped
    Nothing,
    /// the byte is sent back to the port's own receive stream
    Loopback(u8),
    /// the byte is sent to the output stream
    Transmit(u8),
}

/// Outcome of one device tick.
#[derive(Debug, Clone, Copy, PartialEq, Eq, Structural)]
pub struct UartTick {
    /// the receive stream is to be emptied
    pub clear_rx: bool,
    /// level of the interrupt line
    pub level: bool,
}

impl UartRegs {
    pub open spec fn initial() -> UartRegs {
        UartRegs {
            lcr: 0,
            dll: 0x0c,
            dlm: 0,
            ier: 0,
            iir: IIR_NO_INT,
            mcr: MCR_OUT2,
            lsr: LSR_TEMT,
            scr: 0,
            fcr: 0,
        }
    }

    pub open spec fn dlab(self) -> bool {
        self.lcr & LCR_DLAB != 0
    }

    /// The status register after a tick that saw `rx_available`, before interrupts
    /// are recomputed.
    pub open spec fn tick_lsr(self, rx_available: bool) -> u8 {
        let lsr1 = if rx_available {
            self.lsr | LSR_DR
        } else {
            self.lsr
        };
        let lsr2 = if self.lcr & FCR_CLEAR_RCVR != 0 {
            lsr1 & (!LSR_DR & !FCR_CLEAR_RCVR)
        } else {
            lsr1
        };
        if self.lcr & FCR_CLEAR_XMIT != 0 {
            lsr2 | LSR_TEMT | LSR_THRE
        } else {
            lsr2
        }
    }

    /// Pending interrupt causes, in the identification register's encoding.
    pub open spec fn causes(ier: u8, lsr: u8) -> u8 {
        (if ier & IER_RDI != 0 && lsr & LSR_DR != 0 {
            IIR_RDI
        } else {
            0u8
        }) | (if ier & IER_THRI != 0 && lsr & LSR_TEMT != 0 {
            IIR_THRI
        } else {
            0u8
        })
    }

    /// The registers after one tick that saw `rx_available`.
    pub open spec fn after_tick(self, rx_available: bool) -> UartRegs {
        let lsr = self.tick_lsr(rx_available);
        let causes = UartRegs::causes(self.ier, lsr);
        UartRegs {
            lcr: if self.lcr & FCR_CLEAR_XMIT != 0 {
                self.lcr & !FCR_CLEAR_XMIT
            } else {
                self.lcr
            },
            iir: if causes != 0 {
                causes
            } else {
                IIR_NO_INT
            },
            lsr: if self.ier & IER_THRI == 0 {
                lsr | LSR_TEMT | LSR_THRE
            } else {
                lsr
            },
            ..self
        }
    }

    pub open spec fn tick_result(self, rx_available: bool) -> UartTick {
        UartTick {
            clear_rx: self.lcr & FCR_CLEAR_RCVR != 0,
            level: UartRegs::causes(self.ier, self.tick_lsr(rx_available)) != 0,
        }
    }

    /// One tick of the register model: status bits, the identification register and
    /// the interrupt line.
    pub fn tick(&mut self, rx_available: bool) -> (r: UartTick)
        ensures
            *final(self) == old(self).after_tick(rx_available),
            r == old(self).tick_result(rx_available),
    {
        if rx_available {
            self.lsr = self.lsr | LSR_DR;
        }
        let clear_rx = self.lcr & FCR_CLEAR_RCVR != 0;
        if clear_rx {
            self.lsr = self.lsr & (!LSR_DR & !FCR_CLEAR_RCVR);
        }
        if self.lcr & FCR_CLEAR_XMIT != 0 {
            self.lcr = self.lcr & !FCR_CLEAR_XMIT;
            self.lsr = self.lsr | LSR_TEMT | LSR_THRE;
        }
        let rdi: u8 = if self.ier & IER_RDI != 0 && self.lsr & LSR_DR != 0 {
            IIR_RDI
        } else {
            0
        };
        let thri: u8 = if self.ier & IER_THRI != 0 && self.lsr & LSR_TEMT != 0 {
            IIR_THRI
        } else {
            0
        };
        let causes = rdi | thri;
        if causes != 0 {
            self.iir = causes;
        } else {
            self.iir = IIR_NO_INT;
        }
        if self.ier & IER_THRI == 0 {
            self.lsr = self.lsr | LSR_TEMT | LSR_THRE;
        }
        UartTick { clear_rx, level: causes != 0 }
    }

    /// A read of the register at `off` takes a byte from the receive stream.
    pub open spec fn reads_rx(self, off: u32) -> bool {
        off == 0 && !self.dlab() && self.lsr & LSR_BI == 0
    }

    pub fn takes_rx(&self, off: u32) -> (r: bool)
        ensures
            r == self.reads_rx(off),
    {
        off == 0 && self.lcr & LCR_DLAB == 0 && self.lsr & LSR_BI == 0
    }

    /// The registers after a data-register read that took `byte` from the receive
    /// stream, `None` when the stream was empty.
    pub open spec fn after_receive(self, byte: Option<u8>) -> UartRegs {
        match byte {
            Some(_) => UartRegs { lsr: self.lsr & !LSR_OE, ..self },
            None => self,
        }
    }

    /// A data-register read that found `byte` in the receive stream: the byte is
    /// returned and the overrun bit cleared; an empty stream reads as 0.
    pub fn receive(&mut self, byte: Option<u8>) -> (r: u8)
        ensures
            *final(self) == old(self).after_receive(byte),
            r == match byte {
                Some(b) => b,
                None => 0u8,
            },
    {
        match byte {
            Some(b) => {
                self.lsr = self.lsr & !LSR_OE;
                b
            },
            None => 0,
        }
    }

    /// The value of the register at `off`, for reads that do not take a byte from the
    /// receive stream.
    pub open spec fn reg_value(self, off: u32) -> Option<u8> {
        if off == 0 {
            Some(if self.dlab() { self.dll } else { 0u8 })
        } else if off == 1 {
            Some(if self.dlab() { self.dlm } else { self.ier })
        } else if off == 2 {
            Some(self.iir)
        } else if off == 3 {
            Some(self.lcr)
        } else if off == 4 {
            Some(self.mcr)
        } else if off == 5 {
            Some(self.lsr)
        } else if off == 6 {
            Some(0u8)
        } else if off == 7 {
            Some(self.scr)
        } else {
            None
        }
    }

    pub fn read_reg(&self, off: u32) -> (r: Option<u8>)
        ensures
            r == self.reg_value(off),
    {
        if off == 0 {
            Some(if self.lcr & LCR_DLAB != 0 { self.dll } else { 0 })
        } else if off == 1 {
            Some(if self.lcr & LCR_DLAB != 0 { self.dlm } else { self.ier })
        } else if off == 2 {
            Some(self.iir)
        } else if off == 3 {
            Some(self.lcr)
        } else if off == 4 {
            Some(self.mcr)
        } else if off == 5 {
            Some(self.lsr)
        } else if off == 6 {
            Some(0)
        } else if off == 7 {
            Some(self.scr)
        } else {
            None
        }
    }

    /// A register read at `address` returns `r` and leaves the registers `after`. A
    /// read that takes a byte from the receive stream is as `receive` states, for
    /// whatever the stream held.
    pub open spec fn read_rel(
        self,
        address: u32,
        size: Size,
        r: Result<u64, Exception>,
        after: UartRegs,
    ) -> bool {
        let off = (address - UART_START) as u32;
        if size != Size::_1 {
            r == Err::<u64, Exception>(Exception::BusException) && after == self
        } else if self.reads_rx(off) {
            exists|byte: Option<u8>|
                after == #[trigger] self.after_receive(byte) && r == Ok::<u64, Exception>(
                    match byte {
                        Some(b) => b,
                        None => 0u8,
                    } as u64,
                )
        } else {
            after == self && match self.reg_value(off) {
                Some(v) => r == Ok::<u64, Exception>(v as u64),
                None => r == Err::<u64, Exception>(Exception::BusException),
            }
        }
    }

    /// A register write of `data` at `address` returns `r` and leaves the registers
    /// `after`, for whichever state of the receive stream the port observed.
    pub open spec fn write_rel(
        self,
        address: u32,
        size: Size,
        data: u64,
        r: Result<(), Exception>,
        after: UartRegs,
    ) -> bool {
        if size != Size::_1 {
            r == Err::<(), Exception>(Exception::BusException) && after == self
        } else {
            exists|a: bool|
                match #[trigger] self.write_result(
                    (address - UART_START) as u32,
                    #[verifier::truncate] (data as u8),
                    a,
                ) {
                    Some(p) => r == Ok::<(), Exception>(()) && after == p.0,
                    None => r == Err::<(), Exception>(Exception::BusException) && after == self,
                }
        }
    }

    /// The registers and the byte's destination after `data` is written at `off`,
    /// when the receive stream holds a byte iff `rx_available`; `None` for a register
    /// that cannot be written.
    pub open spec fn write_result(self, off: u32, data: u8, rx_available: bool) -> Option<
        (UartRegs, TxAction),
    > {
        if off == 0 {
            if self.dlab() {
                Some((UartRegs { dll: data, ..self }, TxAction::Nothing))
            } else if self.fcr & FCR_ENABLE_FIFO == 0 && rx_available {
                Some((UartRegs { lsr: self.lsr | LSR_OE, ..self }, TxAction::Nothing))
            } else {
                Some(
                    (
                        UartRegs { lsr: self.lsr | LSR_TEMT | LSR_THRE, ..self },
                        if self.mcr & MCR_LOOP != 0 {
                            TxAction::Loopback(data)
                        } else {
                            TxAction::Transmit(data)
                        },
                    ),
                )
            }
        } else if off == 1 {
            if self.dlab() {
                Some((UartRegs { dlm: data, ..self }, TxAction::Nothing))
            } else {
                Some((UartRegs { ier: data & 0b1111, ..self }, TxAction::Nothing))
            }
        } else if off == 2 {
            Some((UartRegs { fcr: data, ..self }, TxAction::Nothing))
        } else if off == 3 {
            Some((UartRegs { lcr: data, ..self }, TxAction::Nothing))
        } else if off == 4 {
            Some((UartRegs { mcr: data & 0b1_1111, ..self }, TxAction::Nothing))
        } else if off == 7 {
            Some((UartRegs { scr: data, ..self }, TxAction::Nothing))
        } else {
            None
        }
    }

    pub fn write_reg(&mut self, off: u32, data: u8, rx_available: bool) -> (r: Result<
        TxAction,
        Exception,
    >)
        ensures
            old(self).write_result(off, data, rx_available) matches Some(p) ==> r == Ok::<
                TxAction,
                Exception,
            >(p.1) && *final(self) == p.0,
            old(self).write_result(off, data, rx_available) is None ==> r == Err::<
                TxAction,
                Exception,
            >(Exception::BusException) && *final(self) == *old(self),
    {
        if off == 0 {
            if self.lcr & LCR_DLAB != 0 {
                self.dll = data;
                Ok(TxAction::Nothing)
            } else if self.fcr & FCR_ENABLE_FIFO == 0 && rx_available {
                self.lsr = self.lsr | LSR_OE;
                Ok(TxAction::Nothing)
            } else {
                self.lsr = self.lsr | LSR_TEMT | LSR_THRE;
                if self.mcr & MCR_LOOP != 0 {
                    Ok(TxAction::Loopback(data))
                } else {
                    Ok(TxAction::Transmit(data))
                }
            }
        } else if off == 1 {
            if self.lcr & LCR_DLAB != 0 {
                self.dlm = data;
            } else {
                self.ier = data & 0b1111;
            }
            Ok(TxAction::Nothing)
        } else if off == 2 {
            self.fcr = data;
            Ok(TxAction::Nothing)
        } else if off == 3 {
            self.lcr = data;
            Ok(TxAction::Nothing)
        } else if off == 4 {
            self.mcr = data & 0b1_1111;
            Ok(TxAction::Nothing)
        } else if off == 7 {
            self.scr = data;
            Ok(TxAction::Nothing)
        } else {
            Err(Exception::BusException)
        }
    }
}

/// With the transmit interrupt disabled, a tick leaves the transmitter-empty and
/// holding-register-empty status bits set, whatever came before.
pub proof fn lemma_tick_ready_without_thri(r: UartRegs, rx_available: bool)
    requires
        r.ier & IER_THRI == 0,
    ensures
        r.after_tick(rx_available).lsr & LSR_TEMT != 0,
        r.after_tick(rx_available).lsr & LSR_THRE != 0,
{
    let x = r.tick_lsr(rx_available);
    assert((x | 0x40u8 | 0x20u8) & 0x40u8 != 0 && (x | 0x40u8 | 0x20u8) & 0x20u8 != 0)
        by (bit_vector);
}

/// In loopback mode a byte written to the data register never goes to the output
/// stream; it goes back to the receive stream whenever it is not dropped for overrun.
pub proof fn lemma_loopback_write(r: UartRegs, data: u8, rx_available: bool)
    requires
        r.mcr & MCR_LOOP != 0,
        !r.dlab(),
    ensures
        r.write_result(0, data, rx_available) matches Some(p) && !(p.1 is Transmit),
        r.fcr & FCR_ENABLE_FIFO != 0 || !rx_available ==> (r.write_result(
            0,
            data,
            rx_available,
        ) matches Some(p) && p.1 == TxAction::Loopback(data)),
{
}

/// The serial port device: its registers and the ends of its byte streams.
#[derive(Debug)]
pub struct Uart {
    receiver: Receiver<u8>,
    loop_sender: Sender<u8>,
    sender: Sender<u8>,
    regs: UartRegs,
}

impl View for Uart {
    type V = UartRegs;

    closed spec fn view(&self) -> UartRegs {
        self.regs
    }
}

impl Uart {
    /// A port in its reset state, with the sending end of its receive stream and the
    /// receiving end of its output stream.
    pub fn new() -> (r: (Uart, Sender<u8>, Receiver<u8>))
        ensures
            r.0@ == UartRegs::initial(),
    {
        let (recv_send, recv) = channel();
        let (send, send_recv) = channel();
        let loop_sender = recv_send.clone();
        (
            Uart {
                receiver: recv,
                loop_sender,
                sender: send,
                regs: UartRegs {
                    lcr: 0,
                    dll: 0x0c,
                    dlm: 0,
                    ier: 0,
                    iir: IIR_NO_INT,
                    mcr: MCR_OUT2,
                    lsr: LSR_TEMT,
                    scr: 0,
                    fcr: 0,
                },
            },
            recv_send,
            send_recv,
        )
    }

    /// One device tick: updates the registers from the receive stream and drives the
    /// port's interrupt line.
    pub fn clk(&mut self, irq: &mut Irq)
        ensures
            exists|a: bool|
                final(self)@ == old(self)@.after_tick(a) && final(irq)@ == old(irq)@.push(
                    (UART_IRQ, old(self)@.tick_result(a).level),
                ),
    {
        let available = self.receiver.avaliable();
        let t = self.regs.tick(available);
        if t.clear_rx {
            self.receiver.clear();
        }
        irq.irq(UART_IRQ, t.level);
        assert(self@ == old(self)@.after_tick(available) && irq@ == old(irq)@.push(
            (UART_IRQ, old(self)@.tick_result(available).level),
        ));
    }

    /// Register read at `address`; all accesses are one byte wide.
    pub fn read(&mut self, address: u32, size: Size) -> (r: Result<u64, Exception>)
        requires
            UART_START <= address <= UART_END,
        ensures
            old(self)@.read_rel(address, size, r, final(self)@),
    {
        if size != Size::_1 {
            return Err(Exception::BusException);
        }
        let off = address - UART_START;
        if self.regs.takes_rx(off) {
            let byte = if self.receiver.avaliable() {
                Some(self.receiver.recv())
            } else {
                None
            };
            Ok(self.regs.receive(byte) as u64)
        } else {
            match self.regs.read_reg(off) {
                Some(v) => Ok(v as u64),
                None => Err(Exception::BusException),
            }
        }
    }

    /// Register write at `address`; all accesses are one byte wide. A byte written to
    /// the data register goes where `write_result` says.
    pub fn write(&mut self, address: u32, size: Size, data: u64) -> (r: Result<(), Exception>)
        requires
            UART_START <= address <= UART_END,
        ensures
            old(self)@.write_rel(address, size, data, r, final(self)@),
    {
        if size != Size::_1 {
            return Err(Exception::BusException);
        }
        let available = self.receiver.avaliable();
        let ghost before = self@;
        let byte: u8 = #[verifier::truncate] (data as u8);
        let r = self.regs.write_reg(address - UART_START, byte, available);
        assert(match before.write_result((address - UART_START) as u32, byte, available) {
            Some(p) => r is Ok && self@ == p.0,
            None => r == Err::<TxAction, Exception>(Exception::BusException) && self@ == before,
        });
        match r {
            Ok(TxAction::Loopback(b)) => {
                self.loop_sender.send(b);
                Ok(())
            },
            Ok(TxAction::Transmit(b)) => {
                self.sender.send(b);
                Ok(())
            },
            Ok(TxAction::Nothing) => Ok(()),
            Err(e) => Err(e),
        }
    }
}

} // verus!
