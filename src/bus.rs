//! The bus: owns the devices, routes accesses by address, paces device time and
//! forwards interrupt lines to the controller.
use vstd::prelude::*;

use crate::channel::{Receiver, Sender};
use crate::irq::Irq;
use crate::memory::{
    access_result, in_bounds, lemma_store_load, load, pow256, store, Memory, MEMORY_END,
    MEMORY_SIZE, MEMORY_START,
};
use crate::plic::{
    Plic, PlicState, BITMAP_WORDS, CONTEXT_COUNT, PLIC_END, PLIC_START, SOURCE_COUNT,
};
use crate::uart::{Uart, UartRegs, UART_END, UART_IRQ, UART_START};
use crate::utils::{Exception, Size};
use crate::keymap::{amkey_of, keycode_to_amkey};
use crate::ysyx::{key_word, Ysyx, YsyxCommand, YsyxState, VGA_PIXELS, YSYX_END, YSYX_START};

verus! {

/// Bus cycles per device tick.
pub const CLK_INTERVAL: u64 = 1000;

pub open spec fn in_ram(address: u32) -> bool {
    MEMORY_START <= address <= MEMORY_END
}

pub open spec fn in_plic(address: u32) -> bool {
    PLIC_START <= address <= PLIC_END
}

pub open spec fn in_uart(address: u32) -> bool {
    UART_START <= address <= UART_END
}

pub open spec fn in_ysyx(address: u32) -> bool {
    YSYX_START <= address <= YSYX_END
}

/// Some device owns `address`.
pub open spec fn mapped(address: u32) -> bool {
    in_ram(address) || in_plic(address) || in_uart(address) || in_ysyx(address)
}

/// The mathematical state of the bus and its devices.
pub ghost struct BusState {
    pub mem: Seq<u8>,
    pub plic: PlicState,
    pub uart: UartRegs,
    pub ysyx: YsyxState,
    /// bus cycles since the last device tick
    pub count: u64,
}

impl BusState {
    pub open spec fn wf(self) -> bool {
        &&& self.mem.len() == MEMORY_SIZE
        &&& self.plic.wf()
        &&& self.ysyx.vmem.len() == VGA_PIXELS
        &&& self.count < CLK_INTERVAL
    }

    /// A read at `address` returns `r` and leaves the state `after`: the device that
    /// owns the address answers, and an address no device owns faults.
    pub open spec fn read_rel(
        self,
        address: u32,
        size: Size,
        r: Result<u64, Exception>,
        after: BusState,
    ) -> bool {
        if in_ram(address) {
            r == load(self.mem, address, size) && after == self
        } else if in_plic(address) {
            self.plic.read_rel(address, size, r, after.plic) && after == (BusState {
                plic: after.plic,
                ..self
            })
        } else if in_uart(address) {
            self.uart.read_rel(address, size, r, after.uart) && after == (BusState {
                uart: after.uart,
                ..self
            })
        } else if in_ysyx(address) {
            self.ysyx.read_rel(address, size, r, after.ysyx) && after == (BusState {
                ysyx: after.ysyx,
                ..self
            })
        } else {
            r == Err::<u64, Exception>(Exception::BusException) && after == self
        }
    }

    /// A write of `data` at `address` returns `r` and leaves the state `after`: the
    /// device that owns the address takes it, and an address no device owns faults.
    pub open spec fn write_rel(
        self,
        address: u32,
        size: Size,
        data: u64,
        r: Result<(), Exception>,
        after: BusState,
    ) -> bool {
        if in_ram(address) {
            r == access_result(address, size) && after == (BusState {
                mem: store(self.mem, address, size, data),
                ..self
            })
        } else if in_plic(address) {
            self.plic.write_rel(address, size, data, r, after.plic) && after == (BusState {
                plic: after.plic,
                ..self
            })
        } else if in_uart(address) {
            self.uart.write_rel(address, size, data, r, after.uart) && after == (BusState {
                uart: after.uart,
                ..self
            })
        } else if in_ysyx(address) {
            self.ysyx.write_rel(address, size, data, r, after.ysyx) && after == (BusState {
                ysyx: after.ysyx,
                ..self
            })
        } else {
            r == Err::<(), Exception>(Exception::BusException) && after == self
        }
    }

    /// The state after a bus cycle on which the devices tick, the serial port having
    /// seen `rx_available`.
    pub open spec fn after_tick(self, rx_available: bool) -> BusState {
        BusState {
            uart: self.uart.after_tick(rx_available),
            plic: self.plic.with_irq(UART_IRQ as nat, self.uart.tick_result(rx_available).level),
            count: 0,
            ..self
        }
    }
}

/// Accesses outside every device fault, and so do accesses of a width that the
/// interrupt controller (4 bytes only) or the serial port (1 byte only) does not take.
pub proof fn lemma_decoding_faults(
    st: BusState,
    address: u32,
    size: Size,
    data: u64,
    rr: Result<u64, Exception>,
    ra: BusState,
    wr: Result<(), Exception>,
    wa: BusState,
)
    requires
        st.read_rel(address, size, rr, ra),
        st.write_rel(address, size, data, wr, wa),
        !mapped(address) || (in_plic(address) && size != Size::_4) || (in_uart(address) && size
            != Size::_1),
    ensures
        rr == Err::<u64, Exception>(Exception::BusException),
        wr == Err::<(), Exception>(Exception::BusException),
        ra == st,
        wa == st,
{
}

/// Reading RAM right after writing it, at the same address and width, gives back the
/// value written, reduced to that width.
pub proof fn lemma_ram_round_trip(
    st: BusState,
    address: u32,
    size: Size,
    data: u64,
    wr: Result<(), Exception>,
    mid: BusState,
    rr: Result<u64, Exception>,
    after: BusState,
)
    requires
        st.wf(),
        in_bounds(address, size.spec_bytes()),
        st.write_rel(address, size, data, wr, mid),
        mid.read_rel(address, size, rr, after),
    ensures
        wr == Ok::<(), Exception>(()),
        rr == Ok::<u64, Exception>((data as nat % pow256(size.spec_bytes())) as u64),
        data < pow256(size.spec_bytes()) ==> rr == Ok::<u64, Exception>(data),
{
    lemma_store_load(st.mem, address, size, data);
}

/// Bus cycles that drive no device tick leave the interrupt controller alone: once a
/// poll has reported, any run of such cycles is followed by a poll that reports
/// nothing. `trace[i + 1]` is the state after a cycle from `trace[i]` that did not tick.
pub proof fn lemma_idle_cycles_poll_none(trace: Seq<BusState>)
    requires
        trace.len() > 0,
        !trace[0].plic.update,
        forall|i: int|
            0 <= i < trace.len() - 1 ==> #[trigger] trace[i + 1] == (BusState {
                count: (trace[i].count + 1) as u64,
                ..trace[i]
            }),
    ensures
        trace.last().plic == trace[0].plic,
        trace.last().plic.poll_result() is None,
    decreases trace.len(),
{
    if trace.len() > 1 {
        let prefix = trace.drop_last();
        assert forall|i: int| 0 <= i < prefix.len() - 1 implies #[trigger] prefix[i + 1] == (
        BusState { count: (prefix[i].count + 1) as u64, ..prefix[i] }) by {
            assert(prefix[i + 1] == trace[i + 1]);
        }
        lemma_idle_cycles_poll_none(prefix);
        let j = trace.len() - 2;
        assert(trace[j + 1] == (BusState { count: (trace[j].count + 1) as u64, ..trace[j] }));
        assert(prefix.last() == trace[j]);
    }
}

/// The bus with every device.
#[derive(Debug)]
pub struct Bus {
    memory: Memory,
    plic: Plic,
    uart: Uart,
    ysyx: Ysyx,
    count: u64,
}

/// The host's ends of the device streams.
#[derive(Debug)]
pub struct DeviceController {
    /// bytes into the serial port
    pub uart_sender: Sender<u8>,
    /// bytes out of the serial port
    pub uart_receiver: Receiver<u8>,
    /// commands of the auxiliary device
    pub ysyx_receiver: Receiver<YsyxCommand>,
}

impl View for Bus {
    type V = BusState;

    closed spec fn view(&self) -> BusState {
        BusState {
            mem: self.memory@,
            plic: self.plic@,
            uart: self.uart@,
            ysyx: self.ysyx@,
            count: self.count,
        }
    }
}

impl Bus {
    pub open spec fn wf(&self) -> bool {
        self@.wf()
    }

    /// A bus with every device in its reset state, and the host's ends of its streams.
    pub fn new() -> (r: (Bus, DeviceController))
        ensures
            r.0.wf(),
            r.0@.count == 0,
            forall|i: int| 0 <= i < MEMORY_SIZE ==> #[trigger] r.0@.mem[i] == 0,
            forall|s: int| 0 <= s < SOURCE_COUNT ==> #[trigger] r.0@.plic.priorities[s] == 0,
            forall|w: int| 0 <= w < BITMAP_WORDS ==> #[trigger] r.0@.plic.pending[w] == 0,
            forall|i: int|
                0 <= i < CONTEXT_COUNT * BITMAP_WORDS ==> #[trigger] r.0@.plic.enable[i] == 0,
            forall|c: int| 0 <= c < CONTEXT_COUNT ==> #[trigger] r.0@.plic.threshold[c] == 0,
            forall|i: int|
                0 <= i < CONTEXT_COUNT * SOURCE_COUNT ==> #[trigger] r.0@.plic.claimed[i]
                    == false,
            !r.0@.plic.update,
            r.0@.uart == UartRegs::initial(),
            forall|i: int| 0 <= i < VGA_PIXELS ==> #[trigger] r.0@.ysyx.vmem[i] == 0,
            r.0@.ysyx.keys.len() == 0,
            !r.0@.ysyx.frame_ready,
            r.0@.ysyx.exit_code is None,
    {
        let (uart, uart_sender, uart_receiver) = Uart::new();
        let (ysyx, ysyx_receiver) = Ysyx::new();
        (
            Bus { memory: Memory::new(), plic: Plic::new(), uart, ysyx, count: 0 },
            DeviceController { uart_sender, uart_receiver, ysyx_receiver },
        )
    }

    /// One bus cycle. Every `CLK_INTERVAL`-th cycle the devices tick and the interrupt
    /// lines they drive reach the controller.
    pub fn clk(&mut self)
        requires
            old(self).wf(),
        ensures
            final(self).wf(),
            old(self)@.count + 1 < CLK_INTERVAL ==> final(self)@ == (BusState {
                count: (old(self)@.count + 1) as u64,
                ..old(self)@
            }),
            old(self)@.count + 1 >= CLK_INTERVAL ==> exists|a: bool|
                final(self)@ == #[trigger] old(self)@.after_tick(a),
    {
        if self.count + 1 < CLK_INTERVAL {
            self.count = self.count + 1;
            return;
        }
        self.count = 0;
        let ghost start = self@;
        let mut irq = Irq::new();
        self.uart.clk(&mut irq);
        let ghost a = choose|a: bool|
            self.uart@ == start.uart.after_tick(a) && irq@ == Seq::<(u32, bool)>::empty().push(
                (UART_IRQ, start.uart.tick_result(a).level),
            );
        let ghost target = start.after_tick(a);
        loop
            invariant
                target == start.after_tick(a),
                self.plic.wf(),
                self.memory@ == target.mem,
                self.ysyx@ == target.ysyx,
                self.uart@ == target.uart,
                self.count == 0,
                irq@.len() <= 1,
                irq@.len() == 1 ==> irq@[0] == (UART_IRQ, start.uart.tick_result(a).level)
                    && self.plic@ == start.plic,
                irq@.len() == 0 ==> self.plic@ == target.plic,
            ensures
                self.plic.wf(),
                self.plic@ == target.plic,
                self.memory@ == target.mem,
                self.ysyx@ == target.ysyx,
                self.uart@ == target.uart,
                self.count == 0,
            decreases irq@.len(),
        {
            match irq.next() {
                Some((source, level)) => {
                    self.plic.irq(source, level);
                },
                None => {
                    break ;
                },
            }
        }
        assert(self@ == target);
        assert(old(self)@.after_tick(a) == target);
    }

    /// A load from `address`.
    pub fn read(&mut self, address: u32, size: Size) -> (r: Result<u64, Exception>)
        requires
            old(self).wf(),
        ensures
            final(self).wf(),
            old(self)@.read_rel(address, size, r, final(self)@),
    {
        if MEMORY_START <= address && address <= MEMORY_END {
            self.memory.read(address, size)
        } else if PLIC_START <= address && address <= PLIC_END {
            self.plic.read(address, size)
        } else if UART_START <= address && address <= UART_END {
            self.uart.read(address, size)
        } else if YSYX_START <= address && address <= YSYX_END {
            self.ysyx.read(address, size)
        } else {
            Err(Exception::BusException)
        }
    }

    /// A store of `data` at `address`.
    pub fn write(&mut self, address: u32, size: Size, data: u64) -> (r: Result<(), Exception>)
        requires
            old(self).wf(),
        ensures
            final(self).wf(),
            old(self)@.write_rel(address, size, data, r, final(self)@),
    {
        if MEMORY_START <= address && address <= MEMORY_END {
            self.memory.write(address, size, data)
        } else if PLIC_START <= address && address <= PLIC_END {
            self.plic.write(address, size, data)
        } else if UART_START <= address && address <= UART_END {
            self.uart.write(address, size, data)
        } else if YSYX_START <= address && address <= YSYX_END {
            self.ysyx.write(address, size, data)
        } else {
            Err(Exception::BusException)
        }
    }

    /// `Some(level)` when the external interrupt level may have changed since the last
    /// call, `level` telling whether a source is now eligible; `None` otherwise.
    pub fn interrupt(&mut self) -> (r: Option<bool>)
        requires
            old(self).wf(),
        ensures
            final(self).wf(),
            r == old(self)@.plic.poll_result(),
            final(self)@ == (BusState { plic: old(self)@.plic.after_poll(), ..old(self)@ }),
    {
        self.plic.check_interrupt()
    }

    /// Queues a key event of the host's keyboard, given by its scancode, for the
    /// auxiliary device; keys the guest does not know are dropped.
    pub fn host_key(&mut self, scancode: i32, down: bool)
        requires
            old(self).wf(),
        ensures
            final(self).wf(),
            final(self)@ == match amkey_of(scancode) {
                Some(k) => BusState {
                    ysyx: YsyxState { keys: old(self)@.ysyx.keys.push(key_word(k, down)), ..old(self)@.ysyx },
                    ..old(self)@
                },
                None => old(self)@,
            },
    {
        if let Some(k) = keycode_to_amkey(scancode) {
            self.ysyx.key_event(k, down);
        }
    }

    /// The value the guest last wrote to the poweroff register, if any.
    pub fn exit_code(&self) -> (r: Option<u64>)
        ensures
            r == self@.ysyx.exit_code,
    {
        self.ysyx.exit_code()
    }

    /// Asks the host, through the command stream, to power the system off.
    pub fn request_poweroff(&self) {
        self.ysyx.poweroff();
    }

    /// Whether the guest asked for the framebuffer to be shown since the last call.
    pub fn take_frame(&mut self) -> (r: bool)
        requires
            old(self).wf(),
        ensures
            final(self).wf(),
            r == old(self)@.ysyx.frame_ready,
            final(self)@ == (BusState {
                ysyx: YsyxState { frame_ready: false, ..old(self)@.ysyx },
                ..old(self)@
            }),
    {
        self.ysyx.take_frame()
    }

    /// The framebuffer of the auxiliary device.
    pub fn framebuffer(&self) -> (r: &Vec<u32>)
        ensures
            r@ == self@.ysyx.vmem,
    {
        self.ysyx.framebuffer()
    }
}

} // verus!
