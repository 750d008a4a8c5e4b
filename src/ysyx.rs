//! Auxiliary SoC device: wall clock, framebuffer, keyboard queue and poweroff.
use vstd::prelude::*;

use std::collections::VecDeque;
use std::time::{SystemTime, UNIX_EPOCH};

use crate::channel::{channel, Receiver, Sender};
use crate::utils::{Exception, Size};

verus! {

pub const YSYX_START: u32 = 0x2000_0000;

pub const YSYX_END: u32 = 0x2fff_ffff;

pub const VGA_WIDTH: usize = 400;

pub const VGA_HEIGHT: usize = 300;

/// Pixels of the framebuffer.
pub const VGA_PIXELS: usize = 120_000;

/// Flag of a key-down event in a keyboard word.
pub const KEYDOWN: u32 = 0x8000;

pub const YSYX_TIME_LOW: u32 = 0x2000_0000;

pub const YSYX_TIME_HIGH: u32 = 0x2000_0008;

pub const YSYX_VGACTL_ADDR_LOW: u32 = 0x2000_0100;

pub const YSYX_VGACTL_ADDR_HIGH: u32 = 0x2000_0104;

pub const YSYX_KBD_ADDR: u32 = 0x2000_0200;

pub const YSYX_POWEROFF: u32 = 0x2000_0300;

pub const YSYX_FB_START: u32 = 0x2100_0000;

/// Last byte of the framebuffer: `VGA_PIXELS` words of four bytes from its start.
pub const YSYX_FB_END: u32 = 0x2107_52ff;

/// Geometry word: width in the high half, height in the low half.
pub const VGACTL_GEOMETRY: u32 = 0x0190_012c;

/// Out-of-band requests of the device to its host.
#[derive(Debug, Clone, Copy, PartialEq, Eq, Structural)]
pub enum YsyxCommand {
    Poweroff,
}

/// Relies on SystemTime::now, SystemTime::duration_since and Duration::as_millis:
/// milliseconds since the Unix epoch, `None` when the clock is set before it.
#[verifier::external_body]
fn wall_clock_millis() -> Option<u128> {
    match SystemTime::now().duration_since(UNIX_EPOCH) {
        Ok(d) => Some(d.as_millis()),
        Err(_) => None,
    }
}

/// Two to the 64th: the clock registers split a millisecond count at this weight.
pub const CLOCK_SPLIT: u128 = 0x1_0000_0000_0000_0000;

/// The value of a clock register for the millisecond count `ms`: its high 64 bits
/// when `high`, else its low 64 bits.
pub open spec fn clock_value(ms: u128, high: bool) -> u64 {
    if high {
        (ms / CLOCK_SPLIT) as u64
    } else {
        (ms % CLOCK_SPLIT) as u64
    }
}

/// Splits the millisecond count `ms` into the word that a clock register reads.
pub fn clock_word(ms: u128, high: bool) -> (r: u64)
    ensures
        r == clock_value(ms, high),
        high ==> r as int == ms as int / CLOCK_SPLIT as int,
        !high ==> r as int == ms as int % CLOCK_SPLIT as int,
{
    if high {
        (ms / CLOCK_SPLIT) as u64
    } else {
        (ms % CLOCK_SPLIT) as u64
    }
}

/// The keyboard word of a key event.
pub open spec fn key_word(code: u32, down: bool) -> u32 {
    code | if down {
        KEYDOWN
    } else {
        0
    }
}

/// The device's mathematical state.
pub ghost struct YsyxState {
    pub vmem: Seq<u32>,
    pub keys: Seq<u32>,
    pub frame_ready: bool,
    /// the value last written to the poweroff register, if any
    pub exit_code: Option<u64>,
}

impl YsyxState {
    /// A register read at `address` returns `r` and leaves the state `after`. The two
    /// clock registers give the low and high 64 bits of the wall clock in milliseconds,
    /// whose value no contract can pin down.
    pub open spec fn read_rel(
        self,
        address: u32,
        size: Size,
        r: Result<u64, Exception>,
        after: YsyxState,
    ) -> bool {
        if size == Size::_4 && address == YSYX_VGACTL_ADDR_LOW {
            r == Ok::<u64, Exception>(VGACTL_GEOMETRY as u64) && after == self
        } else if size == Size::_4 && address == YSYX_VGACTL_ADDR_HIGH {
            r == Ok::<u64, Exception>(0) && after == self
        } else if size == Size::_4 && YSYX_FB_START <= address <= YSYX_FB_END {
            r == Ok::<u64, Exception>(self.vmem[(address - YSYX_FB_START) / 4] as u64) && after
                == self
        } else if size == Size::_4 && address == YSYX_KBD_ADDR {
            if self.keys.len() == 0 {
                r == Ok::<u64, Exception>(0) && after == self
            } else {
                r == Ok::<u64, Exception>(self.keys[0] as u64) && after == (YsyxState {
                    keys: self.keys.drop_first(),
                    ..self
                })
            }
        } else if size == Size::_8 && (address == YSYX_TIME_LOW || address == YSYX_TIME_HIGH) {
            let high = address == YSYX_TIME_HIGH;
            (exists|ms: u128| r == Ok::<u64, Exception>(#[trigger] clock_value(ms, high))) && after
                == self
        } else {
            r == Err::<u64, Exception>(Exception::BusException) && after == self
        }
    }

    /// A register write of `data` at `address` returns `r` and leaves the state `after`;
    /// a poweroff write records the value written as the exit code and sends a command
    /// to the host.
    pub open spec fn write_rel(
        self,
        address: u32,
        size: Size,
        data: u64,
        r: Result<(), Exception>,
        after: YsyxState,
    ) -> bool {
        if size == Size::_1 && address == YSYX_POWEROFF {
            r == Ok::<(), Exception>(()) && after == (YsyxState { exit_code: Some(data), ..self })
        } else if size == Size::_4 && address == YSYX_VGACTL_ADDR_HIGH {
            r == Ok::<(), Exception>(()) && after == (YsyxState { frame_ready: true, ..self })
        } else if size == Size::_4 && YSYX_FB_START <= address <= YSYX_FB_END {
            r == Ok::<(), Exception>(()) && after == (YsyxState {
                vmem: self.vmem.update(
                    (address - YSYX_FB_START) / 4,
                    #[verifier::truncate] (data as u32),
                ),
                ..self
            })
        } else {
            r == Err::<(), Exception>(Exception::BusException) && after == self
        }
    }
}

/// The device: framebuffer, keyboard queue and the sending end of its command stream.
#[derive(Debug)]
pub struct Ysyx {
    sender: Sender<YsyxCommand>,
    vmem: Vec<u32>,
    key_queue: VecDeque<u32>,
    frame_ready: bool,
    exit_code: Option<u64>,
}

impl View for Ysyx {
    type V = YsyxState;

    closed spec fn view(&self) -> YsyxState {
        YsyxState {
            vmem: self.vmem@,
            keys: self.key_queue@,
            frame_ready: self.frame_ready,
            exit_code: self.exit_code,
        }
    }
}

impl Ysyx {
    pub open spec fn wf(&self) -> bool {
        self@.vmem.len() == VGA_PIXELS
    }

    /// A device with a black framebuffer and no keys, and the receiving end of its
    /// command stream.
    pub fn new() -> (r: (Ysyx, Receiver<YsyxCommand>))
        ensures
            r.0.wf(),
            forall|i: int| 0 <= i < VGA_PIXELS ==> #[trigger] r.0@.vmem[i] == 0,
            r.0@.keys.len() == 0,
            !r.0@.frame_ready,
            r.0@.exit_code is None,
    {
        let (sender, receiver) = channel();
        (
            Ysyx {
                sender,
                vmem: vec![0u32; VGA_PIXELS],
                key_queue: VecDeque::new(),
                frame_ready: false,
                exit_code: None,
            },
            receiver,
        )
    }

    /// Queues a key event for the keyboard register.
    pub fn key_event(&mut self, code: u32, down: bool)
        ensures
            final(self)@ == (YsyxState { keys: old(self)@.keys.push(key_word(code, down)), ..old(self)@ }),
    {
        let word = code | if down {
            KEYDOWN
        } else {
            0
        };
        self.key_queue.push_back(word);
    }

    /// Asks the host to power the system off.
    pub fn poweroff(&self) {
        self.sender.send(YsyxCommand::Poweroff);
    }

    /// The value last written to the poweroff register, if any.
    pub fn exit_code(&self) -> (r: Option<u64>)
        ensures
            r == self@.exit_code,
    {
        self.exit_code
    }

    /// Whether a present of the framebuffer was requested since the last call; clears
    /// the request.
    pub fn take_frame(&mut self) -> (r: bool)
        ensures
            r == old(self)@.frame_ready,
            final(self)@ == (YsyxState { frame_ready: false, ..old(self)@ }),
    {
        let r = self.frame_ready;
        self.frame_ready = false;
        r
    }

    /// The framebuffer, one `0x00RRGGBB` word per pixel, row by row.
    pub fn framebuffer(&self) -> (r: &Vec<u32>)
        ensures
            r@ == self@.vmem,
    {
        &self.vmem
    }

    /// Register read at `address`.
    pub fn read(&mut self, address: u32, size: Size) -> (r: Result<u64, Exception>)
        requires
            old(self).wf(),
            YSYX_START <= address <= YSYX_END,
        ensures
            final(self).wf(),
            old(self)@.read_rel(address, size, r, final(self)@),
    {
        match size {
            Size::_4 => {
                if address == YSYX_VGACTL_ADDR_LOW {
                    Ok(VGACTL_GEOMETRY as u64)
                } else if address == YSYX_VGACTL_ADDR_HIGH {
                    Ok(0)
                } else if YSYX_FB_START <= address && address <= YSYX_FB_END {
                    Ok(self.vmem[((address - YSYX_FB_START) / 4) as usize] as u64)
                } else if address == YSYX_KBD_ADDR {
                    match self.key_queue.pop_front() {
                        Some(k) => Ok(k as u64),
                        None => Ok(0),
                    }
                } else {
                    Err(Exception::BusException)
                }
            },
            Size::_8 => {
                if address == YSYX_TIME_LOW || address == YSYX_TIME_HIGH {
                    let ms: u128 = match wall_clock_millis() {
                        Some(ms) => ms,
                        None => 0,
                    };
                    Ok(clock_word(ms, address == YSYX_TIME_HIGH))
                } else {
                    Err(Exception::BusException)
                }
            },
            _ => Err(Exception::BusException),
        }
    }

    /// Register write at `address`.
    pub fn write(&mut self, address: u32, size: Size, data: u64) -> (r: Result<(), Exception>)
        requires
            old(self).wf(),
            YSYX_START <= address <= YSYX_END,
        ensures
            final(self).wf(),
            old(self)@.write_rel(address, size, data, r, final(self)@),
    {
        match size {
            Size::_1 => {
                if address == YSYX_POWEROFF {
                    self.exit_code = Some(data);
                    self.poweroff();
                    Ok(())
                } else {
                    Err(Exception::BusException)
                }
            },
            Size::_4 => {
                if address == YSYX_VGACTL_ADDR_HIGH {
                    self.frame_ready = true;
                    Ok(())
                } else if YSYX_FB_START <= address && address <= YSYX_FB_END {
                    self.vmem.set(
                        ((address - YSYX_FB_START) / 4) as usize,
                        #[verifier::truncate] (data as u32),
                    );
                    Ok(())
                } else {
                    Err(Exception::BusException)
                }
            },
            _ => Err(Exception::BusException),
        }
    }
}

} // verus!
