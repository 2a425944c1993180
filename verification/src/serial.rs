//! The 16550 serial port at COM1.
//!
//! The driver is written as the decisions between the port accesses: what to
//! write to open the port, what a status byte means while waiting, and what
//! the self-test concludes from the byte that came back. The caller does the
//! reading and the waiting.

use crate::interrupts::port::{byte_write, Port, PortWrite};
use vstd::prelude::*;
use vstd::string::StringSliceAdditionalSpecFns;

verus! {

/// Base port of COM1.
pub const COM1: u16 = 0x3F8;

/// Offset of the data register.
pub const DATA: u16 = 0;

/// Offset of the interrupt enable register.
pub const INT_ENABLE: u16 = 1;

/// Offset of the FIFO control register.
pub const FIFO_CTRL: u16 = 2;

/// Offset of the line control register.
pub const LINE_CTRL: u16 = 3;

/// Offset of the modem control register.
pub const MODEM_CTRL: u16 = 4;

/// Offset of the line status register.
pub const LINE_STATUS: u16 = 5;

/// Line status bit: the transmit buffer is empty.
pub const LINE_STATUS_OUTPUT_EMPTY: u8 = 0x20;

/// Line status bit: a byte has arrived.
pub const LINE_STATUS_DATA_READY: u8 = 0x01;

/// The byte sent through the loopback to test the port.
pub const LOOPBACK_TEST_BYTE: u8 = 0xAE;

/// How often the line status is read while waiting for the test byte.
pub const LOOPBACK_POLLS: u32 = 10000;

/// How often the line status is read while waiting for the transmit buffer.
pub const SEND_POLLS: u32 = 100000;

/// What a status byte means to someone who waits.
#[derive(Debug, Clone, Copy, PartialEq, Eq, Structural)]
pub enum Poll {
    /// The awaited bit is set.
    Ready,
    /// Not yet: read the status again.
    Retry,
    /// Not yet, and this was the last try.
    TimedOut,
}

/// The meaning of `status` after `failed` reads that did not show `bit`,
/// where `limit` reads are made at most.
pub open spec fn poll_of(status: u8, bit: u8, failed: u32, limit: u32) -> Poll {
    if status & bit != 0 {
        Poll::Ready
    } else if failed + 1 >= limit {
        Poll::TimedOut
    } else {
        Poll::Retry
    }
}

/// The writes that open the port at `base`: interrupts off, 115200 baud, 8
/// data bits without parity and one stop bit, FIFO on, then the loopback mode
/// and the test byte.
pub open spec fn open_writes(base: u16) -> Seq<PortWrite> {
    seq![
        byte_write((base + INT_ENABLE) as u16, 0x00),
        byte_write((base + LINE_CTRL) as u16, 0x80),
        byte_write((base + DATA) as u16, 0x01),
        byte_write((base + INT_ENABLE) as u16, 0x00),
        byte_write((base + LINE_CTRL) as u16, 0x03),
        byte_write((base + FIFO_CTRL) as u16, 0xC7),
        byte_write((base + MODEM_CTRL) as u16, 0x0B),
        byte_write((base + MODEM_CTRL) as u16, 0x1E),
        byte_write((base + DATA) as u16, LOOPBACK_TEST_BYTE),
    ]
}

/// The writes that send `bytes`, one to the data register for each.
pub open spec fn send_writes(base: u16, bytes: Seq<u8>) -> Seq<PortWrite> {
    Seq::new(bytes.len(), |i: int| byte_write((base + DATA) as u16, bytes[i]))
}

/// A serial port.
pub struct SerialPort {
    data: Port<u8>,
    int_enable: Port<u8>,
    fifo_ctrl: Port<u8>,
    line_ctrl: Port<u8>,
    modem_ctrl: Port<u8>,
    line_status: Port<u8>,
}

impl SerialPort {
    /// Base port of the device.
    pub closed spec fn base(self) -> u16 {
        self.data.addr()
    }

    /// The six registers lie at their offsets from the base.
    pub closed spec fn wf(self) -> bool {
        &&& self.base() + LINE_STATUS <= u16::MAX
        &&& self.int_enable.addr() == self.base() + INT_ENABLE
        &&& self.fifo_ctrl.addr() == self.base() + FIFO_CTRL
        &&& self.line_ctrl.addr() == self.base() + LINE_CTRL
        &&& self.modem_ctrl.addr() == self.base() + MODEM_CTRL
        &&& self.line_status.addr() == self.base() + LINE_STATUS
    }

    /// The port whose registers start at `base`.
    pub fn new(base: u16) -> (r: Self)
        requires
            base + LINE_STATUS <= u16::MAX,
        ensures
            r.wf(),
            r.base() == base,
    {
        Self {
            data: Port::new(base + DATA),
            int_enable: Port::new(base + INT_ENABLE),
            fifo_ctrl: Port::new(base + FIFO_CTRL),
            line_ctrl: Port::new(base + LINE_CTRL),
            modem_ctrl: Port::new(base + MODEM_CTRL),
            line_status: Port::new(base + LINE_STATUS),
        }
    }

    /// Address of the line status register, which the caller reads while it
    /// waits.
    pub fn status_port(&self) -> (r: u16)
        requires
            self.wf(),
        ensures
            r == self.base() + LINE_STATUS,
    {
        self.line_status.address()
    }

    /// Address of the data register.
    pub fn data_port(&self) -> (r: u16)
        ensures
            r == self.base(),
    {
        self.data.address()
    }

    /// The writes that open the port and start its self-test. The caller
    /// then waits with `loopback_poll` for the test byte and hands the byte
    /// that it reads to `finish_init`.
    pub fn init(&mut self) -> (r: Vec<PortWrite>)
        requires
            old(self).wf(),
        ensures
            final(self).wf(),
            final(self).base() == old(self).base(),
            r@ == open_writes(old(self).base()),
    {
        let mut w: Vec<PortWrite> = Vec::new();
        w.push(self.int_enable.write(0x00));
        w.push(self.line_ctrl.write(0x80));
        w.push(self.data.write(0x01));
        w.push(self.int_enable.write(0x00));
        w.push(self.line_ctrl.write(0x03));
        w.push(self.fifo_ctrl.write(0xC7));
        w.push(self.modem_ctrl.write(0x0B));
        w.push(self.modem_ctrl.write(0x1E));
        w.push(self.data.write(LOOPBACK_TEST_BYTE));
        assert(w@ =~= open_writes(old(self).base()));
        w
    }

    /// What the line status `status` means while waiting for the test byte,
    /// after `failed` reads without it. After 10000 reads the port counts as
    /// faulty.
    pub fn loopback_poll(status: u8, failed: u32) -> (r: Poll)
        requires
            failed < LOOPBACK_POLLS,
        ensures
            r == poll_of(status, LINE_STATUS_DATA_READY, failed, LOOPBACK_POLLS),
    {
        if status & LINE_STATUS_DATA_READY != 0 {
            Poll::Ready
        } else if failed + 1 >= LOOPBACK_POLLS {
            Poll::TimedOut
        } else {
            Poll::Retry
        }
    }

    /// The end of the self-test, given the byte read from the data register:
    /// where it is the test byte, the write that leaves the loopback mode;
    /// else nothing, and the port stays as it is, since it is faulty.
    pub fn finish_init(&mut self, echo: u8) -> (r: Option<PortWrite>)
        requires
            old(self).wf(),
        ensures
            final(self).wf(),
            final(self).base() == old(self).base(),
            r == if echo == LOOPBACK_TEST_BYTE {
                Some(byte_write((old(self).base() + MODEM_CTRL) as u16, 0x0F))
            } else {
                None
            },
    {
        if echo != LOOPBACK_TEST_BYTE {
            return None;
        }
        Some(self.modem_ctrl.write(0x0F))
    }

    /// What the line status `status` means while waiting for the transmit
    /// buffer, after `failed` reads that found it full. After 100000 reads the
    /// byte is dropped.
    pub fn send_poll(status: u8, failed: u32) -> (r: Poll)
        requires
            failed < SEND_POLLS,
        ensures
            r == poll_of(status, LINE_STATUS_OUTPUT_EMPTY, failed, SEND_POLLS),
    {
        if status & LINE_STATUS_OUTPUT_EMPTY != 0 {
            Poll::Ready
        } else if failed + 1 >= SEND_POLLS {
            Poll::TimedOut
        } else {
            Poll::Retry
        }
    }

    /// The write that sends `byte`, to be made once the transmit buffer is
    /// empty.
    pub fn send(&mut self, byte: u8) -> (r: PortWrite)
        requires
            old(self).wf(),
        ensures
            final(self).wf(),
            final(self).base() == old(self).base(),
            r == byte_write(old(self).base(), byte),
    {
        self.data.write(byte)
    }

    /// The writes that send the bytes of `s`, in order.
    pub fn write_str(&mut self, s: &str) -> (r: Vec<PortWrite>)
        requires
            old(self).wf(),
        ensures
            final(self).wf(),
            final(self).base() == old(self).base(),
            r@ == send_writes(old(self).base(), s.spec_bytes()),
    {
        let bytes = s.as_bytes();
        let mut w: Vec<PortWrite> = Vec::new();
        let mut i: usize = 0;
        while i < bytes.len()
            invariant
                i <= bytes@.len(),
                self.wf(),
                self.base() == old(self).base(),
                w@.len() == i,
                forall|j: int| 0 <= j < i ==> w@[j] == byte_write(old(self).base(), bytes@[j]),
            decreases bytes@.len() - i,
        {
            w.push(self.send(bytes[i]));
            i += 1;
        }
        assert(w@ =~= send_writes(old(self).base(), s.spec_bytes()));
        w
    }

    /// Whether, by the line status `status`, a byte waits in the data
    /// register. Only then is the register read.
    pub fn receive(status: u8) -> (r: bool)
        ensures
            r == (status & LINE_STATUS_DATA_READY != 0),
    {
        status & LINE_STATUS_DATA_READY != 0
    }
}

/// The port COM1 and the writes that open it.
pub fn init() -> (r: (SerialPort, Vec<PortWrite>))
    ensures
        r.0.wf(),
        r.0.base() == COM1,
        r.1@ == open_writes(COM1),
{
    let mut port = SerialPort::new(COM1);
    let writes = port.init();
    (port, writes)
}

} // verus!
