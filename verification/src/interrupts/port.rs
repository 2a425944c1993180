//! I/O ports as values.
//!
//! A [`Port`] names an address in the I/O space and the width of what travels
//! through it. Writing to a port yields a [`PortWrite`]: the instruction that
//! the platform has to execute. Reading is the platform's business alone; what
//! it read comes back to the drivers as an argument.

use core::marker::PhantomData;
use vstd::prelude::*;

verus! {

/// One `out` instruction: `width` bytes of `value` go to `port`.
#[derive(Debug, Clone, Copy, PartialEq, Eq, Structural)]
pub struct PortWrite {
    /// Address in the I/O space.
    pub port: u16,
    /// Number of bytes written: 1, 2 or 4.
    pub width: u8,
    /// The value, zero-extended to 32 bits.
    pub value: u32,
}

/// The write of the byte `value` to `port`.
pub open spec fn byte_write(port: u16, value: u8) -> PortWrite {
    PortWrite { port, width: 1, value: value as u32 }
}

/// A value that can travel through an I/O port.
pub trait PortValue: Copy {
    /// Width of the value in bytes.
    spec fn width_spec() -> u8;

    /// The value, zero-extended to 32 bits.
    spec fn widen_spec(self) -> u32;

    /// Width of the value in bytes: 1, 2 or 4.
    fn width() -> (r: u8)
        ensures
            r == Self::width_spec(),
            r == 1 || r == 2 || r == 4,
    ;

    /// The value, zero-extended to 32 bits.
    fn widen(self) -> (r: u32)
        ensures
            r == self.widen_spec(),
    ;
}

impl PortValue for u8 {
    open spec fn width_spec() -> u8 {
        1
    }

    open spec fn widen_spec(self) -> u32 {
        self as u32
    }

    fn width() -> (r: u8) {
        1
    }

    fn widen(self) -> (r: u32) {
        self as u32
    }
}

impl PortValue for u16 {
    open spec fn width_spec() -> u8 {
        2
    }

    open spec fn widen_spec(self) -> u32 {
        self as u32
    }

    fn width() -> (r: u8) {
        2
    }

    fn widen(self) -> (r: u32) {
        self as u32
    }
}

impl PortValue for u32 {
    open spec fn width_spec() -> u8 {
        4
    }

    open spec fn widen_spec(self) -> u32 {
        self
    }

    fn width() -> (r: u8) {
        4
    }

    fn widen(self) -> (r: u32) {
        self
    }
}

/// An I/O port through which values of type `T` travel.
pub struct Port<T: PortValue> {
    port: u16,
    _phantom: PhantomData<T>,
}

impl<T: PortValue> Port<T> {
    /// Address of the port in the I/O space.
    pub closed spec fn addr(self) -> u16 {
        self.port
    }

    /// The port at address `port`.
    pub fn new(port: u16) -> (r: Self)
        ensures
            r.addr() == port,
    {
        Self { port, _phantom: PhantomData }
    }

    /// Address of the port in the I/O space.
    pub fn address(&self) -> (r: u16)
        ensures
            r == self.addr(),
    {
        self.port
    }

    /// The instruction that writes `value` to this port.
    pub fn write(&mut self, value: T) -> (r: PortWrite)
        ensures
            r == (PortWrite {
                port: old(self).addr(),
                width: T::width_spec(),
                value: value.widen_spec(),
            }),
            final(self).addr() == old(self).addr(),
    {
        PortWrite { port: self.port, width: T::width(), value: value.widen() }
    }
}

} // verus!
