use vstd::prelude::*;

verus! {

pub const UART_DR: u64 = 0x00;
pub const UART_SR: u64 = 0x04;

/// A transmit-only UART. A write to the data register hands the byte to the bus,
/// which captures it and, when `echo_stdout` is set, queues it for standard output.
#[derive(Debug, Clone, Copy)]
pub struct Uart {
    pub echo_stdout: bool,
}

impl Uart {
    pub open spec fn read_spec(self, offset: u64) -> u8 {
        if offset == UART_SR {
            1
        } else {
            0
        }
    }

    /// The byte transmitted by a write, if any.
    pub open spec fn write_spec(self, offset: u64, value: u8) -> Option<u8> {
        if offset == UART_DR {
            Some(value)
        } else {
            None
        }
    }

    pub fn new() -> (r: Self)
        ensures
            r.echo_stdout,
    {
        Uart { echo_stdout: true }
    }

    /// Sets whether transmitted bytes are echoed to standard output.
    pub fn set_sink(&mut self, echo_stdout: bool)
        ensures
            final(self).echo_stdout == echo_stdout,
    {
        self.echo_stdout = echo_stdout;
    }

    pub fn read(&self, offset: u64) -> (r: u8)
        ensures
            r == self.read_spec(offset),
    {
        if offset == UART_SR {
            1
        } else {
            0
        }
    }

    pub fn write(&self, offset: u64, value: u8) -> (r: Option<u8>)
        ensures
            r == self.write_spec(offset, value),
    {
        if offset == UART_DR {
            Some(value)
        } else {
            None
        }
    }
}

/// A placeholder device: every byte reads as `value` and writes are ignored.
#[derive(Debug, Clone, Copy)]
pub struct Stub {
    pub value: u8,
}

impl Stub {
    pub fn new(value: u8) -> (r: Self)
        ensures
            r.value == value,
    {
        Stub { value }
    }
}

} // verus!
