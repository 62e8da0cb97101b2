use vstd::prelude::*;
use core::marker::PhantomData;

verus! {

/// The access a port allows.
pub trait Mode {
}

/// A port that may be read.
pub trait Read {
}

/// A port that may be written.
pub trait Write {
}

/// A read-only port.
#[derive(Clone, Copy)]
pub struct ModeRead;

impl Read for ModeRead {
}

impl Mode for ModeRead {
}

/// A write-only port.
#[derive(Clone, Copy)]
pub struct ModeWrite;

impl Write for ModeWrite {
}

impl Mode for ModeWrite {
}

/// A port that may be read and written.
#[derive(Clone, Copy)]
pub struct ModeReadWrite;

impl Read for ModeReadWrite {
}

impl Write for ModeReadWrite {
}

impl Mode for ModeReadWrite {
}

/// An x86 I/O port with the access given by `M`.
pub struct IoPort<M = ModeReadWrite> {
    port: u16,
    _mode: PhantomData<M>,
}

impl<M> Clone for IoPort<M> {
    fn clone(&self) -> (r: Self)
        ensures
            r == *self,
    {
        Self { port: self.port, _mode: PhantomData }
    }
}

impl<M> Copy for IoPort<M> {
}

impl<M> IoPort<M> where M: Mode {
    /// The port for address `port`.
    pub fn new(port: u16) -> (r: Self)
        ensures
            r.address() == port,
    {
        Self { port, _mode: PhantomData }
    }
}

impl<M> IoPort<M> {
    /// The port's address.
    pub closed spec fn address(&self) -> u16 {
        self.port
    }

    /// The port's address.
    pub fn port(&self) -> (r: u16)
        ensures
            r == self.address(),
    {
        self.port
    }
}

/// One byte to be written to one port.
#[derive(Debug, Clone, Copy, PartialEq, Eq, Structural)]
pub struct PortWrite {
    pub port: u16,
    pub value: u8,
}

} // verus!
