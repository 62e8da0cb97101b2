use vstd::prelude::*;

verus! {

/// An x86 I/O port.
#[derive(Debug, Clone, Copy, PartialEq, Eq, Structural)]
pub struct IoPort(u16);

impl IoPort {
    /// The port's address.
    pub closed spec fn view(&self) -> u16 {
        self.0
    }

    /// The port at address `port`.
    pub fn new(port: u16) -> (r: Self)
        ensures
            r@ == port,
    {
        Self(port)
    }

    /// The port's address.
    pub fn port(self) -> (r: u16)
        ensures
            r == self@,
    {
        self.0
    }
}

} // verus!
