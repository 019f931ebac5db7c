//! Architectural registers.

use vstd::prelude::*;

verus! {

/// Number of architectural registers.
pub const REGS: usize = 32;

/// Register file: the value of each architectural register.
pub type Regfile = [u32; REGS];

/// A register together with the value written to it.
#[derive(Debug, Clone, Copy, PartialEq, Eq, Structural)]
pub struct Register {
    /// Register address.
    pub addr: u8,
    /// Register data.
    pub data: u32,
}

impl Register {
    /// Creates a new register value.
    pub fn new(addr: u8, data: u32) -> (r: Self)
        ensures
            r == (Register { addr, data }),
    {
        Register { addr, data }
    }
}

} // verus!
