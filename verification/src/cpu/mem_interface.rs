//! Memory port: the requests that the core sends and the responses it gets.

use vstd::prelude::*;

verus! {

/// Width and signedness of a memory access.
#[derive(Debug, Clone, Copy, PartialEq, Eq, Structural)]
pub enum MemOpTyp {
    /// Signed byte.
    B,
    /// Signed half word.
    H,
    /// Word.
    W,
    /// Double word.
    D,
    /// Unsigned byte.
    BU,
    /// Unsigned half word.
    HU,
    /// Unsigned word.
    WU,
}

/// Direction of a memory access.
#[derive(Debug, Clone, Copy, PartialEq, Eq, Structural)]
pub enum MemOpFcn {
    /// Load.
    Load,
    /// Store.
    Store,
}

/// Memory request.
#[derive(Debug, Clone, Copy, PartialEq, Eq, Structural)]
pub struct MemReq {
    /// Address.
    pub addr: u32,
    /// Data to store; zero for a load.
    pub data: u32,
    /// Direction.
    pub fcn: MemOpFcn,
    /// Width and signedness.
    pub typ: MemOpTyp,
}

impl MemReq {
    /// Creates a load request.
    pub fn load(addr: u32, typ: MemOpTyp) -> (r: Self)
        ensures
            r == (MemReq { addr, data: 0, fcn: MemOpFcn::Load, typ }),
    {
        MemReq { addr, data: 0, fcn: MemOpFcn::Load, typ }
    }
}

/// Memory response together with the address that was requested.
#[derive(Debug, Clone, Copy, PartialEq, Eq, Structural)]
pub struct MemRespWithAddr {
    /// Address of the request.
    pub addr: u32,
    /// Data read.
    pub data: u32,
}

} // verus!
