//! What the memory stage sends back to the execute stage.

use vstd::prelude::*;
use crate::cpu::mem_interface::{MemOpFcn, MemOpTyp};
use crate::cpu::regfile::{Regfile, Register};

verus! {

/// Memory access that an instruction asks of the memory stage.
#[derive(Debug, Clone, Copy, PartialEq, Eq, Structural)]
pub struct MemInfo {
    /// Direction.
    pub fcn: MemOpFcn,
    /// Width and signedness.
    pub typ: MemOpTyp,
    /// Data to store.
    pub data: u32,
}

/// Access to a control and status register that an instruction asks for.
#[derive(Debug, Clone, Copy, PartialEq, Eq, Structural)]
pub struct CsrInfo {
    /// Encoded command.
    pub cmd: u8,
    /// Address of the control and status register.
    pub addr: u16,
}

/// Hazard from memory stage to execute stage.
#[derive(Debug, Clone, Copy, PartialEq, Eq)]
pub struct MemR {
    /// Bypassed data from MEM.
    pub bypass_from_mem: Option<Register>,
    /// Bypassed data from WB.
    pub bypass_from_wb: Option<Register>,
    /// Indicates that the pipeline should be redirected.
    pub redirect: Option<u32>,
    /// Register file.
    pub rf: Regfile,
}

} // verus!
