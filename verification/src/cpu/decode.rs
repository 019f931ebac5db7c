//! What the decode stage hands to the execute stage and sends back to the fetch stage.

use vstd::prelude::*;
use crate::cpu::branch_predictor::{BpResult, BpUpdate};
use crate::cpu::exe::ExeR;
use crate::cpu::mem::{CsrInfo, MemInfo};

verus! {

/// Source of the value that an instruction writes back.
#[derive(Debug, Clone, Copy, PartialEq, Eq, Structural)]
pub enum WbSel {
    /// The ALU output.
    Alu,
    /// The memory response.
    Mem,
    /// The control and status register that was read.
    Csr,
}

/// Branch type.
#[derive(Debug, Clone, Copy, PartialEq, Eq, Structural)]
pub enum BrType {
    /// Jump and link.
    Jal,
    /// Jump and link register.
    Jalr,
    /// Branch if equal.
    Beq,
    /// Branch if not equal.
    Bne,
    /// Branch if greater than or equal.
    Bge,
    /// Branch if greater than or equal, unsigned.
    Bgeu,
    /// Branch if less than.
    Blt,
    /// Branch if less than, unsigned.
    Bltu,
}

/// The four kinds of control transfer that branch resolution tells apart.
#[derive(Debug, Clone, Copy, PartialEq, Eq, Structural)]
pub enum BranchKind {
    /// The target is known at decode; nothing is left to resolve.
    UnconditionalJump,
    /// The target comes from a register and was predicted by the BTB.
    IndirectJump,
    /// Taken when the ALU output is zero: equal, greater than or equal.
    BranchEqOrGE,
    /// Taken when the ALU output is not zero: not equal, less than.
    BranchNeOrLT,
}

impl BrType {
    /// The kind of control transfer that the branch type belongs to.
    pub open spec fn spec_kind(self) -> BranchKind {
        match self {
            BrType::Jal => BranchKind::UnconditionalJump,
            BrType::Jalr => BranchKind::IndirectJump,
            BrType::Beq | BrType::Bge | BrType::Bgeu => BranchKind::BranchEqOrGE,
            BrType::Bne | BrType::Blt | BrType::Bltu => BranchKind::BranchNeOrLT,
        }
    }

    /// Returns the kind of control transfer that the branch type belongs to.
    pub fn kind(self) -> (r: BranchKind)
        ensures
            r == self.spec_kind(),
    {
        match self {
            BrType::Jal => BranchKind::UnconditionalJump,
            BrType::Jalr => BranchKind::IndirectJump,
            BrType::Beq | BrType::Bge | BrType::Bgeu => BranchKind::BranchEqOrGE,
            BrType::Bne | BrType::Blt | BrType::Bltu => BranchKind::BranchNeOrLT,
        }
    }
}

/// Branch information: the target is `base + offset`.
#[derive(Debug, Clone, Copy, PartialEq, Eq, Structural)]
pub struct BrInfo {
    /// Branch type.
    pub typ: BrType,
    /// Base of the target: the program counter, or a register value for an indirect jump.
    pub base: u32,
    /// Offset of the target from the base, in two's complement.
    pub offset: u32,
}

/// Payload from decode stage to execute stage.
#[derive(Debug, Clone, Copy, PartialEq, Eq)]
pub struct DecEP {
    /// Writeback information: the destination register and the source of its value.
    pub wb_info: Option<(u8, WbSel)>,
    /// Branch information, for a jump or a branch.
    pub br_info: Option<BrInfo>,
    /// Memory information.
    pub mem_info: Option<MemInfo>,
    /// CSR information.
    pub csr_info: Option<CsrInfo>,
    /// Indicates that the instruction is illegal or not.
    pub is_illegal: bool,
    /// PC.
    pub pc: u32,
    /// Instruction (for debugging purpose).
    pub debug_inst: u32,
    /// Branch prediction made when the instruction was fetched.
    pub bp_result: BpResult,
}

/// Hazard from decode stage to fetch stage.
#[derive(Debug, Clone, Copy, PartialEq, Eq, Structural)]
pub struct DecR {
    /// Indicates that the pipeline should be redirected.
    pub redirect: Option<u32>,
    /// Branch predictor update signal.
    pub bp_update: Option<BpUpdate>,
}

impl DecR {
    /// Creates the decode resolver from the execute resolver. The decode
    /// stage originates neither field, so both pass through unchanged.
    pub fn new(exer: ExeR) -> (r: Self)
        ensures
            r == (DecR { redirect: exer.redirect, bp_update: exer.bp_update }),
    {
        DecR { redirect: exer.redirect, bp_update: exer.bp_update }
    }
}

} // verus!
