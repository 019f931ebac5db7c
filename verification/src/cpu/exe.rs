//! Execute stage.

use vstd::prelude::*;
use crate::cpu::branch_predictor::{add_words, fall_through, wrapping_sum, BpUpdate};
use crate::cpu::decode::{BranchKind, DecEP, WbSel};
use crate::cpu::mem::{CsrInfo, MemInfo, MemR};
use crate::cpu::regfile::{Regfile, Register};

verus! {

/// Payload from execute stage to memory stage.
#[derive(Debug, Clone, Copy, PartialEq, Eq)]
pub struct ExeEP {
    /// Writeback information.
    ///
    /// It contains the writeback address and selector.
    pub wb_info: Option<(u8, WbSel)>,
    /// ALU output.
    pub alu_out: u32,
    /// Memory information.
    pub mem_info: Option<MemInfo>,
    /// CSR information.
    pub csr_info: Option<CsrInfo>,
    /// Indicates that the instruction is illegal or not.
    pub is_illegal: bool,
    /// PC.
    pub pc: u32,
    /// Instruction (for debugging purpose).
    pub debug_inst: u32,
}

/// Hazard from execute stage to decode stage.
#[derive(Debug, Clone, Copy, PartialEq, Eq)]
pub struct ExeR {
    /// Bypassed data from EXE.
    pub bypass_from_exe: Option<Register>,
    /// Bypassed data from MEM.
    pub bypass_from_mem: Option<Register>,
    /// Bypassed data from WB.
    pub bypass_from_wb: Option<Register>,
    /// Stall.
    ///
    /// It contains the rd address of load or CSR instructions.
    pub stall: Option<u8>,
    /// Indicates that the pipeline should be redirected.
    pub redirect: Option<u32>,
    /// Register file.
    pub rf: Regfile,
    /// Branch predictor update signal.
    pub bp_update: Option<BpUpdate>,
}

/// The redirect that a stage sends upstream: its own where it has one, else
/// the one that it received from downstream.
pub open spec fn merged_redirect(local: Option<u32>, downstream: Option<u32>) -> Option<u32> {
    if local is Some {
        local
    } else {
        downstream
    }
}

impl ExeR {
    /// Creates a new execute resolver.
    ///
    /// The bypass, the stall and the predictor update are those of the
    /// execute stage. Its redirect takes precedence over the one received
    /// from the memory stage. The bypasses of the later stages and the
    /// register file pass through unchanged.
    pub fn new(
        memr: MemR,
        bypass: Option<Register>,
        stall: Option<u8>,
        redirect: Option<u32>,
        bp_update: Option<BpUpdate>,
    ) -> (r: Self)
        ensures
            r == (ExeR {
                bypass_from_exe: bypass,
                bypass_from_mem: memr.bypass_from_mem,
                bypass_from_wb: memr.bypass_from_wb,
                stall,
                redirect: merged_redirect(redirect, memr.redirect),
                rf: memr.rf,
                bp_update,
            }),
    {
        let merged = match redirect {
            Some(target) => Some(target),
            None => memr.redirect,
        };
        ExeR {
            bypass_from_exe: bypass,
            bypass_from_mem: memr.bypass_from_mem,
            bypass_from_wb: memr.bypass_from_wb,
            stall,
            redirect: merged,
            rf: memr.rf,
            bp_update,
        }
    }
}

/// The direction in which a conditional branch resolves: a branch of the
/// equal family is taken when the ALU output is zero, one of the not-equal
/// family when it is not.
pub open spec fn resolved_taken(kind: BranchKind, alu_out: u32) -> bool {
    match kind {
        BranchKind::BranchEqOrGE => alu_out == 0,
        _ => alu_out != 0,
    }
}

/// The redirect and the predictor update that resolving an instruction gives.
///
/// An instruction that is no branch, and an unconditional jump, give
/// neither. An indirect jump gives both when the BTB predicted another
/// target than the one it jumps to, and neither when the prediction was
/// right. A conditional branch always gives an update with the direction it
/// resolved in, and a redirect when the BHT predicted the other direction: to
/// the target when it is taken, to the fall-through address when it is not.
pub open spec fn spec_get_redirect(p: DecEP, alu_out: u32) -> (Option<u32>, Option<BpUpdate>) {
    match p.br_info {
        None => (None, None),
        Some(br_info) => {
            let target = wrapping_sum(br_info.base, br_info.offset);
            match br_info.typ.spec_kind() {
                BranchKind::UnconditionalJump => (None, None),
                BranchKind::IndirectJump => if target == p.bp_result.btb {
                    (None, None)
                } else {
                    (Some(target), Some(BpUpdate::Btb { pc: p.pc, target }))
                },
                kind => {
                    let taken = resolved_taken(kind, alu_out);
                    let redirect = if taken == p.bp_result.bht {
                        None
                    } else if taken {
                        Some(target)
                    } else {
                        Some(fall_through(p.pc))
                    };
                    (redirect, Some(BpUpdate::Bht { pc: p.pc, taken }))
                },
            }
        },
    }
}

/// Returns redirected PC based on the given payload.
pub fn get_redirect(p: DecEP, alu_out: u32) -> (r: (Option<u32>, Option<BpUpdate>))
    ensures
        r == spec_get_redirect(p, alu_out),
{
    let br_info = match p.br_info {
        Some(br_info) => br_info,
        None => {
            return (None, None);
        },
    };

    let target = add_words(br_info.base, br_info.offset);
    let alu_true = alu_out != 0;

    match br_info.typ.kind() {
        // Instruction is JAL
        BranchKind::UnconditionalJump => (None, None),
        // Instruction is JALR
        BranchKind::IndirectJump => {
            if target == p.bp_result.btb {
                // Prediction is true
                (None, None)
            } else {
                // Mispredicted
                let bp_update = BpUpdate::Btb { pc: p.pc, target };
                (Some(target), Some(bp_update))
            }
        },
        // Instruction is Branch if (greater than or) equal
        BranchKind::BranchEqOrGE => {
            if !alu_true {
                // Branch resolved as taken
                let bp_update = BpUpdate::Bht { pc: p.pc, taken: true };
                if p.bp_result.bht {
                    // Predicted as taken
                    (None, Some(bp_update))
                } else {
                    // Predicted as not taken -> mispredicted -> redirect to target
                    (Some(target), Some(bp_update))
                }
            } else {
                // Branch resolved as not taken
                let bp_update = BpUpdate::Bht { pc: p.pc, taken: false };
                if p.bp_result.bht {
                    // Predicted as taken -> mispredicted -> redirect to current PC + 4
                    (Some(add_words(p.pc, 4)), Some(bp_update))
                } else {
                    // Predicted as not taken
                    (None, Some(bp_update))
                }
            }
        },
        // Instruction is Branch if not equal or less than
        BranchKind::BranchNeOrLT => {
            if alu_true {
                // Branch resolved as taken
                let bp_update = BpUpdate::Bht { pc: p.pc, taken: true };
                if p.bp_result.bht {
                    // Predicted as taken
                    (None, Some(bp_update))
                } else {
                    // Predicted as not taken -> mispredicted -> redirect to target
                    (Some(target), Some(bp_update))
                }
            } else {
                // Branch resolved as not taken
                let bp_update = BpUpdate::Bht { pc: p.pc, taken: false };
                if p.bp_result.bht {
                    // Predicted as taken -> mispredicted -> redirect to current PC + 4
                    (Some(add_words(p.pc, 4)), Some(bp_update))
                } else {
                    // Predicted as not taken
                    (None, Some(bp_update))
                }
            }
        },
    }
}

/// The register that the execute stage asks the decode stage to wait for:
/// the destination of an instruction whose value comes from memory or from
/// a control and status register, and so is not known in this stage.
pub open spec fn spec_stall(p: Option<(DecEP, u32)>) -> Option<u8> {
    match p {
        Some((p, _)) => match p.wb_info {
            Some((addr, WbSel::Mem)) => Some(addr),
            Some((addr, WbSel::Csr)) => Some(addr),
            _ => None,
        },
        None => None,
    }
}

/// The value that the execute stage can supply this cycle: the ALU output,
/// for the destination of an instruction that writes it back.
pub open spec fn spec_bypass(p: Option<(DecEP, u32)>) -> Option<Register> {
    match p {
        Some((p, alu_out)) => match p.wb_info {
            Some((addr, WbSel::Alu)) => Some(Register { addr, data: alu_out }),
            _ => None,
        },
        None => None,
    }
}

/// The redirect and the predictor update of the instruction in the execute
/// stage, neither where the stage holds none.
pub open spec fn spec_resolution(p: Option<(DecEP, u32)>) -> (Option<u32>, Option<BpUpdate>) {
    match p {
        Some((p, alu_out)) => spec_get_redirect(p, alu_out),
        None => (None, None),
    }
}

/// The resolver that the execute stage sends to the decode stage, given the
/// instruction it holds with its ALU output and the resolver of the memory stage.
pub open spec fn spec_gen_resolver(p: Option<(DecEP, u32)>, memr: MemR) -> ExeR {
    ExeR {
        bypass_from_exe: spec_bypass(p),
        bypass_from_mem: memr.bypass_from_mem,
        bypass_from_wb: memr.bypass_from_wb,
        stall: spec_stall(p),
        redirect: merged_redirect(spec_resolution(p).0, memr.redirect),
        rf: memr.rf,
        bp_update: spec_resolution(p).1,
    }
}

/// The payload that the execute stage sends to the memory stage: none when
/// the memory stage redirects the pipeline, which kills the instruction.
pub open spec fn spec_gen_payload(ip: DecEP, alu_out: u32, memr: MemR) -> Option<ExeEP> {
    if memr.redirect is Some {
        None
    } else {
        Some(
            ExeEP {
                wb_info: ip.wb_info,
                alu_out,
                mem_info: ip.mem_info,
                csr_info: ip.csr_info,
                is_illegal: ip.is_illegal,
                pc: ip.pc,
                debug_inst: ip.debug_inst,
            },
        )
    }
}

/// Generates resolver from execute stage to decode stage.
pub fn gen_resolver(er: (Option<(DecEP, u32)>, MemR)) -> (r: ExeR)
    ensures
        r == spec_gen_resolver(er.0, er.1),
{
    let (p, memr) = er;

    let (p, alu_out) = match p {
        Some((p, alu_out)) => (p, alu_out),
        None => {
            return ExeR::new(memr, None, None, None, None);
        },
    };

    let stall = match p.wb_info {
        Some((addr, WbSel::Mem)) => Some(addr),
        Some((addr, WbSel::Csr)) => Some(addr),
        _ => None,
    };

    let bypass = match p.wb_info {
        Some((addr, WbSel::Alu)) => Some(Register::new(addr, alu_out)),
        _ => None,
    };

    let (redirect, bp_update) = get_redirect(p, alu_out);

    ExeR::new(memr, bypass, stall, redirect, bp_update)
}

/// Generates payload from execute stage to memory stage.
pub fn gen_payload(ip: DecEP, alu_out: u32, memr: MemR) -> (r: Option<ExeEP>)
    ensures
        r == spec_gen_payload(ip, alu_out, memr),
{
    if memr.redirect.is_some() {
        None
    } else {
        Some(
            ExeEP {
                alu_out,
                wb_info: ip.wb_info,
                mem_info: ip.mem_info,
                csr_info: ip.csr_info,
                is_illegal: ip.is_illegal,
                pc: ip.pc,
                debug_inst: ip.debug_inst,
            },
        )
    }
}

/// Execute stage, for one cycle.
///
/// `p` is the instruction that the stage holds together with the output that
/// the arithmetic unit computed for it, if it holds one; `memr` is the
/// resolver of the memory stage. Returns the payload for the memory stage and
/// the resolver for the decode stage.
pub fn exe(p: Option<(DecEP, u32)>, memr: MemR) -> (r: (Option<ExeEP>, ExeR))
    ensures
        r.0 == match p {
            Some((ip, alu_out)) => spec_gen_payload(ip, alu_out, memr),
            None => None,
        },
        r.1 == spec_gen_resolver(p, memr),
{
    let resolver = gen_resolver((p, memr));
    let payload = match p {
        Some((ip, alu_out)) => gen_payload(ip, alu_out, memr),
        None => None,
    };
    (payload, resolver)
}

/// A conditional branch is redirected if and only if it resolves in the
/// direction that was not predicted, and it updates the BHT with the
/// direction it resolved in whether the prediction was right or wrong.
pub proof fn lemma_branch_redirects_iff_mispredicted(p: DecEP, alu_out: u32)
    requires
        p.br_info is Some,
        p.br_info->0.typ.spec_kind() is BranchEqOrGE || p.br_info->0.typ.spec_kind() is BranchNeOrLT,
    ensures
        spec_get_redirect(p, alu_out).0 is Some <==> resolved_taken(
            p.br_info->0.typ.spec_kind(),
            alu_out,
        ) != p.bp_result.bht,
        spec_get_redirect(p, alu_out).1 == Some(
            BpUpdate::Bht {
                pc: p.pc,
                taken: resolved_taken(p.br_info->0.typ.spec_kind(), alu_out),
            },
        ),
{
}

/// An indirect jump is redirected if and only if the predicted target is not
/// the one it jumps to, and it updates the BTB exactly when it is redirected.
pub proof fn lemma_jump_redirects_iff_mispredicted(p: DecEP, alu_out: u32)
    requires
        p.br_info is Some,
        p.br_info->0.typ.spec_kind() is IndirectJump,
    ensures
        spec_get_redirect(p, alu_out).0 is Some <==> wrapping_sum(
            p.br_info->0.base,
            p.br_info->0.offset,
        ) != p.bp_result.btb,
        spec_get_redirect(p, alu_out).1 is Some <==> spec_get_redirect(p, alu_out).0 is Some,
{
}

/// The two families of conditional branches mirror each other: a branch of
/// one family resolves as a branch of the other does on the opposite ALU condition.
pub proof fn lemma_branch_families_mirror(alu_out: u32)
    ensures
        resolved_taken(BranchKind::BranchEqOrGE, alu_out) == !resolved_taken(
            BranchKind::BranchNeOrLT,
            alu_out,
        ),
{
}

} // verus!
