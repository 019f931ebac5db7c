//! Fetch stage.

use vstd::prelude::*;
use crate::cpu::branch_predictor::{
    add_words,
    bp_predicted,
    bp_updated_opt,
    fall_through,
    is_reset,
    wrapping_sum,
    Bp,
    BpResult,
    BpUpdate,
    Tables,
};
use crate::cpu::decode::DecR;
use crate::cpu::mem_interface::{MemOpFcn, MemOpTyp, MemReq, MemRespWithAddr};

verus! {

/// Payload from fetch stage to decode stage.
#[derive(Debug, Clone, Copy, PartialEq, Eq, Structural)]
pub struct FetEP {
    /// IMEM response.
    pub imem_resp: MemRespWithAddr,
    /// Branch prediction result.
    pub bp_result: BpResult,
    /// Branch predictor update.
    pub bp_update: Option<BpUpdate>,
}

/// State that the fetch stage keeps from one cycle to the next.
#[derive(Debug, Clone, Copy, PartialEq, Eq)]
pub struct FetS {
    /// Program counter register: the address of the instruction being fetched.
    pub pc: u32,
    /// Branch predictor.
    pub bp: Bp,
}

/// A resolver together with the ready signal of the stage that sends it.
#[derive(Debug, Clone, Copy, PartialEq, Eq)]
pub struct Ready<R> {
    /// The sender accepts a payload in this cycle.
    pub ready: bool,
    /// The resolver.
    pub inner: R,
}

impl<R> Ready<R> {
    /// Creates a resolver with a ready signal.
    pub fn new(ready: bool, inner: R) -> (r: Self)
        ensures
            r.ready == ready,
            r.inner == inner,
    {
        Ready { ready, inner }
    }
}

/// What the fetch stage drives in one cycle, and the state it latches for the next.
#[derive(Debug, Clone, Copy, PartialEq, Eq)]
pub struct FetOut {
    /// State for the next cycle.
    pub next: FetS,
    /// Request sent to the instruction memory.
    pub imem_req: MemReq,
    /// Payload offered to the decode stage, if any.
    pub payload: Option<FetEP>,
    /// The fetched instruction leaves the stage in this cycle, forwarded or
    /// dropped, so that the memory need not hold its response any longer.
    pub consumed: bool,
}

impl FetS {
    /// The state at reset: the program counter at the start address, and a
    /// predictor that knows nothing.
    pub fn new(start_addr: u32) -> (r: Self)
        ensures
            r.pc == start_addr,
            is_reset(r.bp@),
    {
        FetS { pc: start_addr, bp: Bp::default() }
    }
}

/// The address that the predictor expects to follow a fetched instruction:
/// the encoded target for an unconditional jump, the BTB target for an
/// indirect jump, the encoded target for a conditional branch that the BHT
/// predicts taken, and the fall-through address otherwise.
pub open spec fn predicted_next(p: FetEP) -> u32 {
    let pc = p.imem_resp.addr;
    let pre_decode = p.bp_result.pre_decode;
    if pre_decode.is_jal {
        wrapping_sum(pc, pre_decode.imm)
    } else if pre_decode.is_jalr {
        p.bp_result.btb
    } else if pre_decode.is_branch && p.bp_result.bht {
        wrapping_sum(pc, pre_decode.imm)
    } else {
        fall_through(pc)
    }
}

/// The next program counter: the redirect target where the resolver
/// redirects, else the address predicted to follow the fetched instruction,
/// and none where the resolver does not redirect and no instruction has been
/// fetched yet.
pub open spec fn spec_next_pc(p: Option<FetEP>, decr: DecR) -> Option<u32> {
    match decr.redirect {
        Some(target) => Some(target),
        None => match p {
            Some(fet_ep) => Some(predicted_next(fet_ep)),
            None => None,
        },
    }
}

/// Next PC calculation, from the instruction fetched last and the resolver of
/// the decode stage.
pub fn next_pc(p: Option<FetEP>, decr: DecR) -> (r: Option<u32>)
    ensures
        r == spec_next_pc(p, decr),
{
    match decr.redirect {
        // Next PC is redirected by later stage
        Some(target) => Some(target),
        // Next PC calculation based on the branch prediction
        None => match p {
            Some(fet_ep) => {
                let current_pc = fet_ep.imem_resp.addr;
                let bp_result = fet_ep.bp_result;
                let pre_decode = bp_result.pre_decode;
                let imm = pre_decode.imm;

                if pre_decode.is_jal {
                    // JAL -> next PC = current PC + imm
                    Some(add_words(current_pc, imm))
                } else if pre_decode.is_jalr {
                    // JALR -> next PC = BTB result: the target on a hit, current PC + 4 on a miss
                    Some(bp_result.btb)
                } else if pre_decode.is_branch {
                    if bp_result.bht {
                        // BHT = taken -> next PC = current PC + imm
                        Some(add_words(current_pc, imm))
                    } else {
                        // BHT = not taken -> next PC = current PC + 4
                        Some(add_words(current_pc, 4))
                    }
                } else {
                    // Other -> next PC = current PC + 4
                    Some(add_words(current_pc, 4))
                }
            },
            None => None,
        },
    }
}

/// The payload that the fetch stage makes of a memory response with the given
/// predictor tables: the response, and the prediction for it. The update
/// field is empty, since updates are made by the execute stage.
pub open spec fn fetched(tables: Tables, imem_resp: Option<MemRespWithAddr>) -> Option<FetEP> {
    match imem_resp {
        Some(resp) => Some(
            FetEP {
                imem_resp: resp,
                bp_result: bp_predicted(tables, resp.addr, resp.data),
                bp_update: None,
            },
        ),
        None => None,
    }
}

/// The payload that leaves the fetch stage: a redirect drops the fetched
/// instruction, which was fetched down the wrong path.
pub open spec fn forwarded(p: Option<FetEP>, decr: DecR) -> Option<FetEP> {
    if decr.redirect is None {
        p
    } else {
        None
    }
}

/// The fetched instruction leaves the stage when the decode stage accepts
/// it, and also when a redirect drops it.
pub open spec fn is_consumed(er: Ready<DecR>) -> bool {
    er.ready || er.inner.redirect is Some
}

/// The program counter latched for the next cycle: the next PC when there is
/// one and the fetched instruction leaves the stage, else the present one.
pub open spec fn latched_pc(pc: u32, p: Option<FetEP>, er: Ready<DecR>) -> u32 {
    match spec_next_pc(p, er.inner) {
        Some(next) => if is_consumed(er) {
            next
        } else {
            pc
        },
        None => pc,
    }
}

/// Fetch stage, for one cycle.
///
/// `s` is the state latched in the previous cycle, `imem_resp` the response
/// of the instruction memory if it has answered, and `er` the resolver of the
/// decode stage with its ready signal.
///
/// The predictor update of the resolver is applied first, and the fetched
/// instruction is predicted with the updated predictor. The stage requests
/// the instruction at its program counter. On a redirect the fetched
/// instruction is dropped and reported as consumed, and the program counter
/// moves to the redirect target.
pub fn fetch(s: FetS, imem_resp: Option<MemRespWithAddr>, er: Ready<DecR>) -> (r: FetOut)
    ensures
        r.next.bp@ == bp_updated_opt(s.bp@, er.inner.bp_update),
        r.next.pc == latched_pc(s.pc, fetched(r.next.bp@, imem_resp), er),
        r.imem_req == (MemReq { addr: s.pc, data: 0, fcn: MemOpFcn::Load, typ: MemOpTyp::WU }),
        r.payload == forwarded(fetched(r.next.bp@, imem_resp), er.inner),
        r.consumed == is_consumed(er),
{
    let decr = er.inner;

    // Update branch predictor based on the branch resolve result
    let bp = s.bp.update_opt(decr.bp_update);

    // Make a branch prediction based on the IMEM response
    let p = match imem_resp {
        Some(resp) => Some(FetEP { imem_resp: resp, bp_result: bp.predict(resp), bp_update: None }),
        None => None,
    };

    // A redirect kills the fetched instruction: it is reported as consumed and filtered out.
    let consumed = er.ready || decr.redirect.is_some();
    let payload = if decr.redirect.is_none() {
        p
    } else {
        None
    };

    let pc = match next_pc(p, decr) {
        Some(next) => if consumed {
            next
        } else {
            s.pc
        },
        None => s.pc,
    };

    FetOut {
        next: FetS { pc, bp },
        imem_req: MemReq::load(s.pc, MemOpTyp::WU),
        payload,
        consumed,
    }
}

/// A redirect always wins: whatever was fetched and predicted, the next
/// program counter is the redirect target, nothing is forwarded, and the
/// fetched instruction is reported as consumed.
pub proof fn lemma_redirect_wins(pc: u32, p: Option<FetEP>, er: Ready<DecR>)
    requires
        er.inner.redirect is Some,
    ensures
        latched_pc(pc, p, er) == er.inner.redirect->0,
        forwarded(p, er.inner) is None,
        is_consumed(er),
{
}

/// Without a redirect and without a fetched instruction the program counter holds.
pub proof fn lemma_holds_without_instruction(pc: u32, er: Ready<DecR>)
    requires
        er.inner.redirect is None,
    ensures
        latched_pc(pc, None, er) == pc,
        forwarded(None, er.inner) is None,
{
}

} // verus!
