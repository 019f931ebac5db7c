//! Branch predictor.

pub mod bht;
pub mod btb;
pub mod pre_decode;

use vstd::prelude::*;
use crate::cpu::branch_predictor::bht::{bht_predicted, bht_updated, Bht};
use crate::cpu::branch_predictor::btb::{btb_predicted, btb_updated, Btb};
use crate::cpu::branch_predictor::pre_decode::{pre_decode, spec_pre_decode, PreDecodeResp};
use crate::cpu::mem_interface::MemRespWithAddr;

verus! {

/// The sum of two 32-bit words as the hardware adder gives it: modulo `2^32`.
pub open spec fn wrapping_sum(a: u32, b: u32) -> u32 {
    ((a as int + b as int) % 0x1_0000_0000) as u32
}

/// The address of the instruction that follows the one at `pc` in memory.
pub open spec fn fall_through(pc: u32) -> u32 {
    wrapping_sum(pc, 4)
}

/// Adds two 32-bit words as the hardware adder does.
pub fn add_words(a: u32, b: u32) -> (r: u32)
    ensures
        r == wrapping_sum(a, b),
{
    let wide: u64 = a as u64 + b as u64;
    (wide % 0x1_0000_0000) as u32
}

/// Branch prediction results.
#[derive(Debug, Clone, Copy, PartialEq, Eq, Structural)]
pub struct BpResult {
    /// Pre-decode result.
    pub pre_decode: PreDecodeResp,
    /// Direction that the BHT predicts: `true` for taken.
    pub bht: bool,
    /// Target that the BTB predicts; the fall-through address where it holds none.
    pub btb: u32,
}

/// Branch predictor update, sent back by the execute stage for a resolved branch.
#[derive(Debug, Clone, Copy, PartialEq, Eq, Structural)]
pub enum BpUpdate {
    /// The conditional branch at `pc` resolved as taken or not taken.
    Bht {
        /// Address of the branch.
        pc: u32,
        /// Resolved direction.
        taken: bool,
    },
    /// The indirect jump at `pc` resolved to `target`.
    Btb {
        /// Address of the jump.
        pc: u32,
        /// Resolved target.
        target: u32,
    },
}

/// Branch predictor: a branch history table and a branch target buffer.
#[derive(Debug, Clone, Copy, PartialEq, Eq)]
pub struct Bp {
    /// Branch history table.
    pub bht: Bht,
    /// Branch target buffer.
    pub btb: Btb,
}

/// The two tables of a predictor as sequences: the counters of the BHT and the targets of the BTB.
pub type Tables = (Seq<bht::SatCounter>, Seq<Option<u32>>);

/// What a predictor with the given tables reports for the instruction word
/// `data` fetched from `addr`: the classification of the word, the direction
/// that the BHT predicts for `addr`, and the target that the BTB holds for
/// `addr`, or the fall-through address where it holds none.
pub open spec fn bp_predicted(tables: Tables, addr: u32, data: u32) -> BpResult {
    BpResult {
        pre_decode: spec_pre_decode(data),
        bht: bht_predicted(tables.0, addr),
        btb: match btb_predicted(tables.1, addr) {
            Some(target) => target,
            None => fall_through(addr),
        },
    }
}

/// The tables after an update. Only the table that the update names changes,
/// and only in the entry that its address selects.
pub open spec fn bp_updated(tables: Tables, update: BpUpdate) -> Tables {
    match update {
        BpUpdate::Bht { pc, taken } => (bht_updated(tables.0, pc, taken), tables.1),
        BpUpdate::Btb { pc, target } => (tables.0, btb_updated(tables.1, pc, target)),
    }
}

/// The tables after an update that may be absent: unchanged where it is.
pub open spec fn bp_updated_opt(tables: Tables, update: Option<BpUpdate>) -> Tables {
    match update {
        Some(update) => bp_updated(tables, update),
        None => tables,
    }
}

/// The tables of a predictor at reset: every counter weakly not taken, no target known.
pub open spec fn is_reset(tables: Tables) -> bool {
    &&& tables.0.len() == bht::BHT_ENTRIES
    &&& tables.1.len() == btb::BTB_ENTRIES
    &&& forall|i: int| 0 <= i < tables.0.len() ==> tables.0[i] == bht::SatCounter::WeaklyNotTaken
    &&& forall|i: int| 0 <= i < tables.1.len() ==> tables.1[i] == None::<u32>
}

impl View for Bp {
    type V = Tables;

    open spec fn view(&self) -> Tables {
        (self.bht@, self.btb@)
    }
}

impl Default for Bp {
    fn default() -> (r: Self)
        ensures
            is_reset(r@),
    {
        Bp { bht: Bht::default(), btb: Btb::default() }
    }
}

impl Bp {
    /// Predicts the fetched instruction: pre-decodes it and looks its address
    /// up in both tables. The state is not changed.
    pub fn predict(self, imem_resp: MemRespWithAddr) -> (r: BpResult)
        ensures
            r == bp_predicted(self@, imem_resp.addr, imem_resp.data),
    {
        let pc = imem_resp.addr;
        let btb = match self.btb.predict(pc) {
            Some(target) => target,
            None => add_words(pc, 4),
        };
        BpResult { pre_decode: pre_decode(imem_resp.data), bht: self.bht.predict(pc), btb }
    }

    /// Returns the predictor after the given update.
    pub fn update(self, update: BpUpdate) -> (r: Self)
        ensures
            r@ == bp_updated(self@, update),
    {
        match update {
            BpUpdate::Bht { pc, taken } => Bp { bht: self.bht.update(pc, taken), btb: self.btb },
            BpUpdate::Btb { pc, target } => Bp { bht: self.bht, btb: self.btb.update(pc, target) },
        }
    }

    /// Returns the predictor after an update that may be absent.
    pub fn update_opt(self, update: Option<BpUpdate>) -> (r: Self)
        ensures
            r@ == bp_updated_opt(self@, update),
    {
        match update {
            Some(update) => self.update(update),
            None => self,
        }
    }
}

/// A predictor at reset predicts every conditional branch as not taken and,
/// holding no target, every indirect jump to its fall-through address.
pub proof fn lemma_reset_predicts_fall_through(tables: Tables, addr: u32, data: u32)
    requires
        is_reset(tables),
    ensures
        !bp_predicted(tables, addr, data).bht,
        bp_predicted(tables, addr, data).btb == fall_through(addr),
{
}

/// A BHT update changes no target and a BTB update no counter.
pub proof fn lemma_update_touches_one_table(tables: Tables, update: BpUpdate)
    ensures
        update is Bht ==> bp_updated(tables, update).1 == tables.1,
        update is Btb ==> bp_updated(tables, update).0 == tables.0,
{
}

/// An update of the BHT and an update of the BTB can be made in either order.
pub proof fn lemma_updates_of_different_tables_commute(
    tables: Tables,
    pc1: u32,
    taken: bool,
    pc2: u32,
    target: u32,
)
    ensures
        bp_updated(bp_updated(tables, BpUpdate::Bht { pc: pc1, taken }), BpUpdate::Btb { pc: pc2, target })
            == bp_updated(
            bp_updated(tables, BpUpdate::Btb { pc: pc2, target }),
            BpUpdate::Bht { pc: pc1, taken },
        ),
{
}

} // verus!
