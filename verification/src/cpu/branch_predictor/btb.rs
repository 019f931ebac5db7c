//! Branch target buffer.

use vstd::prelude::*;

verus! {

/// Number of BTB entries. It is a power of two.
pub const BTB_ENTRIES: usize = 32;

/// The entry of a table of `BTB_ENTRIES` targets that a program counter selects.
pub open spec fn btb_index(pc: u32) -> int {
    pc as int % BTB_ENTRIES as int
}

/// The targets of a table after the jump at `pc` has resolved to `target`:
/// the selected entry holds `target`, every other entry is as before.
pub open spec fn btb_updated(entries: Seq<Option<u32>>, pc: u32, target: u32) -> Seq<Option<u32>> {
    entries.update(btb_index(pc), Some(target))
}

/// The target that a table with the given entries holds for a jump at `pc`, if it holds one.
pub open spec fn btb_predicted(entries: Seq<Option<u32>>, pc: u32) -> Option<u32> {
    entries[btb_index(pc)]
}

/// BTB.
#[derive(Debug, Clone, Copy, PartialEq, Eq)]
pub struct Btb {
    /// BTB entries.
    pub entries: [Option<u32>; BTB_ENTRIES],
}

impl View for Btb {
    type V = Seq<Option<u32>>;

    open spec fn view(&self) -> Seq<Option<u32>> {
        self.entries@
    }
}

impl Default for Btb {
    fn default() -> (r: Self)
        ensures
            r@.len() == BTB_ENTRIES,
            forall|i: int| 0 <= i < BTB_ENTRIES ==> r@[i] == None::<u32>,
    {
        Btb { entries: [None;BTB_ENTRIES] }
    }
}

impl Btb {
    /// The target that the table holds for a jump at `pc`, if it holds one.
    pub open spec fn spec_predict(self, pc: u32) -> Option<u32> {
        btb_predicted(self@, pc)
    }

    /// Returns the predicted target address of a JALR instruction with the given PC.
    pub fn predict(self, pc: u32) -> (r: Option<u32>)
        ensures
            r == self.spec_predict(pc),
    {
        let index: usize = (pc as usize) % BTB_ENTRIES;
        self.entries[index]
    }

    /// Returns the updated BTB when a target address misprediction occurs.
    ///
    /// It updates the entry corresponding to the given PC with the given correct target address.
    pub fn update(self, pc: u32, target: u32) -> (r: Self)
        ensures
            r@ == btb_updated(self@, pc, target),
    {
        let index: usize = (pc as usize) % BTB_ENTRIES;
        let mut entries = self.entries;
        entries[index] = Some(target);
        Btb { entries }
    }
}

/// Two program counters that select the same entry alias: the target
/// recorded for one of them is the target then predicted for the other.
pub proof fn lemma_btb_aliasing(btb: Btb, pc1: u32, pc2: u32, target: u32)
    requires
        pc1 != pc2,
        pc1 as int % BTB_ENTRIES as int == pc2 as int % BTB_ENTRIES as int,
    ensures
        btb_updated(btb@, pc1, target) == btb_updated(btb@, pc2, target),
        btb_predicted(btb_updated(btb@, pc1, target), pc2) == Some(target),
{
}

/// An update leaves the prediction for every program counter that selects
/// another entry as it was.
pub proof fn lemma_btb_update_is_local(btb: Btb, pc1: u32, pc2: u32, target: u32)
    requires
        pc1 as int % BTB_ENTRIES as int != pc2 as int % BTB_ENTRIES as int,
    ensures
        btb_predicted(btb_updated(btb@, pc1, target), pc2) == btb_predicted(btb@, pc2),
{
}

/// Recording the same target for the same program counter twice gives the
/// table that recording it once gives.
pub proof fn lemma_btb_update_idempotent(btb: Btb, pc: u32, target: u32)
    ensures
        btb_updated(btb_updated(btb@, pc, target), pc, target) == btb_updated(btb@, pc, target),
{
    assert(btb_updated(btb_updated(btb@, pc, target), pc, target) =~= btb_updated(
        btb@,
        pc,
        target,
    ));
}

/// Updates for program counters that select different entries can be made in either order.
pub proof fn lemma_btb_updates_commute(btb: Btb, pc1: u32, target1: u32, pc2: u32, target2: u32)
    requires
        pc1 as int % BTB_ENTRIES as int != pc2 as int % BTB_ENTRIES as int,
    ensures
        btb_updated(btb_updated(btb@, pc1, target1), pc2, target2) == btb_updated(
            btb_updated(btb@, pc2, target2),
            pc1,
            target1,
        ),
{
    assert(btb_updated(btb_updated(btb@, pc1, target1), pc2, target2) =~= btb_updated(
        btb_updated(btb@, pc2, target2),
        pc1,
        target1,
    ));
}

} // verus!
