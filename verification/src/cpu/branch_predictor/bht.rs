//! Branch history table.

use vstd::prelude::*;

verus! {

/// Number of BHT entries. It is a power of two.
pub const BHT_ENTRIES: usize = 128;

/// 2-bit saturation counter.
#[derive(Debug, Clone, Copy, PartialEq, Eq, Structural)]
pub enum SatCounter {
    /// Strongly not taken.
    StronglyNotTaken,
    /// Weakly not taken.
    WeaklyNotTaken,
    /// Weakly taken.
    WeaklyTaken,
    /// Strongly taken.
    StronglyTaken,
}

impl Default for SatCounter {
    fn default() -> (r: Self)
        ensures
            r == SatCounter::WeaklyNotTaken,
    {
        SatCounter::WeaklyNotTaken
    }
}

impl SatCounter {
    /// The counter as a number: 0 for strongly not taken up to 3 for strongly taken.
    pub open spec fn level(self) -> int {
        match self {
            SatCounter::StronglyNotTaken => 0,
            SatCounter::WeaklyNotTaken => 1,
            SatCounter::WeaklyTaken => 2,
            SatCounter::StronglyTaken => 3,
        }
    }

    /// The counter that stands for a number between 0 and 3.
    pub open spec fn from_level(level: int) -> SatCounter {
        if level <= 0 {
            SatCounter::StronglyNotTaken
        } else if level == 1 {
            SatCounter::WeaklyNotTaken
        } else if level == 2 {
            SatCounter::WeaklyTaken
        } else {
            SatCounter::StronglyTaken
        }
    }

    /// The counter one step towards taken, saturating at strongly taken.
    pub open spec fn spec_increment(self) -> SatCounter {
        SatCounter::from_level(if self.level() < 3 { self.level() + 1 } else { 3 })
    }

    /// The counter one step towards not taken, saturating at strongly not taken.
    pub open spec fn spec_decrement(self) -> SatCounter {
        SatCounter::from_level(if self.level() > 0 { self.level() - 1 } else { 0 })
    }

    /// The direction the counter predicts.
    pub open spec fn spec_predict(self) -> bool {
        self.level() >= 2
    }

    /// The counter after one resolved branch.
    pub open spec fn step(self, taken: bool) -> SatCounter {
        if taken {
            self.spec_increment()
        } else {
            self.spec_decrement()
        }
    }

    /// The counter after a run of resolved branches, the first outcome in `outcomes` applied first.
    pub open spec fn run(self, outcomes: Seq<bool>) -> SatCounter
        decreases outcomes.len(),
    {
        if outcomes.len() == 0 {
            self
        } else {
            self.step(outcomes[0]).run(outcomes.drop_first())
        }
    }

    /// Increments the counter.
    pub fn increment(self) -> (r: Self)
        ensures
            r == self.spec_increment(),
    {
        match self {
            SatCounter::StronglyNotTaken => SatCounter::WeaklyNotTaken,
            SatCounter::WeaklyNotTaken => SatCounter::WeaklyTaken,
            SatCounter::WeaklyTaken => SatCounter::StronglyTaken,
            SatCounter::StronglyTaken => SatCounter::StronglyTaken,
        }
    }

    /// Decrements the counter.
    pub fn decrement(self) -> (r: Self)
        ensures
            r == self.spec_decrement(),
    {
        match self {
            SatCounter::StronglyNotTaken => SatCounter::StronglyNotTaken,
            SatCounter::WeaklyNotTaken => SatCounter::StronglyNotTaken,
            SatCounter::WeaklyTaken => SatCounter::WeaklyNotTaken,
            SatCounter::StronglyTaken => SatCounter::WeaklyTaken,
        }
    }

    /// Predicts the branch is taken or not.
    pub fn predict(self) -> (r: bool)
        ensures
            r == self.spec_predict(),
    {
        match self {
            SatCounter::StronglyNotTaken | SatCounter::WeaklyNotTaken => false,
            SatCounter::WeaklyTaken | SatCounter::StronglyTaken => true,
        }
    }
}

/// The entry of a table of `BHT_ENTRIES` counters that a program counter selects.
pub open spec fn bht_index(pc: u32) -> int {
    pc as int % BHT_ENTRIES as int
}

/// The counters of a table after a branch at `pc` has resolved: the selected
/// counter has made one step, every other counter is as before.
pub open spec fn bht_updated(entries: Seq<SatCounter>, pc: u32, taken: bool) -> Seq<SatCounter> {
    entries.update(bht_index(pc), entries[bht_index(pc)].step(taken))
}

/// The direction that a table with the given counters predicts for a branch at `pc`.
pub open spec fn bht_predicted(entries: Seq<SatCounter>, pc: u32) -> bool {
    entries[bht_index(pc)].spec_predict()
}

/// BHT.
#[derive(Debug, Clone, Copy, PartialEq, Eq)]
pub struct Bht {
    /// BHT entries.
    pub entries: [SatCounter; BHT_ENTRIES],
}

impl View for Bht {
    type V = Seq<SatCounter>;

    open spec fn view(&self) -> Seq<SatCounter> {
        self.entries@
    }
}

impl Default for Bht {
    fn default() -> (r: Self)
        ensures
            r@.len() == BHT_ENTRIES,
            forall|i: int| 0 <= i < BHT_ENTRIES ==> r@[i] == SatCounter::WeaklyNotTaken,
    {
        Bht { entries: [SatCounter::WeaklyNotTaken;BHT_ENTRIES] }
    }
}

impl Bht {
    /// The direction that the table predicts for a branch at `pc`.
    pub open spec fn spec_predict(self, pc: u32) -> bool {
        bht_predicted(self@, pc)
    }

    /// Predicts the direction of a branch instruction with the given PC.
    ///
    /// Returns `true` if the branch is prediction as taken; otherwise, returns `false`.
    pub fn predict(self, pc: u32) -> (r: bool)
        ensures
            r == self.spec_predict(pc),
    {
        let index: usize = (pc as usize) % BHT_ENTRIES;
        let counter = self.entries[index];
        counter.predict()
    }

    /// Returns the updated BHT when a branch instruction resolves at the execute stage with the given PC.
    ///
    /// It updates the entry corresponding to the given PC.
    pub fn update(self, pc: u32, taken: bool) -> (r: Self)
        ensures
            r@ == bht_updated(self@, pc, taken),
    {
        let index: usize = (pc as usize) % BHT_ENTRIES;
        let counter = self.entries[index];
        let new_counter = if taken {
            counter.increment()
        } else {
            counter.decrement()
        };
        let mut entries = self.entries;
        entries[index] = new_counter;
        Bht { entries }
    }
}

/// One resolved branch moves a counter by at most one level, towards taken
/// when the branch was taken and towards not taken otherwise, and never past
/// the two saturation bounds.
pub proof fn lemma_step_is_adjacent(counter: SatCounter, taken: bool)
    ensures
        0 <= counter.step(taken).level() <= 3,
        taken ==> counter.step(taken).level() == if counter.level() == 3 {
            3
        } else {
            counter.level() + 1
        },
        !taken ==> counter.step(taken).level() == if counter.level() == 0 {
            0
        } else {
            counter.level() - 1
        },
{
}

/// Whatever the run of outcomes and the counter it starts from, the counter
/// ends in one of the four states, and its level is the level it stands for.
pub proof fn lemma_run_stays_in_range(counter: SatCounter, outcomes: Seq<bool>)
    ensures
        0 <= counter.run(outcomes).level() <= 3,
        SatCounter::from_level(counter.run(outcomes).level()) == counter.run(outcomes),
    decreases outcomes.len(),
{
    if outcomes.len() > 0 {
        lemma_run_stays_in_range(counter.step(outcomes[0]), outcomes.drop_first());
    }
}

/// A counter saturated at strongly taken stays there, and keeps predicting
/// taken, under any number of further taken outcomes.
pub proof fn lemma_saturated_taken_stays(outcomes: Seq<bool>)
    requires
        forall|i: int| 0 <= i < outcomes.len() ==> outcomes[i],
    ensures
        SatCounter::StronglyTaken.run(outcomes) == SatCounter::StronglyTaken,
        SatCounter::StronglyTaken.run(outcomes).spec_predict(),
    decreases outcomes.len(),
{
    if outcomes.len() > 0 {
        let rest = outcomes.drop_first();
        assert forall|i: int| 0 <= i < rest.len() implies rest[i] by {
            assert(rest[i] == outcomes[i + 1]);
        }
        lemma_saturated_taken_stays(rest);
    }
}

/// A counter saturated at strongly not taken stays there, and keeps predicting
/// not taken, under any number of further not-taken outcomes.
pub proof fn lemma_saturated_not_taken_stays(outcomes: Seq<bool>)
    requires
        forall|i: int| 0 <= i < outcomes.len() ==> !outcomes[i],
    ensures
        SatCounter::StronglyNotTaken.run(outcomes) == SatCounter::StronglyNotTaken,
        !SatCounter::StronglyNotTaken.run(outcomes).spec_predict(),
    decreases outcomes.len(),
{
    if outcomes.len() > 0 {
        let rest = outcomes.drop_first();
        assert forall|i: int| 0 <= i < rest.len() implies !rest[i] by {
            assert(rest[i] == outcomes[i + 1]);
        }
        lemma_saturated_not_taken_stays(rest);
    }
}

/// From any counter, three taken outcomes in a row saturate it at strongly
/// taken, and three not-taken outcomes at strongly not taken.
pub proof fn lemma_three_outcomes_saturate(counter: SatCounter, taken: bool)
    ensures
        counter.step(taken).step(taken).step(taken) == if taken {
            SatCounter::StronglyTaken
        } else {
            SatCounter::StronglyNotTaken
        },
{
}

/// Two program counters that select the same entry alias: an update made for
/// one of them is the update made for the other, and it is what the table
/// then predicts for the other.
pub proof fn lemma_bht_aliasing(bht: Bht, pc1: u32, pc2: u32, taken: bool)
    requires
        pc1 != pc2,
        pc1 as int % BHT_ENTRIES as int == pc2 as int % BHT_ENTRIES as int,
    ensures
        bht_updated(bht@, pc1, taken) == bht_updated(bht@, pc2, taken),
        bht_predicted(bht_updated(bht@, pc1, taken), pc2) == bht@[bht_index(pc2)].step(
            taken,
        ).spec_predict(),
{
}

/// An update leaves the prediction for every program counter that selects
/// another entry as it was.
pub proof fn lemma_bht_update_is_local(bht: Bht, pc1: u32, pc2: u32, taken: bool)
    requires
        pc1 as int % BHT_ENTRIES as int != pc2 as int % BHT_ENTRIES as int,
    ensures
        bht_predicted(bht_updated(bht@, pc1, taken), pc2) == bht_predicted(bht@, pc2),
{
}

/// Updates for program counters that select different entries can be made in either order.
pub proof fn lemma_bht_updates_commute(bht: Bht, pc1: u32, taken1: bool, pc2: u32, taken2: bool)
    requires
        pc1 as int % BHT_ENTRIES as int != pc2 as int % BHT_ENTRIES as int,
    ensures
        bht_updated(bht_updated(bht@, pc1, taken1), pc2, taken2) == bht_updated(
            bht_updated(bht@, pc2, taken2),
            pc1,
            taken1,
        ),
{
    assert(bht_updated(bht_updated(bht@, pc1, taken1), pc2, taken2) =~= bht_updated(
        bht_updated(bht@, pc2, taken2),
        pc1,
        taken1,
    ));
}

} // verus!
