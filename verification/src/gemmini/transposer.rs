//! Transposer: the cell of its systolic array and the control that steers it.

use vstd::prelude::*;

verus! {

/// Indicates the direction of the Transposer PE.
#[derive(Debug, Clone, Copy, PartialEq, Eq, Structural)]
pub enum Dir {
    /// Selects data from row side.
    Row,
    /// Selects data from column side.
    Col,
}

impl Default for Dir {
    fn default() -> (r: Self)
        ensures
            r == Dir::Row,
    {
        Dir::Row
    }
}

impl Dir {
    /// The other direction.
    pub open spec fn spec_flip(self) -> Dir {
        match self {
            Dir::Row => Dir::Col,
            Dir::Col => Dir::Row,
        }
    }

    /// Returns the other direction.
    pub fn flip(self) -> (r: Self)
        ensures
            r == self.spec_flip(),
    {
        match self {
            Dir::Row => Dir::Col,
            Dir::Col => Dir::Row,
        }
    }
}

/// What a Transposer PE drives in one cycle, and the value it latches for the next.
#[derive(Debug, Clone, Copy, PartialEq, Eq, Structural)]
pub struct TransposerPeOut {
    /// Value for the PE to the right: the value latched in the previous cycle.
    pub out_row: Option<i8>,
    /// Value for the PE below: the value latched in the previous cycle.
    pub out_col: Option<i8>,
    /// Direction for the PE below: the direction received from above.
    pub out_dir: Option<Dir>,
    /// Value latched for the next cycle.
    pub next: Option<i8>,
}

/// The value that a Transposer PE latches: the one from the side that the
/// direction selects, and none without a direction.
pub open spec fn selected(in_row: Option<i8>, in_col: Option<i8>, in_dir: Option<Dir>) -> Option<i8> {
    match in_dir {
        Some(Dir::Row) => in_row,
        Some(Dir::Col) => in_col,
        None => None,
    }
}

/// Transposer PE, for one cycle. `reg` is the value latched in the previous cycle.
pub fn transposer_pe(in_row: Option<i8>, in_col_with_dir: (Option<i8>, Option<Dir>), reg: Option<i8>) -> (r:
    TransposerPeOut)
    ensures
        r == (TransposerPeOut {
            out_row: reg,
            out_col: reg,
            out_dir: in_col_with_dir.1,
            next: selected(in_row, in_col_with_dir.0, in_col_with_dir.1),
        }),
{
    let (in_col, in_dir) = in_col_with_dir;
    let next = match in_dir {
        Some(Dir::Row) => in_row,
        Some(Dir::Col) => in_col,
        None => None,
    };
    TransposerPeOut { out_row: reg, out_col: reg, out_dir: in_dir, next }
}

/// The control state after one more row of a `dim` by `dim` matrix has
/// entered: the count of rows goes up, and with the last row it returns to
/// zero and the direction flips.
pub open spec fn spec_transposer_ctrl(dim: usize, s: (usize, Dir)) -> (usize, Dir) {
    if s.0 != dim - 1 {
        ((s.0 + 1) as usize, s.1)
    } else {
        (0, s.1.spec_flip())
    }
}

/// The control state after `n` more rows have entered.
pub open spec fn spec_transposer_ctrl_run(dim: usize, s: (usize, Dir), n: nat) -> (usize, Dir)
    decreases n,
{
    if n == 0 {
        s
    } else {
        spec_transposer_ctrl(dim, spec_transposer_ctrl_run(dim, s, (n - 1) as nat))
    }
}

/// Control of the Transposer, for one row that enters. `s` holds the number
/// of rows of the present matrix that have entered and the direction in which
/// the array moves. Returns the direction for this row and the next state.
pub fn transposer_ctrl<const DIM: usize>(s: (usize, Dir)) -> (r: (Dir, (usize, Dir)))
    requires
        s.0 < DIM,
    ensures
        r.0 == s.1,
        r.1 == spec_transposer_ctrl(DIM, s),
        r.1.0 < DIM,
{
    let new_state = if s.0 != DIM - 1 {
        (s.0 + 1, s.1)
    } else {
        match s.1 {
            Dir::Row => (0, Dir::Col),
            Dir::Col => (0, Dir::Row),
        }
    };
    (s.1, new_state)
}

/// While a matrix enters, the direction holds and the count tells how many
/// rows have entered; with its last row the direction flips and the count
/// returns to zero.
pub proof fn lemma_direction_flips_after_a_matrix(dim: usize, dir: Dir, n: nat)
    requires
        0 < dim,
        n <= dim,
    ensures
        n < dim ==> spec_transposer_ctrl_run(dim, (0, dir), n) == (n as usize, dir),
        n == dim ==> spec_transposer_ctrl_run(dim, (0, dir), n) == (0usize, dir.spec_flip()),
    decreases n,
{
    if n > 0 {
        lemma_direction_flips_after_a_matrix(dim, dir, (n - 1) as nat);
    }
}

/// Flipping the direction twice gives the direction back.
pub proof fn lemma_flip_is_an_involution(dir: Dir)
    ensures
        dir.spec_flip().spec_flip() == dir,
        dir.spec_flip() != dir,
{
}

} // verus!
