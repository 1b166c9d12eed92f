//! The integer part of the small Whetstone workload that the tasks run: the
//! three indices `ij`, `ik`, `il` that pick the cells of the work array, how
//! one iteration shuffles them, and which cells each step touches. The
//! floating-point part (the values stored in the cells) runs outside.
use vstd::prelude::*;

verus! {

/// Number of cells of the work array.
pub const N9: i32 = 7;

/// Number of inner iterations of the workload's procedure P3.
pub const N8: i32 = 10;

/// Index triple `(ij, ik, il)` as mathematical integers.
pub type Indices = (int, int, int);

/// The first shuffle of an iteration:
/// `ij = (ik - ij) * (il - ik); ik = il - (ik - ij); il = (il - ik) * (ik + il)`.
pub open spec fn shuffle_first(s: Indices) -> Indices {
    let ij = (s.1 - s.0) * (s.2 - s.1);
    let ik = s.2 - (s.1 - ij);
    let il = (s.2 - ik) * (ik + s.2);
    (ij, ik, il)
}

/// The second shuffle of an iteration:
/// `ij = il - (il - 3) * ik; il = (il - ik) * (ik - ij); ik = (il - ik) * ik`.
pub open spec fn shuffle_second(s: Indices) -> Indices {
    let ij = s.2 - (s.2 - 3) * s.1;
    let il = (s.2 - s.1) * (s.1 - ij);
    let ik = (il - s.1) * s.1;
    (ij, ik, il)
}

/// Procedure P0's parameter check: a negative index resets all three to 0,
/// otherwise an index past the last cell sets all three to the last cell.
pub open spec fn clamp_indices(s: Indices) -> Indices {
    if s.0 < 0 || s.1 < 0 || s.2 < 0 {
        (0, 0, 0)
    } else if s.0 > N9 - 1 || s.1 > N9 - 1 || s.2 > N9 - 1 {
        (N9 - 1, N9 - 1, N9 - 1)
    } else {
        s
    }
}

/// After the first shuffle, the cells `(il - 1, ik - 1)` that receive the index
/// sum and the sine, when both are cells of the work array.
pub open spec fn first_store_cells(s: Indices) -> Option<(int, int)> {
    if s.1 - 1 < 0 || s.2 - 1 < 0 {
        None
    } else if s.1 - 1 > N9 - 1 || s.2 - 1 > N9 - 1 {
        None
    } else {
        Some((s.2 - 1, s.1 - 1))
    }
}

/// After the second shuffle, the cell `il - 1` that receives the index sum,
/// when it is a cell of the work array.
pub open spec fn second_store_cell(s: Indices) -> Option<int> {
    if s.2 - 1 < 0 {
        None
    } else if s.2 - 1 > N9 - 1 {
        None
    } else {
        Some(s.2 - 1)
    }
}

/// After the second shuffle, the cell `ik + 1` that receives the cosine, when
/// it is a cell of the work array.
pub open spec fn third_store_cell(s: Indices) -> Option<int> {
    if s.1 + 1 > N9 - 1 {
        None
    } else if s.1 + 1 < 0 {
        None
    } else {
        Some(s.1 + 1)
    }
}

/// The indices at the start of the next iteration: the shuffled indices after
/// P0's check, with `ij` one higher when the iteration missed its expected value.
pub open spec fn next_indices(s: Indices, missed: bool) -> Indices {
    let settled = clamp_indices(shuffle_second(shuffle_first(s)));
    (if missed { settled.0 + 1 } else { settled.0 }, settled.1, settled.2)
}

/// The indices that the iterations of the workload can reach from the start.
pub open spec fn reachable(s: Indices) -> bool {
    &&& 0 <= s.0 <= 1
    &&& s.1 == 0
    &&& s.2 == 0
}

/// The cells that one iteration touches and the integers that it stores.
#[derive(Clone, Copy, Debug)]
pub struct IterationPlan {
    /// After the first shuffle: the cells that receive `first_sum` and the sine
    /// of `sine_argument`, if both are cells of the work array.
    pub first_cells: Option<(usize, usize)>,
    /// `ij + ik + il` after the first shuffle.
    pub first_sum: i32,
    /// `il` after the first shuffle.
    pub sine_argument: i32,
    /// After the second shuffle: the cell that receives `second_sum`, if any.
    pub second_cell: Option<usize>,
    /// `ij + ik + il` after the second shuffle.
    pub second_sum: i32,
    /// After the second shuffle: the cell that receives the cosine, if any.
    pub third_cell: Option<usize>,
    /// The cells `(ij, ik, il, i)` of each of the N9 calls of P0, which copies
    /// `e1[ij] = e1[ik]; e1[ik] = e1[il]; e1[i] = e1[ij]`.
    pub p0_cells: (usize, usize, usize, usize),
}

/// The index registers of the workload.
pub struct WorkloadIndices {
    ij: i32,
    ik: i32,
    il: i32,
    i: i32,
}

impl WorkloadIndices {
    #[verifier::type_invariant]
    spec fn indices_reachable(self) -> bool {
        &&& reachable((self.ij as int, self.ik as int, self.il as int))
        &&& self.i == 0
    }

    /// The indices `(ij, ik, il)`.
    pub closed spec fn indices(self) -> Indices {
        (self.ij as int, self.ik as int, self.il as int)
    }

    /// The fixed cell `i` that P0 copies into.
    pub closed spec fn base_cell(self) -> int {
        self.i as int
    }

    /// All indices start at zero.
    pub fn new() -> (r: WorkloadIndices)
        ensures
            r.indices() == (0int, 0int, 0int),
            r.base_cell() == 0,
    {
        WorkloadIndices { ij: 0, ik: 0, il: 0, i: 0 }
    }

    /// The cells and values of the next iteration, from the current indices.
    pub fn plan_iteration(&self) -> (p: IterationPlan)
        ensures
            ({
                let f = shuffle_first(self.indices());
                let g = shuffle_second(f);
                let c = clamp_indices(g);
                &&& (match p.first_cells {
                    Some((a, b)) => first_store_cells(f) == Some((a as int, b as int)),
                    None => first_store_cells(f) is None,
                })
                &&& p.first_sum == f.0 + f.1 + f.2
                &&& p.sine_argument == f.2
                &&& (match p.second_cell {
                    Some(a) => second_store_cell(g) == Some(a as int),
                    None => second_store_cell(g) is None,
                })
                &&& p.second_sum == g.0 + g.1 + g.2
                &&& (match p.third_cell {
                    Some(a) => third_store_cell(g) == Some(a as int),
                    None => third_store_cell(g) is None,
                })
                &&& p.p0_cells.0 == c.0 && p.p0_cells.1 == c.1 && p.p0_cells.2 == c.2
                &&& p.p0_cells.3 == self.base_cell()
            }),
    {
        proof {
            use_type_invariant(self);
            lemma_iteration_from_reachable(self.indices(), false);
        }
        let ij1 = (self.ik - self.ij) * (self.il - self.ik);
        let ik1 = self.il - (self.ik - ij1);
        let il1 = (self.il - ik1) * (ik1 + self.il);
        let first_cells = if ik1 - 1 < 0 || il1 - 1 < 0 {
            None
        } else if ik1 - 1 > N9 - 1 || il1 - 1 > N9 - 1 {
            None
        } else {
            Some(((il1 - 1) as usize, (ik1 - 1) as usize))
        };
        let first_sum = ij1 + ik1 + il1;
        let ij2 = il1 - (il1 - 3) * ik1;
        let il2 = (il1 - ik1) * (ik1 - ij2);
        let ik2 = (il2 - ik1) * ik1;
        let second_cell = if il2 - 1 < 0 {
            None
        } else if il2 - 1 > N9 - 1 {
            None
        } else {
            Some((il2 - 1) as usize)
        };
        let third_cell = if ik2 + 1 > N9 - 1 {
            None
        } else if ik2 + 1 < 0 {
            None
        } else {
            Some((ik2 + 1) as usize)
        };
        let (cj, ck, cl) = clamp(ij2, ik2, il2);
        IterationPlan {
            first_cells,
            first_sum,
            sine_argument: il1,
            second_cell,
            second_sum: ij2 + ik2 + il2,
            third_cell,
            p0_cells: (cj as usize, ck as usize, cl as usize, self.i as usize),
        }
    }

    /// Moves the indices on by one iteration; `missed` tells whether the
    /// iteration's result differed from the expected value, which raises `ij`.
    pub fn finish_iteration(&mut self, missed: bool)
        ensures
            final(self).indices() == next_indices(old(self).indices(), missed),
            final(self).indices() == (if missed { 1int } else { 0int }, 0int, 0int),
            final(self).base_cell() == old(self).base_cell(),
    {
        proof {
            use_type_invariant(&*self);
            lemma_iteration_from_reachable(self.indices(), false);
        }
        let ij1 = (self.ik - self.ij) * (self.il - self.ik);
        let ik1 = self.il - (self.ik - ij1);
        let il1 = (self.il - ik1) * (ik1 + self.il);
        let ij2 = il1 - (il1 - 3) * ik1;
        let il2 = (il1 - ik1) * (ik1 - ij2);
        let ik2 = (il2 - ik1) * ik1;
        let (cj, ck, cl) = clamp(ij2, ik2, il2);
        self.ij = if missed { cj + 1 } else { cj };
        self.ik = ck;
        self.il = cl;
    }
}

/// From a reachable triple both shuffles and P0's check lead to all zeros, so
/// every iteration keeps the indices reachable.
pub proof fn lemma_iteration_from_reachable(s: Indices, missed: bool)
    requires
        reachable(s),
    ensures
        shuffle_first(s) == (0int, 0int, 0int),
        shuffle_second((0int, 0int, 0int)) == (0int, 0int, 0int),
        clamp_indices((0int, 0int, 0int)) == (0int, 0int, 0int),
        reachable(next_indices(s, missed)),
{
    let (a, b, c) = s;
    assert((b - a) * (c - b) == 0) by (nonlinear_arith)
        requires
            b == 0,
            c == 0,
    ;
    assert((0int - 3) * 0int == 0) by (nonlinear_arith);
    assert((0int - 0) * (0int - 0) == 0) by (nonlinear_arith);
    assert((0int - 0) * (0int + 0) == 0) by (nonlinear_arith);
}

/// A missed iteration raises `ij` by one over the same iteration without a
/// miss and leaves `ik` and `il` as they are; without a miss the indices are
/// the shuffled ones after P0's check.
pub proof fn lemma_missed_iteration_raises_ij(s: Indices)
    ensures
        next_indices(s, true).0 == next_indices(s, false).0 + 1,
        next_indices(s, true).1 == next_indices(s, false).1,
        next_indices(s, true).2 == next_indices(s, false).2,
        next_indices(s, false) == clamp_indices(shuffle_second(shuffle_first(s))),
{
}

/// From reachable indices an iteration leads to `(1, 0, 0)` when it missed the
/// expected value and to `(0, 0, 0)` when it did not.
pub proof fn lemma_iteration_result_from_reachable(s: Indices, missed: bool)
    requires
        reachable(s),
    ensures
        next_indices(s, missed) == (if missed { 1int } else { 0int }, 0int, 0int),
        next_indices(s, true) != next_indices(s, false),
{
    lemma_iteration_from_reachable(s, missed);
}

/// Every cell that an iteration stores into is a cell of the work array, and
/// P0's check leaves all three indices on cells of the work array; checking
/// again changes nothing, so the N9 calls of P0 in one iteration all use the
/// same cells.
pub proof fn lemma_cells_in_range(s: Indices)
    ensures
        first_store_cells(s) matches Some((a, b)) ==> 0 <= a < N9 && 0 <= b < N9,
        second_store_cell(s) matches Some(a) ==> 0 <= a < N9,
        third_store_cell(s) matches Some(a) ==> 0 <= a < N9,
        0 <= clamp_indices(s).0 < N9,
        0 <= clamp_indices(s).1 < N9,
        0 <= clamp_indices(s).2 < N9,
        clamp_indices(clamp_indices(s)) == clamp_indices(s),
{
}

/// Procedure P0's parameter check on machine integers.
fn clamp(ij: i32, ik: i32, il: i32) -> (r: (i32, i32, i32))
    ensures
        (r.0 as int, r.1 as int, r.2 as int) == clamp_indices((ij as int, ik as int, il as int)),
{
    if ij < 0 || ik < 0 || il < 0 {
        (0, 0, 0)
    } else if ij > N9 - 1 || ik > N9 - 1 || il > N9 - 1 {
        (N9 - 1, N9 - 1, N9 - 1)
    } else {
        (ij, ik, il)
    }
}

} // verus!
