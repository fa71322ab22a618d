//! Row-major coordinates for a flattened contact map.
//!
//! A square contact map with side length `l` is linearized row by row. Row
//! `k` of the flat table then carries the residue pair
//! `(index_1, index_2) == (k % l + 1, k / l + 1)`: `index_1` cycles through
//! `1..=l` fastest, `index_2` repeats each value `l` times. Both indices are
//! 1-based. The cell written at row `k` is the matrix entry at row
//! `index_2 - 1` and column `index_1 - 1`.

use vstd::prelude::*;
use vstd::arithmetic::div_mod::{
    lemma_fundamental_div_mod, lemma_fundamental_div_mod_converse, lemma_multiply_divide_lt,
};

verus! {

/// The 1-based residue index in the `index_1` column at flat position `k`,
/// for a contact map with side length `l`: it cycles `1..=l`.
pub open spec fn coord_index_1(l: int, k: int) -> int {
    k % l + 1
}

/// The 1-based residue index in the `index_2` column at flat position `k`:
/// each value of `1..=l` stays for `l` consecutive positions.
pub open spec fn coord_index_2(l: int, k: int) -> int {
    k / l + 1
}

/// The flat position at which the pair `(i, j)` stands: `j` selects the
/// block of `l` consecutive positions, `i` the offset inside it.
pub open spec fn coord_position(l: int, i: int, j: int) -> int {
    (j - 1) * l + (i - 1)
}

/// Both coordinates lie in `1..=l` at every flat position.
pub proof fn lemma_coords_in_range(l: int, k: int)
    requires
        0 < l,
        0 <= k < l * l,
    ensures
        1 <= coord_index_1(l, k) <= l,
        1 <= coord_index_2(l, k) <= l,
{
    lemma_multiply_divide_lt(k, l, l);
}

/// No pair appears twice: two flat positions with the same coordinates are
/// the same position.
pub proof fn lemma_coords_injective(l: int, k1: int, k2: int)
    requires
        0 < l,
        0 <= k1 < l * l,
        0 <= k2 < l * l,
        coord_index_1(l, k1) == coord_index_1(l, k2),
        coord_index_2(l, k1) == coord_index_2(l, k2),
    ensures
        k1 == k2,
{
    lemma_fundamental_div_mod(k1, l);
    lemma_fundamental_div_mod(k2, l);
}

/// Full cartesian coverage: every pair `(i, j)` with `1 <= i, j <= l`
/// appears, namely at flat position `(j - 1) * l + (i - 1)`.
pub proof fn lemma_coords_cover(l: int, i: int, j: int) -> (k: int)
    requires
        0 < l,
        1 <= i <= l,
        1 <= j <= l,
    ensures
        0 <= k < l * l,
        k == (j - 1) * l + (i - 1),
        coord_index_1(l, k) == i,
        coord_index_2(l, k) == j,
{
    let k = (j - 1) * l + (i - 1);
    assert(0 <= k && k < l * l) by (nonlinear_arith)
        requires
            0 < l,
            1 <= i <= l,
            1 <= j <= l,
            k == (j - 1) * l + (i - 1),
    ;
    lemma_fundamental_div_mod_converse(k, l, j - 1, i - 1);
    k
}

/// The whole coordinate law, for every side length `l >= 0`: the flat order
/// holds exactly `l * l` positions; at each, both coordinates lie in
/// `1..=l`; no pair of coordinates appears at two positions; and every pair
/// `(i, j)` of values in `1..=l` appears, at `coord_position(l, i, j)`.
/// (The coordinate columns carry these values as `i32`, which is faithful
/// for `l` up to `i32::MAX`.)
pub proof fn lemma_coordinate_generator_law(l: int)
    requires
        l >= 0,
    ensures
        forall|k: int|
            0 <= k < l * l ==> (1 <= #[trigger] coord_index_1(l, k) <= l && 1 <= coord_index_2(
                l,
                k,
            ) <= l),
        forall|k1: int, k2: int|
            #![trigger coord_index_1(l, k1), coord_index_1(l, k2)]
            (0 <= k1 < l * l && 0 <= k2 < l * l && coord_index_1(l, k1) == coord_index_1(l, k2)
                && coord_index_2(l, k1) == coord_index_2(l, k2)) ==> k1 == k2,
        forall|i: int, j: int|
            (1 <= i <= l && 1 <= j <= l) ==> (0 <= #[trigger] coord_position(l, i, j) < l * l
                && coord_index_1(l, coord_position(l, i, j)) == i && coord_index_2(
                l,
                coord_position(l, i, j),
            ) == j),
{
    assert forall|k: int| 0 <= k < l * l implies (1 <= #[trigger] coord_index_1(l, k) <= l && 1
        <= coord_index_2(l, k) <= l) by {
        lemma_side_positive(l, k);
        lemma_coords_in_range(l, k);
    }
    assert forall|k1: int, k2: int|
        #![trigger coord_index_1(l, k1), coord_index_1(l, k2)]
        (0 <= k1 < l * l && 0 <= k2 < l * l && coord_index_1(l, k1) == coord_index_1(l, k2)
            && coord_index_2(l, k1) == coord_index_2(l, k2)) implies k1 == k2 by {
        lemma_side_positive(l, k1);
        lemma_coords_injective(l, k1, k2);
    }
    assert forall|i: int, j: int| (1 <= i <= l && 1 <= j <= l) implies (0 <= #[trigger] coord_position(
        l,
        i,
        j,
    ) < l * l && coord_index_1(l, coord_position(l, i, j)) == i && coord_index_2(
        l,
        coord_position(l, i, j),
    ) == j) by {
        let k = lemma_coords_cover(l, i, j);
        assert(k == coord_position(l, i, j));
    }
}

/// A flat position exists only when the side length is positive.
proof fn lemma_side_positive(l: int, k: int)
    requires
        l >= 0,
        0 <= k < l * l,
    ensures
        0 < l,
{
    if l == 0 {
        assert(l * l == 0) by (nonlinear_arith)
            requires
                l == 0,
        ;
    }
}

/// Produce the two parallel coordinate columns for a contact map with side
/// length `l`, of length `l * l` each, in row-major order.
pub fn coordinate_pairs(l: usize) -> (r: (Vec<i32>, Vec<i32>))
    requires
        l <= 0x7fff_ffff,
        l * l <= usize::MAX,
    ensures
        r.0@.len() == l * l,
        r.1@.len() == l * l,
        forall|k: int| 0 <= k < l * l ==> r.0@[k] == coord_index_1(l as int, k) as i32,
        forall|k: int| 0 <= k < l * l ==> r.1@[k] == coord_index_2(l as int, k) as i32,
{
    let n: usize = l * l;
    let mut index_1: Vec<i32> = Vec::new();
    let mut index_2: Vec<i32> = Vec::new();
    let mut k: usize = 0;
    while k < n
        invariant
            n == l * l,
            l <= 0x7fff_ffff,
            k <= n,
            index_1@.len() == k,
            index_2@.len() == k,
            forall|m: int| 0 <= m < k ==> index_1@[m] == coord_index_1(l as int, m) as i32,
            forall|m: int| 0 <= m < k ==> index_2@[m] == coord_index_2(l as int, m) as i32,
        decreases n - k,
    {
        proof {
            assert(l != 0) by (nonlinear_arith)
                requires
                    k < n,
                    n == l * l,
            ;
            lemma_coords_in_range(l as int, k as int);
        }
        index_1.push((k % l + 1) as i32);
        index_2.push((k / l + 1) as i32);
        k = k + 1;
    }
    (index_1, index_2)
}

} // verus!
