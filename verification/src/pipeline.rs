//! The contact-map flattening pipeline.
//!
//! A rank-3 score tensor of shape (L, L, C) is normalized with a softmax
//! over the channel axis, reduced to one confidence scalar per residue pair
//! by taking the maximum normalized channel, and flattened row-major into a
//! table of `(index_1, index_2, value)` rows. Absent contact data yields the
//! empty table; an unusable tensor yields a shape error and no partial
//! table.

use vstd::prelude::*;
use candle_core::Tensor;
use crate::coords::{
    coord_index_1, coord_index_2, coordinate_pairs, lemma_coords_cover, lemma_coords_injective,
};
use crate::table::{ContactError, ContactRecord, ContactTable};
use crate::tensor_ops::{
    all_finite_f32_bits, dims_element_count, has_f32_elements, max_last, max_last_of,
    softmax_last, softmax_last_res, tensor_bits, tensor_data, tensor_dims, tensor_dims3,
    tensor_is_f32,
};

verus! {

/// The table, as a sequence of rows, that flattening a square contact map
/// with side length `l` and row-major cells `vals` must produce.
pub open spec fn contact_view(l: int, vals: Seq<u32>) -> Seq<ContactRecord> {
    Seq::new(
        (l * l) as nat,
        |k: int|
            ContactRecord {
                index_1: coord_index_1(l, k) as i32,
                index_2: coord_index_2(l, k) as i32,
                value_bits: vals[k],
            },
    )
}

/// The confidence scalars the pipeline computes from a score tensor:
/// softmax over the channel axis, then the maximum normalized channel per
/// residue pair. A function of the tensor value, so two runs on the same
/// tensor compute the same scalars, bit for bit.
pub open spec fn pipeline_values(t: Tensor) -> Seq<u32> {
    max_last_of(softmax_last_res(t), tensor_dims(t))
}

/// Whether the pipeline accepts a score tensor: rank 3, square in the two
/// residue axes, a side length an `i32` index column can hold, at least one
/// channel to normalize over, and `f32` scores.
pub open spec fn accepted_contact_tensor(t: Tensor) -> bool {
    &&& tensor_dims(t).len() == 3
    &&& tensor_dims(t)[0] == tensor_dims(t)[1]
    &&& tensor_dims(t)[0] <= 0x7fff_ffff
    &&& tensor_dims(t)[2] >= 1
    &&& tensor_is_f32(t)
}

/// Pair a flat row-major value column with its coordinate columns. Fails
/// with a length mismatch unless exactly `l * l` values are given.
pub fn flatten_table(l: usize, values: Vec<u32>) -> (r: Result<ContactTable, ContactError>)
    requires
        l <= 0x7fff_ffff,
    ensures
        r is Ok <==> values@.len() == l * l,
        r matches Ok(t) ==> t@ == contact_view(l as int, values@),
        r matches Err(e) ==> e is LengthMismatch,
{
    let expected = l.checked_mul(l);
    let matches_expected = match expected {
        Some(n) => values.len() == n,
        None => false,
    };
    if !matches_expected {
        return Err(
            ContactError::LengthMismatch { indices: l.wrapping_mul(l), values: values.len() },
        );
    }
    let (index_1, index_2) = coordinate_pairs(l);
    let r = ContactTable::assemble(index_1, index_2, values);
    proof {
        match &r {
            Ok(t) => {
                assert(t@ =~= contact_view(l as int, values@));
            },
            Err(_) => {
                assert(false);
            },
        }
    }
    r
}

/// Flatten a contact-score tensor into a contact table.
///
/// Absent contact data is not an error: it yields the table with no rows,
/// and so does an accepted tensor with side length 0 (the empty contact
/// map). A present tensor is accepted exactly when it is rank 3, square in
/// its two residue axes, with a side length a 32-bit index can hold, at
/// least one channel, and `f32` scores; the table comes back exactly then,
/// otherwise the shape error does, and no partial table is ever produced.
/// The rows are exactly the row-major flattening of softmax-then-max over
/// the channel axis, paired with 1-based coordinates. With a single channel
/// of finite scores, every value cell is exactly 1.0.
pub fn generate_contacts(contact_map: Option<&Tensor>) -> (r: Result<ContactTable, ContactError>)
    ensures
        contact_map is None ==> (r matches Ok(t) && t@.len() == 0),
        contact_map matches Some(t) ==> {
            &&& (r is Ok <==> accepted_contact_tensor(*t))
            &&& (r matches Err(e) ==> e is Shape)
            &&& (r matches Ok(tbl) ==> {
                &&& tbl@ == contact_view(tensor_dims(*t)[0] as int, pipeline_values(*t))
                &&& ((tensor_dims(*t)[2] == 1 && all_finite_f32_bits(tensor_data(*t)))
                    ==> (forall|k: int|
                    0 <= k < tbl@.len() ==> (#[trigger] tbl@[k]).value_bits == 0x3f80_0000u32))
            })
        },
{
    let t = match contact_map {
        None => {
            return Ok(ContactTable::empty());
        },
        Some(t) => t,
    };
    let (d0, d1, channels) = match tensor_dims3(t) {
        Ok(dims) => dims,
        Err(_) => {
            return Err(ContactError::Shape);
        },
    };
    if d0 != d1 || d0 > 0x7fff_ffff || channels == 0 || !has_f32_elements(t) {
        return Err(ContactError::Shape);
    }
    if d0 == 0 {
        let empty_table = ContactTable::empty();
        proof {
            assert((d0 as int) * (d0 as int) == 0) by (nonlinear_arith)
                requires
                    d0 == 0,
            ;
            assert(empty_table@ =~= contact_view(d0 as int, pipeline_values(*t)));
        }
        return Ok(empty_table);
    }
    proof {
        lemma_element_count_triple(d0, d1, channels);
        assert(d0 * d1 * channels > 0) by (nonlinear_arith)
            requires
                d0 >= 1,
                d1 >= 1,
                channels >= 1,
        ;
    }
    let normalized = match softmax_last(t) {
        Ok(s) => s,
        Err(e) => {
            return Err(ContactError::Tensor(e));
        },
    };
    let reduced = match max_last(&normalized) {
        Ok(m) => m,
        Err(e) => {
            return Err(ContactError::Tensor(e));
        },
    };
    let values = match tensor_bits(&reduced) {
        Ok(v) => v,
        Err(e) => {
            return Err(ContactError::Tensor(e));
        },
    };
    proof {
        assert(tensor_dims(reduced) =~= seq![d0, d1]);
        lemma_element_count_pair(d0, d1);
    }
    let result = flatten_table(d0, values);
    proof {
        if channels == 1 && all_finite_f32_bits(tensor_data(*t)) {
            match &result {
                Ok(tbl) => {
                    assert(tensor_dims(*t).last() == 1);
                    assert forall|k: int|
                        0 <= k < tbl@.len() implies (#[trigger] tbl@[k]).value_bits
                        == 0x3f80_0000u32 by {
                        assert(tbl@[k].value_bits == values@[k]);
                        assert(values@.len() == tensor_data(*t).len());
                    }
                },
                Err(_) => {},
            }
        }
    }
    result
}

/// The element count of a two-axis shape is the product of the axes.
proof fn lemma_element_count_pair(a: usize, b: usize)
    ensures
        dims_element_count(seq![a, b]) == a * b,
{
    let s = seq![a, b];
    assert(s.drop_first() =~= seq![b]);
    assert(seq![b].drop_first() =~= Seq::<usize>::empty());
    assert(dims_element_count(Seq::<usize>::empty()) == 1);
    assert(dims_element_count(seq![b]) == b * 1);
    assert(dims_element_count(s) == a * (b * 1));
}

/// The element count of a three-axis shape is the product of the axes.
proof fn lemma_element_count_triple(a: usize, b: usize, c: usize)
    ensures
        dims_element_count(seq![a, b, c]) == a * b * c,
{
    let s = seq![a, b, c];
    assert(s.drop_first() =~= seq![b, c]);
    lemma_element_count_pair(b, c);
    assert(dims_element_count(s) == a * (b * c));
    assert(a * (b * c) == a * b * c) by (nonlinear_arith);
}

/// Idempotence: the pipeline is a pure function of the score tensor, so any
/// two tables it yields for the same tensor are equal, row for row and bit
/// for bit.
pub proof fn lemma_pipeline_deterministic(
    t: Tensor,
    table_1: Seq<ContactRecord>,
    table_2: Seq<ContactRecord>,
)
    requires
        table_1 == contact_view(tensor_dims(t)[0] as int, pipeline_values(t)),
        table_2 == contact_view(tensor_dims(t)[0] as int, pipeline_values(t)),
    ensures
        table_1 == table_2,
{
}

/// Every row of a flattened contact map carries coordinates in `1..=l`, and
/// its value cell is the row-major matrix cell those coordinates point at:
/// row `index_2 - 1`, column `index_1 - 1`.
pub proof fn lemma_contact_view_cells(l: int, vals: Seq<u32>, k: int)
    requires
        0 < l <= 0x7fff_ffff,
        0 <= k < l * l,
    ensures
        1 <= contact_view(l, vals)[k].index_1 <= l,
        1 <= contact_view(l, vals)[k].index_2 <= l,
        contact_view(l, vals)[k].value_bits == vals[(contact_view(l, vals)[k].index_2 - 1) * l
            + (contact_view(l, vals)[k].index_1 - 1)],
{
    crate::coords::lemma_coords_in_range(l, k);
    vstd::arithmetic::div_mod::lemma_fundamental_div_mod(k, l);
    assert((k / l) * l + (k % l) == k) by (nonlinear_arith)
        requires
            l != 0,
            k == l * (k / l) + (k % l),
    ;
}

/// No residue pair appears twice in a flattened contact map: rows with equal
/// coordinates are the same row.
pub proof fn lemma_contact_view_pairs_unique(l: int, vals: Seq<u32>, k1: int, k2: int)
    requires
        0 < l <= 0x7fff_ffff,
        0 <= k1 < l * l,
        0 <= k2 < l * l,
        contact_view(l, vals)[k1].index_1 == contact_view(l, vals)[k2].index_1,
        contact_view(l, vals)[k1].index_2 == contact_view(l, vals)[k2].index_2,
    ensures
        k1 == k2,
{
    crate::coords::lemma_coords_in_range(l, k1);
    crate::coords::lemma_coords_in_range(l, k2);
    lemma_coords_injective(l, k1, k2);
}

/// Full cartesian coverage: a flattened contact map with side length `l` has
/// a row for every pair `(i, j)` with `1 <= i, j <= l`.
pub proof fn lemma_contact_view_pairs_cover(l: int, vals: Seq<u32>, i: int, j: int) -> (k: int)
    requires
        0 < l <= 0x7fff_ffff,
        1 <= i <= l,
        1 <= j <= l,
    ensures
        0 <= k < l * l,
        contact_view(l, vals)[k].index_1 == i as i32,
        contact_view(l, vals)[k].index_2 == j as i32,
{
    lemma_coords_cover(l, i, j)
}

} // verus!
