//! The contact table: the tabular form of a flattened contact map.
//!
//! A table holds three columns of equal length, named `index_1`, `index_2`
//! and `value`. The value column carries each confidence scalar as the bit
//! pattern of an `f32`; callers rebuild the float with `f32::from_bits`.

use vstd::prelude::*;

verus! {

/// One row of a contact table: a 1-based residue pair and the confidence
/// scalar for it, carried as the bit pattern of an `f32`.
#[derive(Clone, Copy, Debug, PartialEq, Eq, Structural)]
pub struct ContactRecord {
    pub index_1: i32,
    pub index_2: i32,
    pub value_bits: u32,
}

/// Why a contact table could not be produced.
#[derive(Debug)]
pub enum ContactError {
    /// The score tensor is unusable: not rank 3, its two residue axes are
    /// unequal, a residue axis is too long for a 32-bit index column, or its
    /// elements are not `f32` scores.
    Shape,
    /// The coordinate columns and the value column disagree in length: an
    /// upstream defect, never truncated or padded over.
    LengthMismatch { indices: usize, values: usize },
    /// A tensor operation failed; the underlying error is kept.
    Tensor(candle_core::Error),
}

impl ContactError {
    /// Whether this is the shape-mismatch error.
    pub fn is_shape(&self) -> (r: bool)
        ensures
            r == (self is Shape),
    {
        match self {
            ContactError::Shape => true,
            _ => false,
        }
    }

    /// Whether this is the internal length-mismatch error.
    pub fn is_length_mismatch(&self) -> (r: bool)
        ensures
            r == (self is LengthMismatch),
    {
        match self {
            ContactError::LengthMismatch { .. } => true,
            _ => false,
        }
    }

    /// Whether a tensor operation failed.
    pub fn is_tensor_failure(&self) -> (r: bool)
        ensures
            r == (self is Tensor),
    {
        match self {
            ContactError::Tensor(_) => true,
            _ => false,
        }
    }
}

/// An ordered table of contact records, stored as three columns of equal
/// length. Its view is the sequence of its rows.
#[derive(Debug)]
pub struct ContactTable {
    index_1: Vec<i32>,
    index_2: Vec<i32>,
    values: Vec<u32>,
}

impl ContactTable {
    #[verifier::type_invariant]
    spec fn columns_aligned(self) -> bool {
        self.index_1@.len() == self.values@.len() && self.index_2@.len() == self.values@.len()
    }
}

impl View for ContactTable {
    type V = Seq<ContactRecord>;

    closed spec fn view(&self) -> Seq<ContactRecord> {
        Seq::new(
            self.values@.len(),
            |k: int|
                ContactRecord {
                    index_1: self.index_1@[k],
                    index_2: self.index_2@[k],
                    value_bits: self.values@[k],
                },
        )
    }
}

impl ContactTable {
    /// The table for absent contact data: no rows, the same three columns.
    pub fn empty() -> (t: ContactTable)
        ensures
            t@.len() == 0,
    {
        ContactTable { index_1: Vec::new(), index_2: Vec::new(), values: Vec::new() }
    }

    /// Join coordinate columns and a value column into a table. Fails, and
    /// reports the two lengths, unless all three columns have the same
    /// length.
    pub fn assemble(index_1: Vec<i32>, index_2: Vec<i32>, values: Vec<u32>) -> (r: Result<
        ContactTable,
        ContactError,
    >)
        ensures
            r is Ok <==> (index_1@.len() == values@.len() && index_2@.len() == values@.len()),
            r matches Ok(t) ==> {
                &&& t@.len() == values@.len()
                &&& (forall|k: int|
                    0 <= k < values@.len() ==> t@[k] == (ContactRecord {
                        index_1: index_1@[k],
                        index_2: index_2@[k],
                        value_bits: values@[k],
                    }))
            },
            r matches Err(e) ==> e is LengthMismatch,
    {
        if index_1.len() == values.len() && index_2.len() == values.len() {
            Ok(ContactTable { index_1, index_2, values })
        } else {
            let indices: usize = if index_1.len() == values.len() {
                index_2.len()
            } else {
                index_1.len()
            };
            Err(ContactError::LengthMismatch { indices, values: values.len() })
        }
    }

    /// How many rows the table has.
    pub fn n_rows(&self) -> (n: usize)
        ensures
            n == self@.len(),
    {
        self.values.len()
    }

    /// The row at position `k`.
    pub fn record(&self, k: usize) -> (r: ContactRecord)
        requires
            k < self@.len(),
        ensures
            r == self@[k as int],
    {
        proof {
            use_type_invariant(self);
        }
        ContactRecord {
            index_1: self.index_1[k],
            index_2: self.index_2[k],
            value_bits: self.values[k],
        }
    }

    /// The `index_1` column.
    pub fn index_1_column(&self) -> (r: &Vec<i32>)
        ensures
            r@.len() == self@.len(),
            forall|k: int| 0 <= k < self@.len() ==> r@[k] == self@[k].index_1,
    {
        proof {
            use_type_invariant(self);
        }
        &self.index_1
    }

    /// The `index_2` column.
    pub fn index_2_column(&self) -> (r: &Vec<i32>)
        ensures
            r@.len() == self@.len(),
            forall|k: int| 0 <= k < self@.len() ==> r@[k] == self@[k].index_2,
    {
        proof {
            use_type_invariant(self);
        }
        &self.index_2
    }

    /// The `value` column, each cell as the bit pattern of an `f32`.
    pub fn value_bits_column(&self) -> (r: &Vec<u32>)
        ensures
            r@.len() == self@.len(),
            forall|k: int| 0 <= k < self@.len() ==> r@[k] == self@[k].value_bits,
    {
        &self.values
    }
}

/// The names of the three columns, in column order.
pub fn column_names() -> (r: Vec<&'static str>)
    ensures
        r@.len() == 3,
        r@[0]@ == "index_1"@,
        r@[1]@ == "index_2"@,
        r@[2]@ == "value"@,
{
    let mut names: Vec<&'static str> = Vec::new();
    names.push("index_1");
    names.push("index_2");
    names.push("value");
    names
}

} // verus!
