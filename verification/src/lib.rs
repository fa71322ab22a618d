//! Contact-map flattening for a protein-language model runner.
//!
//! The model hands back a rank-3 tensor of raw pairwise residue scores,
//! shape (L, L, C). This library turns it into a flat table of
//! `(index_1, index_2, value)` rows: a numerically stable softmax over the
//! channel axis, a max-reduction to one confidence scalar per residue pair,
//! and row-major coordinates pairing each scalar with its 1-based residue
//! indices. Scalar cells are carried as the bit patterns of `f32` values, so
//! contracts can speak of them exactly; callers rebuild the float with
//! `f32::from_bits`.

pub mod coords;
pub mod device;
pub mod pipeline;
pub mod table;
pub mod tensor_ops;
