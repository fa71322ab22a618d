//! The trusted boundary around candle's tensors.
//!
//! Verus sees a `candle_core::Tensor` as an opaque value. Three names give
//! contracts something to speak about: the tensor's elements (each as the bit
//! pattern of the element converted to `f32`), its shape, and whether its
//! elements are stored as `f32`. Two further names stand for what candle's
//! softmax and max-reduction return along the last axis in this CPU-only
//! build. The softmax result is named per tensor value, not per element
//! sequence: candle sums the channels on a different path for a
//! non-contiguous view than for a contiguous tensor, and `f32` addition does
//! not associate, so two tensors with equal elements and shape but different
//! layouts may differ in low bits. The max-reduction only compares, scanning
//! the reduced axis in ascending order on every path, so its result is a
//! function of the elements and the shape alone.

use vstd::prelude::*;
use candle_core::Tensor;

verus! {

#[verifier::external_type_specification]
#[verifier::external_body]
pub struct ExTensor(Tensor);

#[verifier::external_type_specification]
#[verifier::external_body]
pub struct ExCandleError(candle_core::Error);

/// The elements of a tensor in row-major order, each as the bit pattern of
/// the element converted to `f32`.
pub uninterp spec fn tensor_data(t: Tensor) -> Seq<u32>;

/// The shape of a tensor: one entry per axis.
pub uninterp spec fn tensor_dims(t: Tensor) -> Seq<usize>;

/// Whether the tensor's elements are stored as `f32`.
pub uninterp spec fn tensor_is_f32(t: Tensor) -> bool;

/// What candle's softmax along the last axis returns on a given `f32`
/// tensor. A function of the tensor value: its elements and shape, but also
/// its memory layout, which steers how the channel sums are accumulated.
pub uninterp spec fn softmax_last_res(t: Tensor) -> Seq<u32>;

/// What candle's max-reduction along the last axis returns on an `f32`
/// tensor with the given elements and shape.
pub uninterp spec fn max_last_of(data: Seq<u32>, dims: Seq<usize>) -> Seq<u32>;

/// Whether a bit pattern encodes a finite `f32`: its exponent field is not
/// all ones (all ones encodes an infinity or a NaN).
pub open spec fn finite_f32_bits(b: u32) -> bool {
    (b >> 23) & 0xff != 0xff
}

/// Whether every element of a bit-pattern sequence encodes a finite `f32`.
pub open spec fn all_finite_f32_bits(data: Seq<u32>) -> bool {
    forall|k: int| 0 <= k < data.len() ==> finite_f32_bits(#[trigger] data[k])
}

/// The number of elements a shape holds: the product of its axes.
pub open spec fn dims_element_count(dims: Seq<usize>) -> int
    decreases dims.len(),
{
    if dims.len() == 0 {
        1
    } else {
        dims[0] * dims_element_count(dims.drop_first())
    }
}

/// Relies on candle_core::Tensor::dims3: it returns the three axes exactly
/// when the tensor has rank 3, and fails otherwise.
#[verifier::external_body]
pub(crate) fn tensor_dims3(t: &Tensor) -> (r: Result<(usize, usize, usize), candle_core::Error>)
    ensures
        r is Ok <==> tensor_dims(*t).len() == 3,
        r matches Ok(d) ==> tensor_dims(*t) == seq![d.0, d.1, d.2],
{
    t.dims3()
}

/// Relies on candle_nn::ops::softmax along the last axis, on an `f32`
/// tensor. Tensors of integer elements are left out: their `exp` is not
/// implemented and aborts. It succeeds exactly on a non-empty tensor of rank
/// at least 1; it keeps the shape and the element type, the result holds as
/// many elements as its shape, and its elements are a function of the
/// tensor value alone. On a single-channel tensor of finite elements every
/// cell normalizes to exactly 1.0: the shifted score is `x - x == 0`,
/// `exp(0) == 1`, and the one-element channel sum divides it by itself.
#[verifier::external_body]
pub(crate) fn softmax_last(t: &Tensor) -> (r: Result<Tensor, candle_core::Error>)
    requires
        tensor_is_f32(*t),
    ensures
        r is Ok <==> (tensor_dims(*t).len() >= 1 && dims_element_count(tensor_dims(*t)) > 0),
        r matches Ok(s) ==> {
            &&& tensor_dims(s) == tensor_dims(*t)
            &&& tensor_is_f32(s)
            &&& tensor_data(s).len() == dims_element_count(tensor_dims(s))
            &&& tensor_data(s) == softmax_last_res(*t)
            &&& ((tensor_dims(*t).last() == 1 && all_finite_f32_bits(tensor_data(*t)))
                ==> tensor_data(s) == Seq::new(
                tensor_data(*t).len(),
                |k: int| 0x3f80_0000u32,
            ))
        },
{
    candle_nn::ops::softmax(t, candle_core::D::Minus1)
}

/// Relies on candle_core::Tensor::max along the last axis: it succeeds
/// exactly on a non-empty tensor of rank at least 1 (whatever the element
/// type: the reduction only compares), drops that axis, keeps the element
/// type, the result holds as many elements as its shape, and on an `f32`
/// tensor the elements are a function of the input's elements and shape
/// alone — every path scans the reduced axis in ascending order. Reducing
/// an axis of length 1 hands each cell through unchanged.
#[verifier::external_body]
pub(crate) fn max_last(t: &Tensor) -> (r: Result<Tensor, candle_core::Error>)
    ensures
        r is Ok <==> (tensor_dims(*t).len() >= 1 && dims_element_count(tensor_dims(*t)) > 0),
        r matches Ok(m) ==> {
            &&& tensor_dims(m) == tensor_dims(*t).drop_last()
            &&& tensor_is_f32(m) == tensor_is_f32(*t)
            &&& tensor_data(m).len() == dims_element_count(tensor_dims(m))
            &&& (tensor_is_f32(*t) ==> tensor_data(m) == max_last_of(
                tensor_data(*t),
                tensor_dims(*t),
            ))
            &&& (tensor_dims(*t).last() == 1 ==> tensor_data(m) == tensor_data(*t))
        },
{
    t.max(candle_core::D::Minus1)
}

/// Relies on candle_core::Tensor::dtype, which says how the elements are
/// stored.
#[verifier::external_body]
pub(crate) fn has_f32_elements(t: &Tensor) -> (r: bool)
    ensures
        r == tensor_is_f32(*t),
{
    t.dtype() == candle_core::DType::F32
}

/// Relies on candle_core::Tensor::write_bytes, which flattens the tensor and
/// writes every element in row-major order as little-endian bytes: four per
/// element on an `f32` tensor, so reading the bytes back four at a time
/// recovers the bit pattern of each element. On an `f32` tensor it cannot
/// fail: the flattening reshape copies when it must, and writing to a byte
/// vector always succeeds.
#[verifier::external_body]
pub(crate) fn tensor_bits(t: &Tensor) -> (r: Result<Vec<u32>, candle_core::Error>)
    requires
        tensor_is_f32(*t),
    ensures
        r is Ok,
        r matches Ok(v) ==> {
            &&& v@ == tensor_data(*t)
            &&& v@.len() == dims_element_count(tensor_dims(*t))
        },
{
    let mut bytes: Vec<u8> = Vec::new();
    t.write_bytes(&mut bytes)?;
    Ok(bytes.chunks_exact(4).map(|c| u32::from_le_bytes([c[0], c[1], c[2], c[3]])).collect())
}

} // verus!
