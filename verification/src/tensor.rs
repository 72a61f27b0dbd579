//! The tensor backend, as far as the encoder relies on it.
//!
//! Tensors are opaque here. Contracts speak of a tensor's shape, under the
//! name [`tensor_dims`], of whether its elements are floating-point numbers,
//! under the name [`tensor_is_float`], and of the elements of a tensor of
//! token ids, under the name [`tensor_ids`]. The elements of a tensor of floating-point
//! numbers have no name: what a sum of them comes to in the last bit depends
//! on the machine that adds them up.
//!
//! Every function in this module is a direct call into `candle_core` whose
//! contract is taken on trust.

use vstd::prelude::*;
use candle_core::Device;
use candle_core::Error;
use candle_core::Tensor;

verus! {

/// `candle_core::Tensor`: a reference-counted n-dimensional array.
#[verifier::external_type_specification]
#[verifier::external_body]
pub struct ExTensor(Tensor);

/// `candle_core::Device`: where a tensor's storage lives.
#[verifier::external_type_specification]
#[verifier::external_body]
pub struct ExDevice(Device);

/// `candle_core::Error`: what a failed tensor operation reports.
#[verifier::external_type_specification]
#[verifier::external_body]
pub struct ExError(Error);

/// The sizes of a tensor's dimensions, outermost first: what `Tensor::dims`
/// returns. A tensor's shape is fixed when it is made.
pub uninterp spec fn tensor_dims(t: Tensor) -> Seq<usize>;

/// The elements of a tensor of 32-bit unsigned integers, in row-major order:
/// what `Tensor::flatten_all` followed by `Tensor::to_vec1::<u32>` returns.
/// For a tensor of any other element type it is the empty sequence.
pub uninterp spec fn tensor_ids(t: Tensor) -> Seq<u32>;

/// Whether a tensor's elements are floating-point numbers: what
/// `DType::is_float` says of `Tensor::dtype`. A tensor's element type is
/// fixed when it is made.
pub uninterp spec fn tensor_is_float(t: Tensor) -> bool;

/// All ids zero, `len` of them.
pub open spec fn zeros(len: nat) -> Seq<u32> {
    Seq::new(len, |i: int| 0u32)
}

/// `Tensor::dtype` and `DType::is_float`: whether the elements are
/// floating-point numbers.
#[verifier::external_body]
pub(crate) fn is_float(t: &Tensor) -> (float: bool)
    ensures
        float == tensor_is_float(*t),
{
    t.dtype().is_float()
}

/// `Tensor::new` on a slice of ids. The tensor has one dimension, as long as
/// the slice, and holds a copy of the ids.
#[verifier::external_body]
pub(crate) fn ids_tensor(ids: &Vec<u32>, device: &Device) -> (r: Result<Tensor, Error>)
    ensures
        r matches Ok(t) ==> tensor_dims(t) == seq![ids.len()] && tensor_ids(t) == ids@,
{
    Tensor::new(ids.as_slice(), device)
}

/// `Tensor::stack` along a new outermost dimension. It fails on an empty list
/// and on rows of different shapes; the result has the rows' common shape
/// behind a first dimension that counts them, and holds the rows' elements
/// one row after the other.
#[verifier::external_body]
pub(crate) fn stack_rows(rows: &Vec<Tensor>) -> (r: Result<Tensor, Error>)
    ensures
        r matches Ok(t) ==> {
            &&& rows.len() > 0
            &&& forall|i: int|
                0 <= i < rows.len() ==> tensor_dims(#[trigger] rows[i]) == tensor_dims(rows[0])
            &&& tensor_dims(t) == seq![rows.len()] + tensor_dims(rows[0])
            &&& tensor_ids(t) == rows@.map_values(|row: Tensor| tensor_ids(row)).flatten()
        },
{
    Tensor::stack(rows.as_slice(), 0)
}

/// `Tensor::dims2`: the two sizes of a tensor of rank two, and an error for
/// any other rank.
#[verifier::external_body]
pub(crate) fn dims2(t: &Tensor) -> (r: Result<(usize, usize), Error>)
    ensures
        match r {
            Ok((d0, d1)) => tensor_dims(*t) == seq![d0, d1],
            Err(_) => tensor_dims(*t).len() != 2,
        },
{
    t.dims2()
}

/// `Tensor::dims3`: the three sizes of a tensor of rank three, and an error
/// for any other rank.
#[verifier::external_body]
pub(crate) fn dims3(t: &Tensor) -> (r: Result<(usize, usize, usize), Error>)
    ensures
        match r {
            Ok((d0, d1, d2)) => tensor_dims(*t) == seq![d0, d1, d2],
            Err(_) => tensor_dims(*t).len() != 3,
        },
{
    t.dims3()
}

/// `Tensor::mean` over one dimension: the sum over that dimension times the
/// reciprocal of its size. The dimension is removed from the shape; the
/// element type stays. A sum of integers panics where it overflows, so this
/// is for floating-point tensors only.
#[verifier::external_body]
pub(crate) fn mean_over(t: &Tensor, axis: usize) -> (r: Result<Tensor, Error>)
    requires
        tensor_is_float(*t),
    ensures
        r matches Ok(m) ==> {
            &&& axis < tensor_dims(*t).len()
            &&& tensor_dims(m) == tensor_dims(*t).remove(axis as int)
            &&& tensor_is_float(m)
        },
{
    t.mean(axis)
}

/// `Tensor::sqr`: the element-wise square, in the same shape and element
/// type. For integers the operation is not written and panics, so this is
/// for floating-point tensors only.
#[verifier::external_body]
pub(crate) fn sqr(t: &Tensor) -> (r: Result<Tensor, Error>)
    requires
        tensor_is_float(*t),
    ensures
        r matches Ok(s) ==> tensor_dims(s) == tensor_dims(*t) && tensor_is_float(s),
{
    t.sqr()
}

/// `Tensor::sqrt`: the element-wise square root, in the same shape and
/// element type. For integers the operation is not written and panics, so
/// this is for floating-point tensors only.
#[verifier::external_body]
pub(crate) fn sqrt(t: &Tensor) -> (r: Result<Tensor, Error>)
    requires
        tensor_is_float(*t),
    ensures
        r matches Ok(s) ==> tensor_dims(s) == tensor_dims(*t) && tensor_is_float(s),
{
    t.sqrt()
}

/// `Tensor::sum_keepdim` over one dimension: the dimension stays, with size
/// 1, and so does the element type. A sum of integers panics where it
/// overflows, so this is for floating-point tensors only.
#[verifier::external_body]
pub(crate) fn sum_keepdim_over(t: &Tensor, axis: usize) -> (r: Result<Tensor, Error>)
    requires
        tensor_is_float(*t),
    ensures
        r matches Ok(s) ==> {
            &&& axis < tensor_dims(*t).len()
            &&& tensor_dims(s) == tensor_dims(*t).update(axis as int, 1)
            &&& tensor_is_float(s)
        },
{
    t.sum_keepdim(axis)
}

/// `Tensor::broadcast_div`: element-wise division after broadcasting. Dividing
/// a matrix by a column of as many rows gives a matrix of the same shape.
/// The element type stays. A division of integers panics on a divisor of
/// zero, so this is for floating-point tensors only.
#[verifier::external_body]
pub(crate) fn broadcast_div(lhs: &Tensor, rhs: &Tensor) -> (r: Result<Tensor, Error>)
    requires
        tensor_is_float(*lhs),
        tensor_is_float(*rhs),
    ensures
        r matches Ok(q) ==> tensor_is_float(q),
        r matches Ok(q) ==> (tensor_dims(*lhs).len() == 2 && tensor_dims(*rhs) == seq![
            tensor_dims(*lhs)[0],
            1,
        ] ==> tensor_dims(q) == tensor_dims(*lhs)),
{
    lhs.broadcast_div(rhs)
}

/// `Tensor::eq` against the scalar zero: a tensor of the same shape holding 1
/// where the element equals zero and 0 elsewhere.
#[verifier::external_body]
pub(crate) fn equals_zero(t: &Tensor) -> (r: Result<Tensor, Error>)
    ensures
        r matches Ok(flags) ==> tensor_dims(flags) == tensor_dims(*t),
{
    t.eq(0u8)
}

/// `Tensor::to_vec2` on a tensor of bytes: its rows, for a tensor of rank two.
#[verifier::external_body]
pub(crate) fn byte_rows(t: &Tensor) -> (r: Result<Vec<Vec<u8>>, Error>)
    ensures
        r matches Ok(rows) ==> {
            &&& tensor_dims(*t).len() == 2
            &&& rows.len() == tensor_dims(*t)[0]
            &&& forall|i: int| 0 <= i < rows.len() ==> (#[trigger] rows[i]).len() == tensor_dims(*t)[1]
        },
{
    t.to_vec2::<u8>()
}

/// `Tensor::zeros_like`: a tensor of zeros with the shape, element type and
/// device of the argument.
#[verifier::external_body]
pub(crate) fn zeros_like(t: &Tensor) -> (r: Result<Tensor, Error>)
    ensures
        r matches Ok(z) ==> {
            &&& tensor_dims(z) == tensor_dims(*t)
            &&& tensor_is_float(z) == tensor_is_float(*t)
            &&& tensor_ids(z) == zeros(tensor_ids(*t).len())
        },
{
    t.zeros_like()
}

} // verus!
