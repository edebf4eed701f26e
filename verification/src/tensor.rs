//! Opaque handles to burn's single-precision tensors on the ndarray backend,
//! together with the trusted contracts of the few operations the library
//! needs. The float contents are opaque to verification; `t1_bits`/`t2_bits`
//! name the element bit patterns and `t1_dims`/`t2_dims`/`t3_dims` the shape.

use burn::tensor::backend::Backend;
use vstd::prelude::*;

verus! {

/// A rank-1 single-precision tensor (a vector) on burn's ndarray backend.
#[verifier::external_body]
pub struct Tensor1 {
    inner: burn::tensor::Tensor<burn::backend::NdArray, 1>,
}

/// A rank-2 single-precision tensor (a matrix) on burn's ndarray backend.
#[verifier::external_body]
pub struct Tensor2 {
    inner: burn::tensor::Tensor<burn::backend::NdArray, 2>,
}

/// A rank-3 single-precision tensor on burn's ndarray backend.
#[verifier::external_body]
pub struct Tensor3 {
    inner: burn::tensor::Tensor<burn::backend::NdArray, 3>,
}

/// The length of a rank-1 tensor.
pub uninterp spec fn t1_dims(t: Tensor1) -> nat;

/// The shape of a rank-2 tensor: a sequence of its two dimensions.
pub uninterp spec fn t2_dims(t: Tensor2) -> Seq<nat>;

/// The shape of a rank-3 tensor: a sequence of its three dimensions.
pub uninterp spec fn t3_dims(t: Tensor3) -> Seq<nat>;

/// The elements of a rank-1 tensor, as single-precision bit patterns.
pub uninterp spec fn t1_bits(t: Tensor1) -> Seq<u32>;

/// The elements of a rank-2 tensor in row-major order, as single-precision
/// bit patterns.
pub uninterp spec fn t2_bits(t: Tensor2) -> Seq<u32>;

/// What the backend's seeded generator fills a vector of `len` elements
/// with: the generator is reseeded from `seed` before sampling, so the
/// contents depend on the arguments alone.
pub uninterp spec fn rand1_bits_of(seed: u64, len: nat) -> Seq<u32>;

/// What the backend's seeded generator fills a `rows x cols` matrix with,
/// in row-major order; a function of the arguments alone.
pub uninterp spec fn rand2_bits_of(seed: u64, rows: nat, cols: nat) -> Seq<u32>;

/// Relies on `NdArray::seed` and `Tensor::random`: the backend's generator is
/// a seeded pseudo-random generator (`StdRng::seed_from_u64`), so reseeding
/// right before sampling makes the contents a function of the arguments
/// alone; `random` returns a tensor of exactly the requested shape.
#[verifier::external_body]
pub(crate) fn seeded_random1(seed: u64, len: usize) -> (r: Tensor1)
    ensures
        t1_dims(r) == len as nat,
        t1_bits(r) == rand1_bits_of(seed, len as nat),
{
    <burn::backend::NdArray as Backend>::seed(seed);
    let device = Default::default();
    let inner = burn::tensor::Tensor::random([len], burn::tensor::Distribution::Default, &device);
    Tensor1 { inner }
}

/// Relies on `NdArray::seed` and `Tensor::random`, as `seeded_random1` does,
/// for a `rows x cols` matrix.
#[verifier::external_body]
pub(crate) fn seeded_random2(seed: u64, rows: usize, cols: usize) -> (r: Tensor2)
    ensures
        t2_dims(r) == seq![rows as nat, cols as nat],
        t2_bits(r) == rand2_bits_of(seed, rows as nat, cols as nat),
{
    <burn::backend::NdArray as Backend>::seed(seed);
    let device = Default::default();
    let inner =
        burn::tensor::Tensor::random([rows, cols], burn::tensor::Distribution::Default, &device);
    Tensor2 { inner }
}

/// Relies on `NdArray::seed` and `Tensor::random`, as `seeded_random1` does,
/// for a rank-3 tensor of shape `[d0, d1, d2]`.
#[verifier::external_body]
pub(crate) fn seeded_random3(seed: u64, d0: usize, d1: usize, d2: usize) -> (r: Tensor3)
    ensures
        t3_dims(r) == seq![d0 as nat, d1 as nat, d2 as nat],
{
    <burn::backend::NdArray as Backend>::seed(seed);
    let device = Default::default();
    let inner = burn::tensor::Tensor::random(
        [d0, d1, d2],
        burn::tensor::Distribution::Default,
        &device,
    );
    Tensor3 { inner }
}

/// Relies on `Tensor::dims`: it returns the tensor's dimensions.
#[verifier::external_body]
pub(crate) fn shape2(t: &Tensor2) -> (r: (usize, usize))
    ensures
        t2_dims(*t) == seq![r.0 as nat, r.1 as nat],
{
    let d = t.inner.dims();
    (d[0], d[1])
}

/// Relies on `Tensor::dims`: it returns the tensor's dimensions.
#[verifier::external_body]
pub(crate) fn shape3(t: &Tensor3) -> (r: (usize, usize, usize))
    ensures
        t3_dims(*t) == seq![r.0 as nat, r.1 as nat, r.2 as nat],
{
    let d = t.inner.dims();
    (d[0], d[1], d[2])
}

/// Relies on `Tensor::dims`: it returns the tensor's length.
#[verifier::external_body]
pub(crate) fn shape1(t: &Tensor1) -> (r: usize)
    ensures
        t1_dims(*t) == r as nat,
{
    t.inner.dims()[0]
}

/// Relies on `Tensor::transpose`: for a matrix it swaps the two dimensions.
#[verifier::external_body]
pub(crate) fn transpose2(t: &Tensor2) -> (r: Tensor2)
    ensures
        t2_dims(r) == seq![t2_dims(*t)[1], t2_dims(*t)[0]],
{
    Tensor2 { inner: t.inner.clone().transpose() }
}

/// Relies on `Tensor::matmul`: for a `[m, k]` and a `[k, n]` operand it
/// returns their `[m, n]` matrix product. burn panics when the inner
/// dimensions differ, so that input is excluded.
#[verifier::external_body]
pub(crate) fn matmul2(a: &Tensor2, b: &Tensor2) -> (r: Tensor2)
    requires
        t2_dims(*a).len() == 2,
        t2_dims(*b).len() == 2,
        t2_dims(*a)[1] == t2_dims(*b)[0],
    ensures
        t2_dims(r) == seq![t2_dims(*a)[0], t2_dims(*b)[1]],
{
    Tensor2 { inner: a.inner.clone().matmul(b.inner.clone()) }
}

/// Relies on `Tensor::unsqueeze` and the broadcast `Tensor::add`: the bias
/// vector, read as a one-row matrix, is added to every row, keeping the
/// shape. burn panics when the row width differs from the bias length, so
/// that input is excluded.
#[verifier::external_body]
pub(crate) fn add_bias(x: &Tensor2, bias: &Tensor1) -> (r: Tensor2)
    requires
        t2_dims(*x).len() == 2,
        t2_dims(*x)[1] == t1_dims(*bias),
    ensures
        t2_dims(r) == t2_dims(*x),
{
    let row: burn::tensor::Tensor<burn::backend::NdArray, 2> = bias.inner.clone().unsqueeze();
    Tensor2 { inner: x.inner.clone() + row }
}

/// Relies on `burn::tensor::activation::relu`: an elementwise operation, so
/// the shape is kept.
#[verifier::external_body]
pub(crate) fn relu2(t: &Tensor2) -> (r: Tensor2)
    ensures
        t2_dims(r) == t2_dims(*t),
{
    Tensor2 { inner: burn::tensor::activation::relu(t.inner.clone()) }
}

/// Relies on `Tensor::reshape`: the elements are kept and laid out under the
/// new shape. burn panics when the element counts differ, so those inputs
/// are excluded.
#[verifier::external_body]
pub(crate) fn reshape3to2(t: &Tensor3, rows: usize, cols: usize) -> (r: Tensor2)
    requires
        t3_dims(*t).len() == 3,
        t3_dims(*t)[0] == rows as nat,
        t3_dims(*t)[1] * t3_dims(*t)[2] == cols as nat,
    ensures
        t2_dims(r) == seq![rows as nat, cols as nat],
{
    Tensor2 { inner: t.inner.clone().reshape([rows, cols]) }
}

/// Relies on `Tensor::to_data`: it hands out the elements in row-major
/// order; `f32::to_bits` turns each into its bit pattern, one for one.
#[verifier::external_body]
pub(crate) fn bits_of_tensor2(t: &Tensor2) -> (r: Vec<u32>)
    ensures
        r@ == t2_bits(*t),
{
    t.inner.to_data().value.iter().map(|v| v.to_bits()).collect()
}

/// Relies on `Tensor::to_data`, as `bits_of_tensor2` does, for a vector.
#[verifier::external_body]
pub(crate) fn bits_of_tensor1(t: &Tensor1) -> (r: Vec<u32>)
    ensures
        r@ == t1_bits(*t),
{
    t.inner.to_data().value.iter().map(|v| v.to_bits()).collect()
}

/// A fresh rank-3 tensor of shape `[d0, d1, d2]`, filled by the backend's
/// generator reseeded from `seed`; the synthetic benchmark input.
pub fn random_tensor3(seed: u64, d0: usize, d1: usize, d2: usize) -> (r: Tensor3)
    ensures
        t3_dims(r) == seq![d0 as nat, d1 as nat, d2 as nat],
{
    seeded_random3(seed, d0, d1, d2)
}

/// A fresh rank-2 tensor of shape `[rows, cols]`, filled by the backend's
/// generator reseeded from `seed`; its contents are a function of the
/// arguments alone.
pub fn random_tensor2(seed: u64, rows: usize, cols: usize) -> (r: Tensor2)
    ensures
        t2_dims(r) == seq![rows as nat, cols as nat],
        t2_bits(r) == rand2_bits_of(seed, rows as nat, cols as nat),
{
    seeded_random2(seed, rows, cols)
}

/// The dimensions of a rank-2 tensor.
pub fn tensor2_shape(t: &Tensor2) -> (r: (usize, usize))
    ensures
        t2_dims(*t) == seq![r.0 as nat, r.1 as nat],
{
    shape2(t)
}

/// The dimensions of a rank-3 tensor.
pub fn tensor3_shape(t: &Tensor3) -> (r: (usize, usize, usize))
    ensures
        t3_dims(*t) == seq![r.0 as nat, r.1 as nat, r.2 as nat],
{
    shape3(t)
}

/// The length of a rank-1 tensor.
pub fn tensor1_len(t: &Tensor1) -> (r: usize)
    ensures
        t1_dims(*t) == r as nat,
{
    shape1(t)
}

/// The elements of a rank-2 tensor in row-major order, each as its
/// single-precision bit pattern.
pub fn tensor2_bits(t: &Tensor2) -> (r: Vec<u32>)
    ensures
        r@ == t2_bits(*t),
{
    bits_of_tensor2(t)
}

/// The elements of a rank-1 tensor, each as its single-precision bit
/// pattern.
pub fn tensor1_bits(t: &Tensor1) -> (r: Vec<u32>)
    ensures
        r@ == t1_bits(*t),
{
    bits_of_tensor1(t)
}

} // verus!
