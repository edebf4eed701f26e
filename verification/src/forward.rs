//! The forward engine: a pure map from a model and an input tensor to an
//! output tensor. It never mutates the model, applies no dropout masking
//! (inference convention), and rejects a mismatched input with a recoverable
//! error instead of failing.

use crate::model::{Activation, Model};
use crate::tensor::{
    add_bias, matmul2, relu2, reshape3to2, shape2, shape3, t2_dims, t3_dims, transpose2, Tensor2,
    Tensor3,
};
use vstd::prelude::*;

verus! {

/// The input does not flatten to the model's declared input width; the model
/// is untouched and reusable.
#[derive(Clone, Copy, PartialEq, Eq, Structural, Debug)]
pub struct ShapeError;

/// Runs the layers over a `[batch, width]` input. Succeeds exactly when the
/// input's width is the model's input size; the output then has one row per
/// batch row and the model's output size as its width.
pub fn forward_flat(model: &Model, input: &Tensor2) -> (r: Result<Tensor2, ShapeError>)
    requires
        model.wf(),
    ensures
        match r {
            Ok(out) => {
                &&& t2_dims(*input)[1] == model.config.input_size
                &&& t2_dims(out) == seq![t2_dims(*input)[0], model.config.output_size as nat]
            },
            Err(e) => t2_dims(*input)[1] != model.config.input_size,
        },
{
    let (batch, width) = shape2(input);
    if width != model.config.input_size {
        return Err(ShapeError);
    }
    let ghost c = model.config;
    let n = model.layers.len();
    let mut x = matmul_layer(model, 0, input);
    let mut i: usize = 1;
    while i < n
        invariant
            model.wf(),
            c == model.config,
            n == model.layers@.len(),
            1 <= i <= n,
            t2_dims(x) == seq![batch as nat, c.layer_out(i - 1)],
        decreases n - i,
    {
        proof {
            crate::config::lemma_layer_dims_chain(c, i - 1);
        }
        x = matmul_layer(model, i, &x);
        i = i + 1;
    }
    Ok(x)
}

/// One layer applied to a `[batch, in_dim]` tensor: the affine map
/// `x · weightᵀ + bias`, then the layer's activation. Dropout is disabled at
/// inference time, so the stored rate is never read.
fn matmul_layer(model: &Model, i: usize, x: &Tensor2) -> (r: Tensor2)
    requires
        model.wf(),
        i < model.layers@.len(),
        t2_dims(*x).len() == 2,
        t2_dims(*x)[1] == model.config.layer_in(i as int),
    ensures
        t2_dims(r) == seq![t2_dims(*x)[0], model.config.layer_out(i as int)],
{
    let layer = &model.layers[i];
    let wt = transpose2(&layer.weight);
    let y = matmul2(x, &wt);
    let y = add_bias(&y, &layer.bias);
    match layer.activation {
        Activation::Relu => relu2(&y),
        Activation::Identity => y,
    }
}

/// Runs the layers over an input whose leading dimension is the batch and
/// whose trailing dimensions are flattened. Succeeds exactly when the
/// flattened trailing dimensions equal the model's input size; the output
/// then has shape `[batch, output_size]`. A mismatch is reported, never a
/// crash, and the model stays intact.
pub fn forward(model: &Model, input: &Tensor3) -> (r: Result<Tensor2, ShapeError>)
    requires
        model.wf(),
    ensures
        match r {
            Ok(out) => {
                &&& t3_dims(*input)[1] * t3_dims(*input)[2] == model.config.input_size
                &&& t2_dims(out) == seq![t3_dims(*input)[0], model.config.output_size as nat]
            },
            Err(e) => t3_dims(*input)[1] * t3_dims(*input)[2] != model.config.input_size,
        },
{
    let (d0, d1, d2) = shape3(input);
    let flat = match d1.checked_mul(d2) {
        Some(f) => f,
        None => {
            return Err(ShapeError);
        },
    };
    if flat != model.config.input_size {
        return Err(ShapeError);
    }
    let x = reshape3to2(input, d0, flat);
    forward_flat(model, &x)
}

} // verus!
