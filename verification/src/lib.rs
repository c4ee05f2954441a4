//! Composable, differentiable tensor operators with isolated trainable
//! state.
//!
//! An operator is evaluated ([`operator::Forward`]), sends gradients back
//! ([`operator::Backward`]) and is updated ([`operator::Train`]). Pipelines
//! are built by nesting combinators ([`chain`], [`mapped`], [`zip`]) and
//! adapters that map an operator over a tensor ([`map1`], [`map2`],
//! [`map3`], [`mapd`]) around leaf operators: convolutions ([`conv2`],
//! [`conv2n`], [`conv3`]), deformable convolution ([`defconv`]), dense
//! layers ([`dense`]), normalisation ([`norm`]) and operators on single
//! numbers ([`activation`]).
//!
//! Every operator is generic in the numbers it works on ([`scalar`]), and
//! its contract says for every cell of every result which number it holds,
//! in terms of the sums and products of that number type. [`fixed`] is a
//! number type with exact arithmetic.

pub mod activation;
pub mod bias;
pub mod cellwise;
pub mod chain;
pub mod conv;
pub mod conv2;
pub mod conv2n;
pub mod conv3;
pub mod defconv;
pub mod delta;
pub mod dense;
pub mod each;
pub mod fixed;
pub mod map1;
pub mod map2;
pub mod map3;
pub mod mapd;
pub mod mapped;
pub mod mep;
pub mod ndeep;
pub mod norm;
pub mod operator;
pub mod reshape;
pub mod residual;
pub mod scalar;
pub mod tensor;
pub mod zip;
