//! A small feed-forward neural-network trainer with a verified core.
//!
//! Every scalar that flows through the network is carried as the 64-bit
//! pattern of an IEEE-754 double. The structural parts of the trainer --
//! matrix shapes, the layer chain, backpropagation plumbing, the optimizer
//! state machines, sign tests and saturation guards -- are verified here.
//! The arithmetic on scalar bit patterns (addition, multiplication,
//! exponentials, Gaussian sampling) is supplied by the embedding program
//! through the [`scalar::ScalarOps`] trait, whose operations carry no
//! contracts: nothing proved here depends on their values.

pub mod activation_function;
pub mod cost_function;
pub mod dataset;
pub mod layer;
pub mod matrix;
pub mod network;
pub mod optimizer;
pub mod scalar;
