//! Traits whose methods are answered by the variants of an enum: the model of
//! such a trait, and the layout of a workspace that holds such traits.

pub mod cargo;
pub mod error;
pub mod model;
