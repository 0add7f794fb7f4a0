//! Branch logic of a set of surface shading models for a Monte Carlo path
//! tracer: which variants scatter light, how each one samples and evaluates,
//! and the state machine of the ideal dielectric sampler.
use vstd::prelude::*;

pub mod dielectric;
pub mod kind;
pub mod phong;

verus! {

} // verus!
