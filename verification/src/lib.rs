//! Currying of an N-ary function into a lattice of stages.
//!
//! A function with N ordered parameters is turned into a family of stages,
//! one per bound prefix of its parameters, and one transition for each way
//! of supplying a further run of arguments. The `plan` module enumerates
//! stages and transitions, `descriptor` classifies what cannot or need not be
//! carried over, `family` lays out the items to emit, and `stage` is the
//! behaviour of the emitted family at run time.

pub mod descriptor;
pub mod family;
pub mod plan;
pub mod stage;

pub use crate::family::auto_curry;
