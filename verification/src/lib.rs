//! Game rules of a two-player cooperative puzzle: the "solver" runs a small
//! platformer, the "dispatcher" sits in an office full of buttons.
use vstd::prelude::*;

pub mod collections;
pub mod dispatcher;
pub mod fixed;
pub mod model;
pub mod player;
pub mod solver;
pub mod laws;
pub mod look;

verus! {

} // verus!
