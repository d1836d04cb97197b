//! Application lifecycle support: the hand-off from the loader's entry call to
//! a typed entry function, and the drain that holds the exit path until every
//! sibling thread of the application has terminated.
use vstd::prelude::*;

pub mod drain;
pub mod exit;
pub mod thread;

verus! {

} // verus!
