//! The capability marker an integrator can attach to a state holder to drive
//! automatic transitions between named animations by its own logic. This
//! engine does not interpret the name.
use vstd::prelude::*;

verus! {

/// Marks a holder of animation state as being tied to a specific named
/// animation, to support externally driven transitions.
pub trait AnimationStateId {
    fn name(&self) -> &'static str;
}

} // verus!
