use vstd::prelude::*;

verus! {

/// Marks the bat entity.
#[derive(Debug, Clone, Copy, Default, PartialEq, Eq, Structural)]
pub struct Bat;

/// Marks the eyelid pieces of the rig.
#[derive(Debug, Clone, Copy, Default, PartialEq, Eq, Structural)]
pub struct EyeLid;

} // verus!
