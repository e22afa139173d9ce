use vstd::prelude::*;

verus! {

/// Whether the `--debug` log is on.
#[derive(Debug, Clone, Copy, PartialEq, Eq, Structural)]
pub struct DebugOptions {
    pub enabled: bool,
}

} // verus!
