use vstd::prelude::*;
use crate::render::RenderedConfig;

verus! {

/// A candidate has drifted from what was last applied when nothing is known
/// to be applied, or when the two texts differ.
pub open spec fn drifted(last_applied: Option<RenderedConfig>, candidate: RenderedConfig) -> bool {
    match last_applied {
        None => true,
        Some(l) => l@ != candidate@,
    }
}

/// Compares the last applied configuration with a new candidate, byte for byte.
pub fn has_drifted(last_applied: &Option<RenderedConfig>, candidate: &RenderedConfig) -> (r: bool)
    ensures
        r == drifted(*last_applied, *candidate),
{
    match last_applied {
        None => true,
        Some(l) => !(l.text == candidate.text),
    }
}

} // verus!
