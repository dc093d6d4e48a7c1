//! The externally supplied policy: exclusive signal pairs, memory-area
//! access constraints, and a platform tag.  Absent fields mean "no
//! constraint"; the corresponding rules then report clean.

use vstd::prelude::*;

verus! {

/// The policy table.  Loading it from its wire format is the caller's
/// concern; the rules only read this value.
#[derive(Debug)]
pub struct Policy {
    /// Pairs of signal names that must never both be true.
    pub pairs: Option<Vec<[String; 2]>>,
    /// Memory ranges and their access constraints.
    pub memory_areas: Option<Vec<MemoryArea>>,
    /// Target platform tag, e.g. "S7"; free-form.
    pub platform: Option<String>,
}

/// One policy-declared memory area.
#[derive(Debug)]
pub struct MemoryArea {
    /// Address range, e.g. "%MW100-%MW200".
    pub address: String,
    /// Access constraint: "ReadOnly" or "ReadWrite".
    pub access: String,
}

impl Default for Policy {
    /// The policy with no constraints at all.
    fn default() -> (r: Policy)
        ensures
            r.pairs is None,
            r.memory_areas is None,
            r.platform is None,
    {
        Policy { pairs: None, memory_areas: None, platform: None }
    }
}

} // verus!
