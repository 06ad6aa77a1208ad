//! Nodes: how their frames are cached.
use vstd::prelude::*;

verus! {

/// How a node caches its frames.
#[derive(Debug, Clone, Copy, PartialEq, Eq, Structural)]
pub enum CacheMode {
    /// Cache is enabled or disabled based on the reported request patterns and number of consumers.
    Auto,
    /// Never cache anything.
    ForceDisable,
    /// Always cache everything.
    ForceEnable,
}

impl CacheMode {
    /// The number VapourSynth uses for the mode.
    pub open spec fn spec_code(self) -> i32 {
        match self {
            CacheMode::Auto => -1i32,
            CacheMode::ForceDisable => 0,
            CacheMode::ForceEnable => 1,
        }
    }

    /// The number VapourSynth uses for the mode.
    pub fn as_ffi(&self) -> (r: i32)
        ensures
            r == self.spec_code(),
    {
        match self {
            CacheMode::Auto => -1,
            CacheMode::ForceDisable => 0,
            CacheMode::ForceEnable => 1,
        }
    }
}

/// No two modes share a number.
pub proof fn lemma_cache_mode_codes_distinct(a: CacheMode, b: CacheMode)
    ensures
        a.spec_code() == b.spec_code() ==> a == b,
{
}

} // verus!

verus! {

/// The cache mode numbers are VapourSynth's: Auto -1, ForceDisable 0, ForceEnable 1.
pub proof fn lemma_cache_mode_numbers()
    ensures
        CacheMode::Auto.spec_code() == -1,
        CacheMode::ForceDisable.spec_code() == 0,
        CacheMode::ForceEnable.spec_code() == 1,
{
}

} // verus!
