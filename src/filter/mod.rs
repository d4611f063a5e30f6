//! Filter types.
use vstd::prelude::*;

/// State-variable filter strategy types.
pub mod svf;

verus! {

/// A filter's response type (high-pass, low-pass, etc.).
#[derive(Debug, Clone, Copy, PartialEq, Eq, Structural)]
pub enum FilterType {
    Low,
    High,
    Peak,
    Band,
    Notch,
    All,
    MagicPeak,
}

impl Default for FilterType {
    fn default() -> (r: FilterType)
        ensures
            r == FilterType::Low,
    {
        FilterType::Low
    }
}

} // verus!
