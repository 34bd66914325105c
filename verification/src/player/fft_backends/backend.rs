//! What all sample sources share.
use vstd::prelude::*;

verus! {

/// What a sample source is doing.
#[derive(Clone, Copy, Debug, PartialEq, Eq, Structural)]
pub enum FftStatus {
    Invalid,
    Stopping,
    /// Could read, but the visualiser is not running.
    ValidNotReading,
    Reading,
}

impl Default for FftStatus {
    fn default() -> (r: FftStatus)
        ensures
            r == FftStatus::Invalid,
    {
        FftStatus::Invalid
    }
}

} // verus!
