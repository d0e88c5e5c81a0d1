use vstd::prelude::*;

verus! {

/// The failures an analyzer reports to its caller.
#[derive(Debug, Clone, Copy, PartialEq, Eq, Structural)]
pub enum AnalyzerError {
    /// The sample rate is zero or the transform size is not one the transform supports.
    InvalidConfiguration { sample_rate: u32, transform_size: usize },
    /// A block held fewer samples than the transform size.
    InsufficientSamples { expected: usize, actual: usize },
    /// The spectrum transform refused the consumed block (a frequency limit it rejects,
    /// or samples that are not finite).
    AnalysisFailed,
}

} // verus!
