use vstd::prelude::*;

use crate::value::HostError;

verus! {

/// Why a conversion from a dynamic value failed. Only the first failure of a
/// conversion is kept.
#[derive(Debug, PartialEq, Eq)]
pub enum ConversionError {
    /// A text value was given where a generic sequence was required.
    TypeMismatch,
    /// The value does not support the generic sequence protocol
    /// (the expected capability is "Sequence").
    CapabilityMismatch,
    /// The host runtime raised while the sequence was being walked.
    IterationFailure(HostError),
    /// The element at `index` could not be converted; `cause` is what the
    /// element's own conversion reported.
    ElementConversionFailure { index: usize, cause: Box<ConversionError> },
    /// A single value is not of the kind that the target type reads.
    Incompatible,
}

} // verus!
