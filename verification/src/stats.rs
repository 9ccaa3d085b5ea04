//! Error signalling of the statistics module. The mean, the standard
//! deviation and the quantile transform are undefined for an empty sample
//! sequence; that condition is signalled explicitly, never defaulted.

use vstd::prelude::*;

verus! {

/// The one error the statistics module can raise: a summary was requested
/// for a sequence with no elements.
#[derive(Clone, Copy, Debug, PartialEq, Eq, Structural)]
pub enum StatsError {
    EmptySequence,
}

/// Admit a sample sequence for summary statistics: a sequence is admitted
/// exactly when it has at least one element; an empty one is answered with
/// `EmptySequence`.
pub fn check_nonempty(len: usize) -> (outcome: Result<(), StatsError>)
    ensures
        outcome is Ok <==> len > 0,
        len == 0 ==> outcome == Err::<(), StatsError>(StatsError::EmptySequence),
{
    if len > 0 {
        Ok(())
    } else {
        Err(StatsError::EmptySequence)
    }
}

} // verus!
