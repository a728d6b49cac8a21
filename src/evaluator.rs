use vstd::prelude::*;

use crate::errors::DistanceFunctionError;

verus! {

/// Checks that two vectors may be compared: a distance is defined only
/// between vectors of equal length. Unequal lengths give `DimensionMismatch`
/// rather than a distance over a truncated or padded pair.
pub fn check_dimensions<T>(a: &[T], b: &[T]) -> (r: Result<(), DistanceFunctionError>)
    ensures
        r is Ok <==> a@.len() == b@.len(),
        r matches Err(e) ==> e is DimensionMismatch,
{
    if a.len() == b.len() {
        Ok(())
    } else {
        Err(DistanceFunctionError::DimensionMismatch)
    }
}

} // verus!
