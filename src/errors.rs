use vstd::prelude::*;

verus! {

/// How an error is classified in the outer error taxonomy.
#[derive(Clone, Copy, Debug, PartialEq, Eq, Structural)]
pub enum ErrorCodes {
    /// The caller supplied bad input, such as a malformed configuration.
    InvalidArgument,
    /// A contract between internal components was broken.
    Internal,
}

/// Errors raised by the metric selector and the distance evaluator.
#[derive(Clone, Debug)]
pub enum DistanceFunctionError {
    /// The configuration string names no known metric; it is kept verbatim.
    InvalidDistanceFunction(String),
    /// Two vectors of unequal length were compared.
    DimensionMismatch,
}

impl DistanceFunctionError {
    /// The classification of each error kind.
    pub open spec fn spec_code(&self) -> ErrorCodes {
        match self {
            DistanceFunctionError::InvalidDistanceFunction(_) => ErrorCodes::InvalidArgument,
            DistanceFunctionError::DimensionMismatch => ErrorCodes::Internal,
        }
    }

    /// Bad metric names are the caller's fault; a dimension mismatch is an
    /// internal contract violation.
    pub fn code(&self) -> (r: ErrorCodes)
        ensures
            r == self.spec_code(),
    {
        match self {
            DistanceFunctionError::InvalidDistanceFunction(_) => ErrorCodes::InvalidArgument,
            DistanceFunctionError::DimensionMismatch => ErrorCodes::Internal,
        }
    }
}

} // verus!
