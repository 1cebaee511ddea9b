use vstd::prelude::*;

verus! {

/// The single failure taxonomy shared by every operation of the library.
/// Each fallible operation returns either its value or exactly one of
/// these kinds; there is no partial success.
#[derive(Debug)]
pub enum CopulaError {
    /// A construction or parameter input violates a family's domain.
    InvalidParameter { message: String },
    /// An input vector's length differs from the instance's dimension.
    DimensionMismatch { expected: usize, actual: usize },
    /// Input values lie outside a required domain, such as the unit interval.
    InvalidData { message: String },
    /// Parameter estimation did not converge; reserved for the fitting
    /// extension, which has no implementation yet.
    EstimationFailed { message: String },
    /// A numerical failure; reserved.
    MathError { message: String },
    /// The named feature has deliberately not been built yet, as opposed
    /// to an input having been rejected.
    NotImplemented { feature: String },
}

impl CopulaError {
    /// A human-readable description of the error; the stored text is
    /// prefixed with its kind.
    pub fn describe(&self) -> (r: String)
        ensures
            self matches CopulaError::InvalidParameter { message } ==> r@ == "Invalid parameter: "@ + message@,
            self matches CopulaError::DimensionMismatch { expected, actual } ==> r@ == "Dimension mismatch between the expected and the actual input length"@,
            self matches CopulaError::InvalidData { message } ==> r@ == "Data contains invalid values: "@ + message@,
            self matches CopulaError::EstimationFailed { message } ==> r@ == "Estimation failed: "@ + message@,
            self matches CopulaError::MathError { message } ==> r@ == "Mathematical error: "@ + message@,
            self matches CopulaError::NotImplemented { feature } ==> r@ == "Not implemented: "@ + feature@,
    {
        match self {
            CopulaError::InvalidParameter { message } => String::from_str("Invalid parameter: ").concat(message.as_str()),
            CopulaError::DimensionMismatch { expected: _, actual: _ } => String::from_str("Dimension mismatch between the expected and the actual input length"),
            CopulaError::InvalidData { message } => String::from_str("Data contains invalid values: ").concat(message.as_str()),
            CopulaError::EstimationFailed { message } => String::from_str("Estimation failed: ").concat(message.as_str()),
            CopulaError::MathError { message } => String::from_str("Mathematical error: ").concat(message.as_str()),
            CopulaError::NotImplemented { feature } => String::from_str("Not implemented: ").concat(feature.as_str()),
        }
    }
}

} // verus!
