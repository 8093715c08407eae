use vstd::prelude::*;

verus! {

/// Why an operation on an asset was abandoned.
#[derive(Clone, Copy, Debug, PartialEq, Eq, Structural)]
pub enum AssetError {
    /// An address could not be canonicalized, humanized or validated.
    Address,
    /// A balance or metadata lookup failed.
    Query,
    /// The declared amount differs from the native funds that were attached.
    BalanceMismatch,
    /// A message payload could not be encoded.
    Serialization,
}

impl AssetError {
    /// A short description of the error, for display.
    pub fn message(&self) -> (r: &'static str)
        ensures
            r@ == error_text(*self),
    {
        match self {
            AssetError::Address => "Invalid address",
            AssetError::Query => "Query failed",
            AssetError::BalanceMismatch =>
                "Native token balance mismatch between the argument and the transferred",
            AssetError::Serialization => "Message payload could not be encoded",
        }
    }
}

/// The text that `AssetError::message` gives for each error.
pub open spec fn error_text(e: AssetError) -> Seq<char> {
    match e {
        AssetError::Address => "Invalid address"@,
        AssetError::Query => "Query failed"@,
        AssetError::BalanceMismatch =>
            "Native token balance mismatch between the argument and the transferred"@,
        AssetError::Serialization => "Message payload could not be encoded"@,
    }
}

/// A result with its success value replaced by that value's view.
pub open spec fn view_ok<T: View>(r: Result<T, AssetError>) -> Result<T::V, AssetError> {
    match r {
        Ok(t) => Ok(t@),
        Err(e) => Err(e),
    }
}

} // verus!
