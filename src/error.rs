use vstd::prelude::*;

verus! {

/// Why an issuance step could not be completed.
#[derive(Clone, Copy, Debug, PartialEq, Eq, Structural)]
pub enum CredentialError {
    /// The connection string is missing or invalid.
    Configuration,
    /// The store could not be reached or a query failed.
    Persistence,
    /// No salt component has been generated and stored yet.
    NoSaltConfigured,
    /// The secure random source could not supply entropy.
    RandomSource,
}

} // verus!
