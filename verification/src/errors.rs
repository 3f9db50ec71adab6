use vstd::prelude::*;

verus! {

/// The distinct failure conditions of the record store and the transition
/// engine. Every operation either fully succeeds or reports one of these
/// without having changed any state.
#[derive(Clone, Copy, Debug, PartialEq, Eq)]
pub enum StageError {
    /// A program-derived address could not be produced for the record or for
    /// the update authority.
    AddressDerivationFailed,
    /// An advance was requested for a record that was never initialized.
    RecordNotInitialized,
    /// The authority re-derived from the record's stored authority bump does
    /// not match the live update-authority address.
    SignatureDerivationMismatch,
    /// The current descriptor URI is shorter than one level suffix after the
    /// trailing padding is removed.
    MalformedUriSuffix,
    /// The external metadata subsystem refused the authenticated rewrite.
    ExternalRewriteRejected,
}

} // verus!
