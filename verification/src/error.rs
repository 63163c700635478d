use vstd::prelude::*;

verus! {

/// Everything that can go wrong while creating identities, signing or
/// verifying. Errors are handed to the caller at once and never retried.
#[derive(Clone, Copy, Debug, PartialEq, Eq, Structural)]
pub enum GeneticsError {
    /// The entropy source could not supply usable key or nonce material.
    RandomnessUnavailable,
    /// A protein list without any element was presented.
    EmptyProteinSet,
    /// The identity's private scalar has been zeroized.
    IdentityRetired,
    /// The signature does not match the digest under the given public key.
    SignatureInvalid,
    /// The signature's format belongs to another category than the key's.
    CurveMismatch,
    /// An exported public key could not be read back.
    MalformedEncoding,
}

} // verus!
