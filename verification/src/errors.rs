//! The failures that the service reports to its callers.

use vstd::prelude::*;

verus! {

/// Key material that cannot be used. A process that gets this at start-up
/// must not begin to serve.
#[derive(Clone, Copy, Debug, PartialEq, Eq, Structural)]
pub enum FatalError {
    /// The private key is not a PEM-encoded RSA key.
    PrivateKey,
    /// The public key is not a PEM-encoded RSA key.
    PublicKey,
}

/// Why no token was produced. The process goes on running.
#[derive(Clone, Copy, Debug, PartialEq, Eq, Structural)]
pub enum EncodingError {
    /// The claims cannot be formed: the subject is empty, or the expiry
    /// lies beyond the largest timestamp.
    MalformedClaims,
    /// The signer refused the claims or the key.
    SigningFailed,
}

/// Why a token was refused.
#[derive(Clone, Copy, Debug, PartialEq, Eq, Structural)]
pub enum VerificationError {
    /// The text is not a token, or its payload lacks a claim.
    Malformed,
    /// The signature does not belong to the token under the public key.
    SignatureInvalid,
    /// The expiry is not later than the time of the check.
    Expired,
    /// The header names another algorithm than the required one.
    AlgorithmMismatch,
}

/// A request that lacks what it has to bring.
#[derive(Clone, Copy, Debug, PartialEq, Eq, Structural)]
pub enum ClientError {
    /// The subject to issue a token for is the empty string.
    EmptySubject,
}

/// Why an issuance request failed, by who has to mend it.
#[derive(Clone, Copy, Debug, PartialEq, Eq, Structural)]
pub enum IssueError {
    /// The request was at fault.
    Client(ClientError),
    /// The request was in order and no token could be made.
    Server(EncodingError),
}

} // verus!
