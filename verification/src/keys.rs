//! The key pair of the service: loaded once, never changed.

use vstd::prelude::*;

use crate::errors::FatalError;
use crate::jwt::{parse_signing_key, parse_verifying_key, rsa_signing_key, rsa_verifying_key};

verus! {

/// The private key that signs tokens and the public key that checks
/// them.
pub struct KeyPair {
    pub signing: jsonwebtoken::EncodingKey,
    pub verifying: jsonwebtoken::DecodingKey<'static>,
}

/// What `KeyPair::load` makes of the two PEM texts: the pair of the keys
/// that they hold, or the first of the two that holds none.
pub open spec fn loaded(private_pem: Seq<u8>, public_pem: Seq<u8>) -> Result<KeyPair, FatalError> {
    match (rsa_signing_key(private_pem), rsa_verifying_key(public_pem)) {
        (Some(signing), Some(verifying)) => Ok(KeyPair { signing, verifying }),
        (None, _) => Err(FatalError::PrivateKey),
        (Some(_), None) => Err(FatalError::PublicKey),
    }
}

impl KeyPair {
    /// Parses the private and the public key, both PEM-encoded RSA keys.
    /// Either both are usable or the load fails.
    pub fn load(private_pem: &[u8], public_pem: &[u8]) -> (r: Result<KeyPair, FatalError>)
        ensures
            r == loaded(private_pem@, public_pem@),
    {
        let signing = match parse_signing_key(private_pem) {
            Some(key) => key,
            None => {
                return Err(FatalError::PrivateKey);
            },
        };
        match parse_verifying_key(public_pem) {
            Some(verifying) => Ok(KeyPair { signing, verifying }),
            None => Err(FatalError::PublicKey),
        }
    }
}

} // verus!
