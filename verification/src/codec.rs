//! Turns claims into signed tokens and tokens back into claims.

use vstd::prelude::*;

use crate::claims::{issuable, Claims, ClaimsView, RawClaims, RawClaimsView};
use crate::errors::{EncodingError, VerificationError};
use crate::jwt::{
    failure_kind, failure_of, open_token, opened_token, read_algorithm, sign_claims, signed_token,
    token_algorithm, DecodeFailure, SignatureAlgorithm,
};
use crate::keys::KeyPair;
use crate::views::ok_view;

verus! {

/// The one algorithm that tokens are signed with and accepted under.
pub open spec fn required_algorithm() -> SignatureAlgorithm {
    SignatureAlgorithm::Rs256
}

/// The reason that the service gives for a failure of the token reader.
pub open spec fn reason_for(failure: DecodeFailure) -> VerificationError {
    match failure {
        DecodeFailure::InvalidToken => VerificationError::Malformed,
        DecodeFailure::Base64 => VerificationError::Malformed,
        DecodeFailure::Json => VerificationError::Malformed,
        DecodeFailure::Utf8 => VerificationError::Malformed,
        DecodeFailure::InvalidAlgorithm => VerificationError::AlgorithmMismatch,
        DecodeFailure::ExpiredSignature => VerificationError::Expired,
        DecodeFailure::InvalidSignature => VerificationError::SignatureInvalid,
        DecodeFailure::Other => VerificationError::SignatureInvalid,
    }
}

/// Whether a header is let through: it was read, and it names the
/// required algorithm.
pub open spec fn header_verdict(header: Result<SignatureAlgorithm, DecodeFailure>) -> Result<
    (),
    VerificationError,
> {
    match header {
        Err(failure) => Err(reason_for(failure)),
        Ok(alg) => if alg == required_algorithm() {
            Ok(())
        } else {
            Err(VerificationError::AlgorithmMismatch)
        },
    }
}

/// What becomes of a payload at `now`: the claims it holds, if the
/// signature was accepted, all three are there and the expiry lies
/// ahead.
pub open spec fn payload_verdict(payload: Result<RawClaimsView, DecodeFailure>, now: int) -> Result<
    ClaimsView,
    VerificationError,
> {
    match payload {
        Err(failure) => Err(reason_for(failure)),
        Ok(raw) => match raw.claims() {
            None => Err(VerificationError::Malformed),
            Some(claims) => if claims.live_at(now) {
                Ok(claims)
            } else {
                Err(VerificationError::Expired)
            },
        },
    }
}

/// The verdict on a token of which the header and the payload have been
/// read: the header is judged first, and only a token that passes it has
/// its payload looked at.
pub open spec fn verdict(
    header: Result<SignatureAlgorithm, DecodeFailure>,
    payload: Result<RawClaimsView, DecodeFailure>,
    now: int,
) -> Result<ClaimsView, VerificationError> {
    match header_verdict(header) {
        Err(reason) => Err(reason),
        Ok(()) => payload_verdict(payload, now),
    }
}

/// What the header reader reports of `token`, with its error named by
/// kind.
pub open spec fn header_outcome(token: Seq<char>) -> Result<SignatureAlgorithm, DecodeFailure> {
    match token_algorithm(token) {
        Ok(alg) => Ok(alg),
        Err(error) => Err(failure_kind(error)),
    }
}

/// What the token reader reports of `token` under `key`, with its error
/// named by kind.
pub open spec fn payload_outcome(
    token: Seq<char>,
    key: jsonwebtoken::DecodingKey<'static>,
) -> Result<RawClaimsView, DecodeFailure> {
    match opened_token(token, key) {
        Ok(raw) => Ok(raw),
        Err(error) => Err(failure_kind(error)),
    }
}

/// Names the reason for a failure of the token reader.
pub fn classify(failure: DecodeFailure) -> (reason: VerificationError)
    ensures
        reason == reason_for(failure),
{
    match failure {
        DecodeFailure::InvalidToken => VerificationError::Malformed,
        DecodeFailure::Base64 => VerificationError::Malformed,
        DecodeFailure::Json => VerificationError::Malformed,
        DecodeFailure::Utf8 => VerificationError::Malformed,
        DecodeFailure::InvalidAlgorithm => VerificationError::AlgorithmMismatch,
        DecodeFailure::ExpiredSignature => VerificationError::Expired,
        DecodeFailure::InvalidSignature => VerificationError::SignatureInvalid,
        DecodeFailure::Other => VerificationError::SignatureInvalid,
    }
}

/// Judges the header of a token: any algorithm but the required one is
/// refused, whatever else the token holds.
pub fn admit_header(header: Result<SignatureAlgorithm, DecodeFailure>) -> (r: Result<
    (),
    VerificationError,
>)
    ensures
        r == header_verdict(header),
{
    match header {
        Err(failure) => Err(classify(failure)),
        Ok(SignatureAlgorithm::Rs256) => Ok(()),
        Ok(_) => Err(VerificationError::AlgorithmMismatch),
    }
}

/// Judges the payload of a token whose header was let through: the
/// claims come back if all are there and the expiry lies after `now`.
pub fn settle_payload(payload: Result<RawClaims, DecodeFailure>, now: i64) -> (r: Result<
    Claims,
    VerificationError,
>)
    ensures
        ok_view(r) == payload_verdict(ok_view(payload), now as int),
{
    match payload {
        Err(failure) => Err(classify(failure)),
        Ok(raw) => match raw.into_claims() {
            None => Err(VerificationError::Malformed),
            Some(claims) => if claims.is_live_at(now) {
                Ok(claims)
            } else {
                Err(VerificationError::Expired)
            },
        },
    }
}

/// Signs and opens tokens with one key pair and one fixed policy: RS256
/// and no other algorithm, and a validity of 24 hours.
pub struct TokenCodec {
    pub keys: KeyPair,
}

impl TokenCodec {
    /// A codec that works with `keys`.
    pub fn new(keys: KeyPair) -> (codec: TokenCodec)
        ensures
            codec.keys == keys,
    {
        TokenCodec { keys }
    }

    /// What `encode` returns for `subject` at `now`.
    pub open spec fn encoded(&self, subject: Seq<char>, now: int) -> Result<
        Seq<char>,
        EncodingError,
    > {
        if !issuable(subject, now) {
            Err(EncodingError::MalformedClaims)
        } else {
            match signed_token(self.keys.signing, ClaimsView::issued(subject, now)) {
                Some(token) => Ok(token),
                None => Err(EncodingError::SigningFailed),
            }
        }
    }

    /// What `decode` returns for `token` at `now`.
    pub open spec fn decoded(&self, token: Seq<char>, now: int) -> Result<
        ClaimsView,
        VerificationError,
    > {
        verdict(header_outcome(token), payload_outcome(token, self.keys.verifying), now)
    }

    /// Builds the claims for `subject`, issued at `now` and valid for 24
    /// hours, and signs them with the private key.
    pub fn encode(&self, subject: &str, now: i64) -> (r: Result<String, EncodingError>)
        ensures
            ok_view(r) == self.encoded(subject@, now as int),
    {
        match Claims::issued_at(subject, now) {
            None => Err(EncodingError::MalformedClaims),
            Some(claims) => match sign_claims(&self.keys.signing, &claims) {
                Some(token) => Ok(token),
                None => Err(EncodingError::SigningFailed),
            },
        }
    }

    /// Reads a token: its header must name the required algorithm, its
    /// signature must hold under the public key, its payload must hold
    /// the three claims, and its expiry must lie after `now`.
    pub fn decode(&self, token: &str, now: i64) -> (r: Result<Claims, VerificationError>)
        ensures
            ok_view(r) == self.decoded(token@, now as int),
    {
        let header = match read_algorithm(token) {
            Ok(alg) => Ok(alg),
            Err(error) => Err(failure_of(&error)),
        };
        match admit_header(header) {
            Err(reason) => Err(reason),
            Ok(()) => {
                let payload = match open_token(token, &self.keys.verifying) {
                    Ok(raw) => Ok(raw),
                    Err(error) => Err(failure_of(&error)),
                };
                settle_payload(payload, now)
            },
        }
    }
}

/// No token is accepted at or after its expiry, whatever its header and
/// whether or not its signature holds: where claims come back, their
/// expiry lies after `now`; and where the reader hands over all three
/// claims with an expiry that has passed, the token is refused.
pub proof fn lemma_expired_is_refused(codec: TokenCodec, token: Seq<char>, now: int)
    ensures
        codec.decoded(token, now) matches Ok(claims) ==> claims.exp > now,
        ({
            &&& payload_outcome(token, codec.keys.verifying) matches Ok(raw)
            &&& raw.exp matches Some(exp)
            &&& exp <= now
        }) ==> codec.decoded(token, now) is Err,
        ({
            &&& header_verdict(header_outcome(token)) is Ok
            &&& payload_outcome(token, codec.keys.verifying) matches Ok(raw)
            &&& raw.claims() matches Some(claims)
            &&& claims.exp <= now
        }) ==> codec.decoded(token, now) == Err::<ClaimsView, VerificationError>(
            VerificationError::Expired,
        ),
{
}

/// A token whose header names another algorithm than the required one
/// is refused for that reason, whatever its payload, its signature, the
/// key and the time.
pub proof fn lemma_other_algorithm_is_refused(codec: TokenCodec, token: Seq<char>, now: int)
    ensures
        ({
            &&& header_outcome(token) matches Ok(alg)
            &&& alg != required_algorithm()
        }) ==> codec.decoded(token, now) == Err::<ClaimsView, VerificationError>(
            VerificationError::AlgorithmMismatch,
        ),
{
}

/// A token under the required algorithm whose signature the reader
/// does not accept under the public key is refused for that reason,
/// at every time.
pub proof fn lemma_rejected_signature_is_refused(codec: TokenCodec, token: Seq<char>, now: int)
    ensures
        ({
            &&& header_verdict(header_outcome(token)) is Ok
            &&& payload_outcome(token, codec.keys.verifying) matches Err(failure)
            &&& failure == DecodeFailure::InvalidSignature
        }) ==> codec.decoded(token, now) == Err::<ClaimsView, VerificationError>(
            VerificationError::SignatureInvalid,
        ),
{
}

/// A text that the reader cannot take apart into a token is refused as
/// malformed, at every time and under every key.
pub proof fn lemma_unreadable_is_malformed(codec: TokenCodec, token: Seq<char>, now: int)
    ensures
        ({
            &&& header_outcome(token) matches Err(failure)
            &&& failure == DecodeFailure::InvalidToken
        }) ==> codec.decoded(token, now) == Err::<ClaimsView, VerificationError>(
            VerificationError::Malformed,
        ),
{
}

/// The claims that are signed for a subject are well formed and name
/// that subject, and a token comes of every request with a subject and
/// a representable expiry unless the signer fails.
pub proof fn lemma_encoding_signs_the_issued_claims(
    codec: TokenCodec,
    subject: Seq<char>,
    now: int,
)
    ensures
        issuable(subject, now) ==> ClaimsView::issued(subject, now).well_formed(),
        issuable(subject, now) ==> ClaimsView::issued(subject, now).sub == subject,
        codec.encoded(subject, now) matches Ok(token) ==> {
            &&& issuable(subject, now)
            &&& signed_token(codec.keys.signing, ClaimsView::issued(subject, now)) == Some(token)
        },
        !issuable(subject, now) <==> codec.encoded(subject, now) == Err::<Seq<char>, EncodingError>(
            EncodingError::MalformedClaims,
        ),
{
}

/// The round trip, as far as it is this library's own: if the reader
/// finds the required algorithm in an issued token and gives back the
/// claims that were signed, then decoding returns these claims, and with
/// them the subject, at every moment before the expiry.
pub proof fn lemma_issued_token_decodes(
    codec: TokenCodec,
    subject: Seq<char>,
    issued_at: int,
    token: Seq<char>,
    checked_at: int,
)
    ensures
        ({
            let claims = ClaimsView::issued(subject, issued_at);
            &&& codec.encoded(subject, issued_at) == Ok::<Seq<char>, EncodingError>(token)
            &&& header_verdict(header_outcome(token)) is Ok
            &&& payload_outcome(token, codec.keys.verifying) matches Ok(raw)
            &&& raw.claims() == Some(claims)
            &&& checked_at < claims.exp
        }) ==> codec.decoded(token, checked_at) == Ok::<ClaimsView, VerificationError>(
            ClaimsView::issued(subject, issued_at),
        ),
{
}

} // verus!
