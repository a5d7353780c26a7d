//! The two operations of the service: issue a token for a subject, and
//! verify a token that a client presents. Each measures how long the
//! codec takes and records the call in the counters of its class.

use std::time::Instant;
use vstd::prelude::*;

use crate::app_state::OperationStats;
use crate::claims::{Claims, ClaimsView, VALIDITY_SECONDS};
use crate::clock::{clock_reading, lemma_clock_reading_is_bounded, unix_now};
use crate::codec::{
    header_outcome, header_verdict, lemma_expired_is_refused, lemma_issued_token_decodes,
    lemma_other_algorithm_is_refused, payload_outcome, required_algorithm, TokenCodec,
};
use crate::errors::{ClientError, EncodingError, IssueError, VerificationError};

verus! {

/// A fresh token and the milliseconds that it took to make.
#[derive(Clone, Debug)]
pub struct Issued {
    pub token: String,
    pub elapsed_millis: u128,
}

/// Whether `outcome` is what an issuance for `subject` returns when the
/// clock reads `now` and the encoding takes `elapsed` milliseconds: an
/// empty subject is the client's error; for any other, the token that
/// the codec makes, with the time it took, or the codec's failure.
pub open spec fn issue_returns(
    codec: TokenCodec,
    subject: Seq<char>,
    now: int,
    elapsed: u128,
    outcome: Result<Issued, IssueError>,
) -> bool {
    match outcome {
        Ok(issued) => {
            &&& subject.len() > 0
            &&& codec.encoded(subject, now) == Ok::<Seq<char>, EncodingError>(issued.token@)
            &&& issued.elapsed_millis == elapsed
        },
        Err(IssueError::Server(error)) => {
            &&& subject.len() > 0
            &&& codec.encoded(subject, now) == Err::<Seq<char>, EncodingError>(error)
        },
        Err(IssueError::Client(ClientError::EmptySubject)) => subject.len() == 0,
    }
}

/// What an issuance for `subject` comes to when the clock reads `now`
/// and the encoding takes `elapsed` milliseconds: `outcome` is returned
/// and the counters go from `before` to `after`.
///
/// An empty subject is turned away before anything is measured or
/// counted. Every other request is counted with its duration, whether or
/// not a token came of it.
pub open spec fn issue_settled(
    codec: TokenCodec,
    before: OperationStats,
    subject: Seq<char>,
    now: int,
    elapsed: u128,
    after: OperationStats,
    outcome: Result<Issued, IssueError>,
) -> bool {
    &&& issue_returns(codec, subject, now, elapsed, outcome)
    &&& after == if subject.len() == 0 {
        before
    } else {
        before.record_if_fits(elapsed)
    }
}

/// Whether `outcome` is what a verification of `token` returns when the
/// clock reads `now`: the subject of the claims that the codec reads, or
/// the codec's reason to refuse.
pub open spec fn verify_returns(
    codec: TokenCodec,
    token: Seq<char>,
    now: int,
    outcome: Result<String, VerificationError>,
) -> bool {
    match outcome {
        Ok(subject) => codec.decoded(token, now) matches Ok(claims) && claims.sub == subject@,
        Err(reason) => codec.decoded(token, now) == Err::<ClaimsView, VerificationError>(reason),
    }
}

/// What a verification of `token` comes to when the clock reads `now`
/// and the decoding takes `elapsed` milliseconds: `outcome` is returned
/// and the counters go from `before` to `after`.
///
/// Every verification is counted with its duration, the refused ones
/// too.
pub open spec fn verify_settled(
    codec: TokenCodec,
    before: OperationStats,
    token: Seq<char>,
    now: int,
    elapsed: u128,
    after: OperationStats,
    outcome: Result<String, VerificationError>,
) -> bool {
    &&& verify_returns(codec, token, now, outcome)
    &&& after == before.record_if_fits(elapsed)
}

/// Closes an issuance whose encoding has run: counts it with its
/// duration and hands the token on, or the failure.
pub fn conclude_issue(
    issuance: &mut OperationStats,
    encoded: Result<String, EncodingError>,
    elapsed: u128,
) -> (outcome: Result<Issued, IssueError>)
    ensures
        *final(issuance) == old(issuance).record_if_fits(elapsed),
        match encoded {
            Ok(token) => outcome matches Ok(issued) && issued.token == token
                && issued.elapsed_millis == elapsed,
            Err(error) => outcome == Err::<Issued, IssueError>(IssueError::Server(error)),
        },
{
    issuance.try_record(elapsed);
    match encoded {
        Ok(token) => Ok(Issued { token, elapsed_millis: elapsed }),
        Err(error) => Err(IssueError::Server(error)),
    }
}

/// Closes a verification whose decoding has run: counts it with its
/// duration, whatever the verdict, and hands the subject on, or the
/// reason of the refusal.
pub fn conclude_verify(
    verification: &mut OperationStats,
    decoded: Result<Claims, VerificationError>,
    elapsed: u128,
) -> (outcome: Result<String, VerificationError>)
    ensures
        *final(verification) == old(verification).record_if_fits(elapsed),
        match decoded {
            Ok(claims) => outcome matches Ok(subject) && subject == claims.sub,
            Err(reason) => outcome == Err::<String, VerificationError>(reason),
        },
{
    verification.try_record(elapsed);
    match decoded {
        Ok(claims) => Ok(claims.sub),
        Err(reason) => Err(reason),
    }
}

/// Issues a token for `subject` as of `now`, and counts the issuance.
pub fn issue_at(
    codec: &TokenCodec,
    issuance: &mut OperationStats,
    subject: &str,
    now: i64,
) -> (outcome: Result<Issued, IssueError>)
    ensures
        exists|elapsed: u128| #[trigger]
            issue_settled(
                *codec,
                *old(issuance),
                subject@,
                now as int,
                elapsed,
                *final(issuance),
                outcome,
            ),
{
    if subject.is_empty() {
        assert(issue_settled(
            *codec,
            *old(issuance),
            subject@,
            now as int,
            0,
            *issuance,
            Err(IssueError::Client(ClientError::EmptySubject)),
        ));
        return Err(IssueError::Client(ClientError::EmptySubject));
    }
    let start = Instant::now();
    let encoded = codec.encode(subject, now);
    let elapsed = start.elapsed().as_millis();
    let outcome = conclude_issue(issuance, encoded, elapsed);
    assert(issue_settled(
        *codec,
        *old(issuance),
        subject@,
        now as int,
        elapsed,
        *issuance,
        outcome,
    ));
    outcome
}

/// Issues a token for `subject` as of the wall clock, and counts the
/// issuance. Whoever names a subject gets a token unless the signer
/// fails: the clock never reads a time whose expiry cannot be written.
pub fn issue(codec: &TokenCodec, issuance: &mut OperationStats, subject: &str) -> (outcome:
    Result<Issued, IssueError>)
    ensures
        exists|now: i64, elapsed: u128|
            clock_reading(now as int) && #[trigger] issue_settled(
                *codec,
                *old(issuance),
                subject@,
                now as int,
                elapsed,
                *final(issuance),
                outcome,
            ),
        outcome matches Err(IssueError::Server(error)) ==> error == EncodingError::SigningFailed,
{
    let now = unix_now();
    let outcome = issue_at(codec, issuance, subject, now);
    proof {
        let elapsed = choose|elapsed: u128| #[trigger]
            issue_settled(
                *codec,
                *old(issuance),
                subject@,
                now as int,
                elapsed,
                *issuance,
                outcome,
            );
        assert(issue_settled(
            *codec,
            *old(issuance),
            subject@,
            now as int,
            elapsed,
            *issuance,
            outcome,
        ));
        lemma_clock_reading_is_bounded(now as int);
    }
    outcome
}

/// Verifies `token` as of `now`, and counts the verification.
pub fn verify_at(
    codec: &TokenCodec,
    verification: &mut OperationStats,
    token: &str,
    now: i64,
) -> (outcome: Result<String, VerificationError>)
    ensures
        exists|elapsed: u128| #[trigger]
            verify_settled(
                *codec,
                *old(verification),
                token@,
                now as int,
                elapsed,
                *final(verification),
                outcome,
            ),
{
    let start = Instant::now();
    let decoded = codec.decode(token, now);
    let elapsed = start.elapsed().as_millis();
    let outcome = conclude_verify(verification, decoded, elapsed);
    assert(verify_settled(
        *codec,
        *old(verification),
        token@,
        now as int,
        elapsed,
        *verification,
        outcome,
    ));
    outcome
}

/// Verifies `token` as of the wall clock, and counts the verification.
pub fn verify(codec: &TokenCodec, verification: &mut OperationStats, token: &str) -> (outcome:
    Result<String, VerificationError>)
    ensures
        exists|now: i64, elapsed: u128|
            clock_reading(now as int) && #[trigger] verify_settled(
                *codec,
                *old(verification),
                token@,
                now as int,
                elapsed,
                *final(verification),
                outcome,
            ),
{
    let now = unix_now();
    let outcome = verify_at(codec, verification, token, now);
    proof {
        let elapsed = choose|elapsed: u128| #[trigger]
            verify_settled(
                *codec,
                *old(verification),
                token@,
                now as int,
                elapsed,
                *verification,
                outcome,
            );
        assert(verify_settled(
            *codec,
            *old(verification),
            token@,
            now as int,
            elapsed,
            *verification,
            outcome,
        ));
    }
    outcome
}

/// What `verify` refuses, whatever the clock reads: a token whose header
/// names another algorithm than the required one, for that reason; a
/// token whose expiry has passed, whether or not its signature holds;
/// and so no subject is ever returned for a token at or after its
/// expiry.
pub proof fn lemma_verify_refusals(
    codec: TokenCodec,
    token: Seq<char>,
    now: int,
    outcome: Result<String, VerificationError>,
)
    ensures
        verify_returns(codec, token, now, outcome) ==> {
            &&& ({
                &&& header_outcome(token) matches Ok(alg)
                &&& alg != required_algorithm()
            }) ==> outcome == Err::<String, VerificationError>(VerificationError::AlgorithmMismatch)
            &&& ({
                &&& payload_outcome(token, codec.keys.verifying) matches Ok(raw)
                &&& raw.exp matches Some(exp)
                &&& exp <= now
            }) ==> outcome is Err
            &&& outcome is Ok ==> (codec.decoded(token, now) matches Ok(claims) && claims.exp > now)
        },
{
    lemma_expired_is_refused(codec, token, now);
    lemma_other_algorithm_is_refused(codec, token, now);
}

/// Every verification counts, the refused ones too: unless a counter is
/// at its limit, the count has grown by one and the total by the time
/// that the decoding took.
pub proof fn lemma_every_verification_counts(
    codec: TokenCodec,
    before: OperationStats,
    token: Seq<char>,
    now: int,
    elapsed: u128,
    after: OperationStats,
    outcome: Result<String, VerificationError>,
)
    requires
        before.can_record(elapsed),
    ensures
        verify_settled(codec, before, token, now, elapsed, after, outcome) ==> {
            &&& after.count == before.count + 1
            &&& after.total_millis == before.total_millis + elapsed
        },
{
}

/// Every issuance for a subject counts, with or without a token at its
/// end, and none for the empty subject does: unless a counter is at its
/// limit, the count has grown by one and the total by the time that the
/// encoding took.
pub proof fn lemma_every_issuance_counts(
    codec: TokenCodec,
    before: OperationStats,
    subject: Seq<char>,
    now: int,
    elapsed: u128,
    after: OperationStats,
    outcome: Result<Issued, IssueError>,
)
    requires
        before.can_record(elapsed),
    ensures
        issue_settled(codec, before, subject, now, elapsed, after, outcome) ==> {
            &&& subject.len() > 0 ==> after.count == before.count + 1
            &&& subject.len() > 0 ==> after.total_millis == before.total_millis + elapsed
            &&& subject.len() == 0 ==> after == before
            &&& outcome is Ok ==> after.count == before.count + 1
        },
{
}

/// The round trip through the service, as far as it is this library's
/// own: if a token was issued for a subject, and the reader finds the
/// required algorithm in it and gives back the claims that were signed,
/// then every verification before the expiry returns that subject.
pub proof fn lemma_issued_token_verifies(
    codec: TokenCodec,
    subject: Seq<char>,
    issued_at: int,
    issued: Issued,
    checked_at: int,
    verified: Result<String, VerificationError>,
)
    ensures
        ({
            &&& issue_returns(codec, subject, issued_at, issued.elapsed_millis, Ok(issued))
            &&& verify_returns(codec, issued.token@, checked_at, verified)
            &&& header_verdict(header_outcome(issued.token@)) is Ok
            &&& payload_outcome(issued.token@, codec.keys.verifying) matches Ok(raw)
            &&& raw.claims() == Some(ClaimsView::issued(subject, issued_at))
            &&& checked_at < issued_at + VALIDITY_SECONDS
        }) ==> (verified matches Ok(name) && name@ == subject),
{
    lemma_issued_token_decodes(codec, subject, issued_at, issued.token@, checked_at);
}

} // verus!
