//! The payload of a token: who it names and for how long.

use vstd::prelude::*;

use crate::views::some_view;

verus! {

/// How long a token stays valid after its issue: 24 hours, in seconds.
pub const VALIDITY_SECONDS: i64 = 86_400;

/// What a token states: its subject, and the Unix seconds of its issue
/// and of its expiry.
#[derive(Clone, Debug)]
pub struct Claims {
    pub sub: String,
    pub exp: i64,
    pub iat: i64,
}

/// The claims as mathematical values.
pub struct ClaimsView {
    pub sub: Seq<char>,
    pub exp: int,
    pub iat: int,
}

impl View for Claims {
    type V = ClaimsView;

    open spec fn view(&self) -> ClaimsView {
        ClaimsView { sub: self.sub@, exp: self.exp as int, iat: self.iat as int }
    }
}

impl ClaimsView {
    /// The claims of a token issued for `subject` at `now`.
    pub open spec fn issued(subject: Seq<char>, now: int) -> ClaimsView {
        ClaimsView { sub: subject, exp: now + VALIDITY_SECONDS, iat: now }
    }

    /// What holds of every claims record that this service issues: it
    /// names someone, and it expires one validity window after its
    /// issue.
    pub open spec fn well_formed(self) -> bool {
        &&& self.sub.len() > 0
        &&& self.exp == self.iat + VALIDITY_SECONDS
    }

    /// Whether a token with these claims is still good at `now`.
    pub open spec fn live_at(self, now: int) -> bool {
        self.exp > now
    }
}

/// Whether claims can be issued for `subject` at `now`: there is a
/// subject, and the expiry is a timestamp.
pub open spec fn issuable(subject: Seq<char>, now: int) -> bool {
    subject.len() > 0 && now + VALIDITY_SECONDS <= i64::MAX
}

impl Claims {
    /// The claims for a token issued to `subject` at `now`, where there
    /// are any.
    pub fn issued_at(subject: &str, now: i64) -> (r: Option<Claims>)
        ensures
            r is Some <==> issuable(subject@, now as int),
            r matches Some(claims) ==> claims@ == ClaimsView::issued(subject@, now as int),
            r matches Some(claims) ==> claims@.well_formed(),
    {
        if subject.is_empty() {
            return None;
        }
        match now.checked_add(VALIDITY_SECONDS) {
            Some(exp) => Some(Claims { sub: subject.to_owned(), exp, iat: now }),
            None => None,
        }
    }

    /// Whether the expiry lies after `now`.
    pub fn is_live_at(&self, now: i64) -> (live: bool)
        ensures
            live == self@.live_at(now as int),
    {
        self.exp > now
    }
}

/// What the payload of a token holds under the three claim names. A
/// name is absent where the payload lacks it or holds a value of
/// another type under it.
#[derive(Clone, Debug)]
pub struct RawClaims {
    pub sub: Option<String>,
    pub exp: Option<i64>,
    pub iat: Option<i64>,
}

/// A payload as mathematical values.
pub struct RawClaimsView {
    pub sub: Option<Seq<char>>,
    pub exp: Option<int>,
    pub iat: Option<int>,
}

impl View for RawClaims {
    type V = RawClaimsView;

    open spec fn view(&self) -> RawClaimsView {
        RawClaimsView {
            sub: some_view(self.sub),
            exp: match self.exp {
                Some(t) => Some(t as int),
                None => None,
            },
            iat: match self.iat {
                Some(t) => Some(t as int),
                None => None,
            },
        }
    }
}

impl RawClaimsView {
    /// The claims that the payload holds, if it holds all three.
    pub open spec fn claims(self) -> Option<ClaimsView> {
        match (self.sub, self.exp, self.iat) {
            (Some(sub), Some(exp), Some(iat)) => Some(ClaimsView { sub, exp, iat }),
            _ => None,
        }
    }
}

impl RawClaims {
    /// The claims that the payload holds, if it holds all three.
    pub fn into_claims(self) -> (r: Option<Claims>)
        ensures
            some_view(r) == self@.claims(),
    {
        match (self.sub, self.exp, self.iat) {
            (Some(sub), Some(exp), Some(iat)) => Some(Claims { sub, exp, iat }),
            _ => None,
        }
    }
}

} // verus!
