//! A matcher for HTTP status codes that accepts the permanent redirect.

use vstd::prelude::*;

verus! {

/// Whether `http::StatusCode::from_u16` accepts `code`: it does exactly for
/// the three-digit codes `100..=999`.
#[verifier::external_body]
fn http_accepts_status(code: u16) -> (r: bool)
    ensures
        r == (100 <= code && code <= 999),
{
    http::StatusCode::from_u16(code).is_ok()
}

/// An HTTP status code: a number from 100 to 999.
#[derive(Debug, Clone, Copy, PartialEq, Eq, Structural)]
pub struct StatusCode {
    code: u16,
}

impl View for StatusCode {
    type V = u16;

    closed spec fn view(&self) -> u16 {
        self.code
    }
}

impl StatusCode {
    #[verifier::type_invariant]
    spec fn three_digits(self) -> bool {
        100 <= self.code <= 999
    }

    /// The status with number `code`, when that is a valid status number.
    pub fn from_u16(code: u16) -> (r: Option<StatusCode>)
        ensures
            r is Some <==> 100 <= code <= 999,
            r matches Some(s) ==> s@ == code,
    {
        if http_accepts_status(code) {
            Some(StatusCode { code })
        } else {
            None
        }
    }

    /// The number of this status.
    pub fn as_u16(&self) -> (r: u16)
        ensures
            r == self@,
            100 <= r <= 999,
    {
        proof { use_type_invariant(self); }
        self.code
    }

    /// 200 OK.
    pub fn ok() -> (s: StatusCode)
        ensures
            s@ == 200,
    {
        StatusCode { code: 200 }
    }

    /// 301 Moved Permanently.
    pub fn moved_permanently() -> (s: StatusCode)
        ensures
            s@ == 301,
    {
        StatusCode { code: 301 }
    }
}

/// The verdict of a matcher on a value.
#[derive(Debug, Clone, Copy, PartialEq, Eq, Structural)]
pub enum MatcherResult {
    Match,
    NoMatch,
}

/// Accepts the status 301 Moved Permanently and nothing else.
#[derive(Debug, Clone, Copy)]
pub struct CustomMatcher;

/// What the redirect matcher says of the status numbered `code`.
pub open spec fn redirect_verdict(code: u16) -> MatcherResult {
    if code == 301 {
        MatcherResult::Match
    } else {
        MatcherResult::NoMatch
    }
}

/// How the redirect matcher describes a verdict.
pub open spec fn redirect_description(result: MatcherResult) -> Seq<char> {
    match result {
        MatcherResult::Match => "is a redirection code"@,
        MatcherResult::NoMatch => "which isn't a redirection code"@,
    }
}

impl CustomMatcher {
    /// Matches 301 Moved Permanently.
    pub fn matches(&self, actual: &StatusCode) -> (r: MatcherResult)
        ensures
            r == redirect_verdict(actual@),
            (r == MatcherResult::Match) <==> actual@ == 301,
            (r == MatcherResult::NoMatch) <==> actual@ != 301,
    {
        if *actual == StatusCode::moved_permanently() {
            MatcherResult::Match
        } else {
            MatcherResult::NoMatch
        }
    }

    /// Describes what a verdict of this matcher means.
    pub fn describe(&self, matcher_result: MatcherResult) -> (d: String)
        ensures
            d@ == redirect_description(matcher_result),
    {
        match matcher_result {
            MatcherResult::Match => "is a redirection code".to_owned(),
            MatcherResult::NoMatch => "which isn't a redirection code".to_owned(),
        }
    }
}

/// The matcher of permanent redirects.
pub fn is_redirect() -> (r: CustomMatcher)
    ensures
        r == CustomMatcher,
{
    CustomMatcher
}

/// The redirect matcher says `Match` for the status 301 Moved Permanently
/// and `NoMatch` for every other status.
pub proof fn lemma_only_moved_permanently_matches(code: u16)
    ensures
        (redirect_verdict(code) == MatcherResult::Match) <==> code == 301,
        (redirect_verdict(code) == MatcherResult::NoMatch) <==> code != 301,
{
}

} // verus!
