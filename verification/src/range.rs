//! Time ranges and their resolution into the three query parameters the
//! server understands.

use vstd::prelude::*;

verus! {

/// A caller's time filter.
#[derive(Clone, Debug)]
pub enum Range {
    /// No bound at all.
    AllTime,
    /// A named bucket relative to now, such as `today` or `month`.
    In(String),
    /// The interval from the first instant up to, not including, the second,
    /// both in seconds since the Unix epoch.
    FromUntil(i64, i64),
}

/// The three wire parameters as mathematical values: the lower bound, the
/// upper bound and the relative token.
pub struct ResolvedRange {
    pub from: Option<i64>,
    pub until: Option<i64>,
    pub token: Option<Seq<char>>,
}

impl ResolvedRange {
    /// Both absolute bounds are present.
    pub open spec fn has_interval(self) -> bool {
        self.from is Some && self.until is Some
    }

    /// At least one absolute bound is present.
    pub open spec fn mentions_interval(self) -> bool {
        self.from is Some || self.until is Some
    }

    /// The relative token is present.
    pub open spec fn has_token(self) -> bool {
        self.token is Some
    }
}

impl Range {
    /// What the server is sent for this range.
    pub open spec fn resolved(self) -> ResolvedRange {
        match self {
            Range::AllTime => ResolvedRange { from: None, until: None, token: None },
            Range::In(token) => ResolvedRange { from: None, until: None, token: Some(token@) },
            Range::FromUntil(from, until) => ResolvedRange {
                from: Some(from),
                until: Some(until),
                token: None,
            },
        }
    }
}

/// The mathematical value of a resolved triple.
pub open spec fn resolved_view(parts: (Option<i64>, Option<i64>, Option<String>)) -> ResolvedRange {
    ResolvedRange {
        from: parts.0,
        until: parts.1,
        token: match parts.2 {
            Some(token) => Some(token@),
            None => None,
        },
    }
}

/// Resolves a range into `(from, until, in)`.
pub fn process_range(range: Range) -> (parts: (Option<i64>, Option<i64>, Option<String>))
    ensures
        resolved_view(parts) == range.resolved(),
        !(resolved_view(parts).mentions_interval() && resolved_view(parts).has_token()),
{
    match range {
        Range::AllTime => (None, None, None),
        Range::In(token) => (None, None, Some(token)),
        Range::FromUntil(from, until) => (Some(from), Some(until), None),
    }
}

/// A resolved range never carries both an absolute bound and a relative
/// token: it holds the full interval, or the token alone, or nothing.
pub proof fn lemma_resolution_is_exclusive(range: Range)
    ensures
        !(range.resolved().mentions_interval() && range.resolved().has_token()),
        range.resolved().mentions_interval() ==> range.resolved().has_interval(),
        range is AllTime <==> !range.resolved().mentions_interval() && !range.resolved().has_token(),
        range is In <==> range.resolved().has_token(),
        range is FromUntil <==> range.resolved().has_interval(),
{
}

} // verus!
