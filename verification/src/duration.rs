//! The `TimeHms` value type: a non-negative count of seconds decomposed
//! into hours, minutes and seconds.

use vstd::prelude::*;

use crate::arith::divmod;
use crate::digits::pad2;
use crate::digits::push_padded;
use crate::digits::spec_decimal;

verus! {

/// The single error kind: a negative seconds count was supplied.
#[derive(Debug, Clone, Copy, PartialEq, Eq, Structural)]
pub enum TimeHmsError {
    InvalidInput,
}

/// A duration in seconds, decomposed into hours, minutes and seconds.
///
/// Values are immutable once constructed and always well formed:
/// `minutes` and `seconds` lie in `[0, 59]`.
#[derive(Debug, Clone, Copy, PartialEq, Eq, Structural)]
pub struct TimeHms {
    h: u64,
    m: u64,
    s: u64,
}

impl TimeHms {
    /// The hour field, as seen by specifications.
    pub closed spec fn hours(self) -> u64 {
        self.h
    }

    /// The minute field, as seen by specifications.
    pub closed spec fn minutes(self) -> u64 {
        self.m
    }

    /// The second field, as seen by specifications.
    pub closed spec fn secs(self) -> u64 {
        self.s
    }

    /// Well-formedness: minutes and seconds are less than sixty.
    pub open spec fn wf(self) -> bool {
        self.minutes() < 60 && self.secs() < 60
    }

    /// The total count of seconds that the three fields stand for.
    pub open spec fn total_seconds(self) -> int {
        self.hours() * 3600 + self.minutes() * 60 + self.secs()
    }

    /// Converts a duration from a representation in seconds into a
    /// representation in hours, minutes and seconds.
    ///
    /// A negative count is rejected with `InvalidInput`; no value is
    /// constructed in that case.
    pub fn new(seconds: i64) -> (r: Result<TimeHms, TimeHmsError>)
        ensures
            r is Ok <==> seconds >= 0,
            seconds < 0 ==> r == Err::<TimeHms, TimeHmsError>(TimeHmsError::InvalidInput),
            r matches Ok(t) ==> {
                &&& t.wf()
                &&& t.total_seconds() == seconds
                &&& t.hours() == seconds as int / 3600
                &&& t.minutes() == (seconds as int / 60) % 60
                &&& t.secs() == seconds as int % 60
            },
    {
        if seconds < 0 {
            return Err(TimeHmsError::InvalidInput);
        }
        let total = seconds as u64;
        let (m, s) = divmod(total, 60);
        let (h, m) = divmod(m, 60);
        proof {
            lemma_decompose(total as int);
        }
        Ok(TimeHms { h, m, s })
    }

    /// The `HH:MM:SS` rendering of the duration: the three fields as
    /// decimal numerals, each zero-padded to at least two characters,
    /// joined by colons.
    pub open spec fn spec_format(self) -> Seq<char> {
        pad2(spec_decimal(self.hours() as nat)) + seq![':'] + pad2(
            spec_decimal(self.minutes() as nat),
        ) + seq![':'] + pad2(spec_decimal(self.secs() as nat))
    }

    /// Renders the duration as `HH:MM:SS`. Each field is zero-padded to
    /// at least two digits; a large hour field is never truncated.
    pub fn to_string(&self) -> (r: String)
        ensures
            r@ == self.spec_format(),
    {
        let mut out = String::new();
        push_padded(&mut out, self.h);
        proof {
            reveal_strlit(":");
        }
        out.append(":");
        push_padded(&mut out, self.m);
        out.append(":");
        push_padded(&mut out, self.s);
        proof {
            assert(out@ =~= self.spec_format());
        }
        out
    }

    /// Returns the hour part of the duration.
    pub fn h(&self) -> (r: u64)
        ensures
            r == self.hours(),
    {
        self.h
    }

    /// Returns the minute part of the duration.
    pub fn m(&self) -> (r: u64)
        ensures
            r == self.minutes(),
    {
        self.m
    }

    /// Returns the seconds part of the duration.
    pub fn s(&self) -> (r: u64)
        ensures
            r == self.secs(),
    {
        self.s
    }
}

/// A well-formed duration's fields are determined by its total: the
/// decomposition of a seconds count into hours, minutes and seconds
/// with minutes and seconds below sixty is unique.
proof fn lemma_fields_from_total(t: TimeHms)
    requires
        t.wf(),
    ensures
        t.hours() == t.total_seconds() / 3600,
        t.minutes() == (t.total_seconds() / 60) % 60,
        t.secs() == t.total_seconds() % 60,
{
    let total = t.total_seconds();
    vstd::arithmetic::div_mod::lemma_fundamental_div_mod_converse(
        total,
        3600,
        t.hours() as int,
        t.minutes() * 60 + t.secs(),
    );
    vstd::arithmetic::div_mod::lemma_fundamental_div_mod_converse(
        total,
        60,
        t.hours() * 60 + t.minutes(),
        t.secs() as int,
    );
    vstd::arithmetic::div_mod::lemma_fundamental_div_mod_converse(
        total / 60,
        60,
        t.hours() as int,
        t.minutes() as int,
    );
}

/// Two well-formed durations are equal exactly when they stand for the
/// same total count of seconds: equal seconds counts decompose to equal
/// values, differing counts to differing values.
pub proof fn lemma_eq_iff_same_total(a: TimeHms, b: TimeHms)
    requires
        a.wf(),
        b.wf(),
    ensures
        a == b <==> a.total_seconds() == b.total_seconds(),
{
    lemma_fields_from_total(a);
    lemma_fields_from_total(b);
}

/// Dividing out minutes and then hours is exact: the two quotient/remainder
/// steps recompose to the original total.
proof fn lemma_decompose(total: int)
    requires
        total >= 0,
    ensures
        (total / 3600) * 3600 + ((total / 60) % 60) * 60 + total % 60 == total,
        total / 60 / 60 == total / 3600,
{
    vstd::arithmetic::div_mod::lemma_fundamental_div_mod(total, 60);
    vstd::arithmetic::div_mod::lemma_fundamental_div_mod(total / 60, 60);
    vstd::arithmetic::div_mod::lemma_div_denominator(total, 60, 60);
    vstd::arithmetic::div_mod::lemma_fundamental_div_mod(total, 3600);
}

} // verus!
