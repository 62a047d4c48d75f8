//! The ceiling of the call counter as it is configured: a decimal number in
//! a text, or the default where there is none or it cannot be read.

use vstd::prelude::*;
use crate::stats::{effective_ceiling, Stats, StatsView, DEFAULT_MAX_CALL};

verus! {

/// An ASCII decimal digit.
pub open spec fn is_digit(c: char) -> bool {
    '0' <= c <= '9'
}

/// The number that a sequence of decimal digits writes; zero for none.
pub open spec fn digits_value(s: Seq<char>) -> nat
    decreases s.len(),
{
    if s.len() == 0 {
        0
    } else {
        digits_value(s.drop_last()) * 10 + (s.last() as int - '0' as int) as nat
    }
}

/// The unsigned number that a text writes: an optional plus sign, then one
/// or more decimal digits and nothing else, the number no larger than
/// `u64::MAX`. Any other text writes none.
pub open spec fn parsed_u64(s: Seq<char>) -> Option<u64> {
    let digits = if s.len() > 0 && s[0] == '+' {
        s.drop_first()
    } else {
        s
    };
    if digits.len() > 0 && (forall|i: int| 0 <= i < digits.len() ==> is_digit(#[trigger] digits[i]))
        && digits_value(digits) <= u64::MAX {
        Some(digits_value(digits) as u64)
    } else {
        None
    }
}

/// The ceiling that a configured text stands for: the number it writes, or
/// the default where no text is configured or it writes no number.
pub open spec fn configured_max_call(configured: Option<Seq<char>>) -> u64 {
    match configured {
        Some(text) => match parsed_u64(text) {
            Some(value) => value,
            None => DEFAULT_MAX_CALL,
        },
        None => DEFAULT_MAX_CALL,
    }
}

/// The statistics with an unresolved ceiling resolved to `configured`, or
/// to the default where `configured` is zero; unchanged where the ceiling
/// was resolved before.
pub open spec fn resolved(s: StatsView, configured: int) -> StatsView {
    if s.ceiling < 1 {
        StatsView { ceiling: effective_ceiling(configured), ..s }
    } else {
        s
    }
}

/// `str::parse::<u64>` of the standard library reads an unsigned decimal
/// number: an optional plus sign followed by digits only. An empty text, a
/// sign alone, any other character (a minus sign, a space, an underscore)
/// and a number above `u64::MAX` are errors, which become `None` here.
#[verifier::external_body]
fn parse_u64(text: &str) -> (value: Option<u64>)
    ensures
        value == parsed_u64(text@),
{
    text.parse::<u64>().ok()
}

/// The ceiling to use for a configured text, if any: the number it writes,
/// else the default.
pub fn resolve_max_call(configured: Option<&str>) -> (ceiling: u64)
    ensures
        ceiling == configured_max_call(
            match configured {
                Some(text) => Some(text@),
                None => None,
            },
        ),
{
    match configured {
        Some(text) => match parse_u64(text) {
            Some(value) => value,
            None => DEFAULT_MAX_CALL,
        },
        None => DEFAULT_MAX_CALL,
    }
}

impl Stats {
    /// Resolves the ceiling, once: while it is unresolved it becomes
    /// `configured`, or the default where `configured` is zero. A ceiling
    /// resolved before stays.
    pub fn resolve(&mut self, configured: u64)
        ensures
            final(self)@ == resolved(old(self)@, configured as int),
            final(self).max_call >= 1,
    {
        if self.max_call < 1 {
            self.max_call = if configured < 1 {
                DEFAULT_MAX_CALL
            } else {
                configured
            };
        }
    }
}

} // verus!
