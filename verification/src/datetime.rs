//! Points in time without a time zone, as plain numbers.

use vstd::prelude::*;

verus! {

/// A date and time without a time zone: whole seconds since
/// 1970-01-01 00:00:00 and the nanoseconds into that second.
#[derive(Debug, Copy, Clone, PartialEq, Eq, Structural, Hash)]
pub struct Timestamp {
    pub secs: i64,
    pub nanos: u32,
}

impl Timestamp {
    /// `self` is strictly earlier than `other`.
    pub open spec fn before(self, other: Timestamp) -> bool {
        self.secs < other.secs || (self.secs == other.secs && self.nanos < other.nanos)
    }

    /// The nanoseconds are those of a time that `chrono` holds: fewer than
    /// two seconds' worth, as a leap second is counted into the second
    /// before it.
    pub open spec fn well_formed(self) -> bool {
        self.nanos < 2_000_000_000
    }

    pub fn new(secs: i64, nanos: u32) -> (r: Timestamp)
        ensures
            r.secs == secs,
            r.nanos == nanos,
    {
        Timestamp { secs, nanos }
    }

    /// Whether `self` is strictly earlier than `other`.
    pub fn is_before(&self, other: &Timestamp) -> (r: bool)
        ensures
            r == self.before(*other),
    {
        self.secs < other.secs || (self.secs == other.secs && self.nanos < other.nanos)
    }

    /// Whether `self` is strictly later than `other`.
    pub fn is_after(&self, other: &Timestamp) -> (r: bool)
        ensures
            r == other.before(*self),
    {
        other.is_before(self)
    }
}

/// Times are in a strict order, and any two of them are comparable: of two
/// different times one is before the other.
pub proof fn lemma_before_orders(first: Timestamp, second: Timestamp, third: Timestamp)
    ensures
        !first.before(first),
        first.before(second) && second.before(third) ==> first.before(third),
        first.before(second) ==> !second.before(first),
        first == second || first.before(second) || second.before(first),
{
}

/// What `chrono::NaiveDateTime::parse_from_str` makes of a text under a
/// format: the date and time it reads, or `None` where it reports an error.
pub uninterp spec fn chrono_parse(text: Seq<char>, format: Seq<char>) -> Option<Timestamp>;

/// Calls `chrono::NaiveDateTime::parse_from_str`. The contract gives the
/// outcome its name: the same text under the same format is read in the
/// same way every time. A date and time comes back as its seconds since
/// 1970-01-01 00:00:00 and the nanoseconds into the second; an error comes
/// back as `None`.
#[verifier::external_body]
pub(crate) fn parse_with_format(text: &str, format: &str) -> (parsed: Option<Timestamp>)
    ensures
        parsed == chrono_parse(text@, format@),
{
    match chrono::NaiveDateTime::parse_from_str(text, format) {
        Ok(read) => Some(
            Timestamp {
                secs: read.and_utc().timestamp(),
                nanos: read.and_utc().timestamp_subsec_nanos(),
            },
        ),
        Err(_) => None,
    }
}

/// Calls `chrono::Utc::now`: the time of the system clock. Which time that
/// is cannot be said. The contract claims what `chrono` documents of every
/// date and time it holds: `timestamp_subsec_nanos` is at most
/// 1,999,999,999. `chrono` does not return from the call where the clock
/// stands before 1970.
#[verifier::external_body]
pub(crate) fn current_time() -> (now: Timestamp)
    ensures
        now.well_formed(),
{
    let now = chrono::Utc::now().naive_utc();
    Timestamp { secs: now.and_utc().timestamp(), nanos: now.and_utc().timestamp_subsec_nanos() }
}

/// The time of the system clock, as seconds since 1970-01-01 00:00:00 and
/// nanoseconds into the second. Whatever the clock says, the nanoseconds are
/// those of a time that `chrono` holds.
pub fn now() -> (time: Timestamp)
    ensures
        time.well_formed(),
{
    current_time()
}

} // verus!
