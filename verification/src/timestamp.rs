//! Normalizing the store's raw time stamps.
//!
//! The store counts time in nanoseconds since 2001-01-01T00:00:00 UTC.
//! Normalizing a raw stamp truncates it to whole seconds (toward zero)
//! and rebases it onto the standard epoch, 1970-01-01T00:00:00 UTC.

use vstd::prelude::*;
use vstd::arithmetic::div_mod::{lemma_div_is_ordered, lemma_div_pos_is_pos};

verus! {

/// Seconds from 1970-01-01T00:00:00 UTC to 2001-01-01T00:00:00 UTC
/// (11323 days of 86400 seconds): the store's epoch rebased onto the
/// standard one.
pub const EPOCH_OFFSET_SECS: i64 = 978307200;

/// Nanoseconds in one second.
pub const NANOS_PER_SEC: i64 = 1000000000;

/// A calendar-free UTC time stamp: whole seconds since the standard
/// epoch, 1970-01-01T00:00:00 UTC.
#[derive(Clone, Copy, PartialEq, Eq, Structural, Debug)]
pub struct Timestamp {
    pub secs: i64,
}

/// The UTC calendar text that denotes a given second count, as the
/// calendar library renders it (e.g. `2001-01-01T00:00:00Z`).
pub uninterp spec fn utc_text_of(secs: int) -> Seq<char>;

impl Timestamp {
    /// Every stamp the normalizer can produce: a raw stamp is at most
    /// `i64::MAX` nanoseconds in magnitude, so the rebased second count
    /// stays within these bounds — a window of roughly the year 1709 to
    /// the year 2293, far inside the calendar library's representable
    /// range.
    pub open spec fn wf(self) -> bool {
        -8245064836 <= self.secs <= 10201679236
    }

    /// Render the stamp as UTC calendar text.
    pub fn utc_text(&self) -> (r: String)
        requires
            self.wf(),
        ensures
            r@ == utc_text_of(self.secs as int),
    {
        utc_calendar_text(self.secs)
    }
}

/// Relies on chrono's `DateTime::<Utc>::from_timestamp` and the `Debug`
/// rendering of `DateTime<Utc>`: the text is a function of the second
/// count alone, and every second count the admitted range allows maps
/// to a day number far inside `NaiveDate`'s range, so `from_timestamp`
/// returns `Some`.
#[verifier::external_body]
fn utc_calendar_text(secs: i64) -> (r: String)
    requires
        -8245064836 <= secs <= 10201679236,
    ensures
        r@ == utc_text_of(secs as int),
{
    let dt = chrono::DateTime::<chrono::Utc>::from_timestamp(secs, 0).unwrap();
    format!("{:?}", dt)
}

/// Division of a raw stamp by 10^9, truncating toward zero.
pub open spec fn trunc_div_nanos(raw: int) -> int {
    if raw >= 0 {
        raw / 1000000000
    } else {
        -((-raw) / 1000000000)
    }
}

/// The UTC second (standard epoch) that a raw store stamp denotes.
pub open spec fn normalize_spec(raw: int) -> int {
    trunc_div_nanos(raw) + 978307200
}

/// Truncating toward zero never enlarges the magnitude of the quotient.
proof fn lemma_trunc_div_nanos_bounds(raw: int)
    requires
        i64::MIN <= raw <= i64::MAX,
    ensures
        -9223372036 <= trunc_div_nanos(raw) <= 9223372036,
{
    if raw >= 0 {
        lemma_div_pos_is_pos(raw, 1000000000);
        lemma_div_is_ordered(raw, 0x7fffffffffffffffint, 1000000000);
        assert(0x7fffffffffffffffint / 1000000000 == 9223372036);
    } else {
        lemma_div_pos_is_pos(-raw, 1000000000);
        lemma_div_is_ordered(-raw, 0x8000000000000000int, 1000000000);
        assert(0x8000000000000000int / 1000000000 == 9223372036);
    }
}

/// Normalize a raw store stamp to a whole-second UTC time stamp.
pub fn normalize(raw: i64) -> (ts: Timestamp)
    ensures
        ts.secs == normalize_spec(raw as int),
        ts.wf(),
{
    proof {
        lemma_trunc_div_nanos_bounds(raw as int);
    }
    // The divisor is a positive constant and the quotient shrinks, so
    // the checked division never fails; the arm below is unreachable.
    let seconds_since_store_epoch: i64 = match raw.checked_div(NANOS_PER_SEC) {
        Some(q) => q,
        None => 0,
    };
    Timestamp { secs: seconds_since_store_epoch + EPOCH_OFFSET_SECS }
}

/// Normalizing keeps the order of raw stamps: a message sent no later
/// than another never normalizes to a later second.
pub proof fn lemma_normalize_monotonic(a: int, b: int)
    requires
        a <= b,
    ensures
        normalize_spec(a) <= normalize_spec(b),
{
    if a >= 0 {
        lemma_div_is_ordered(a, b, 1000000000);
    } else if b >= 0 {
        lemma_div_pos_is_pos(-a, 1000000000);
        lemma_div_pos_is_pos(b, 1000000000);
    } else {
        lemma_div_is_ordered(-b, -a, 1000000000);
    }
}

} // verus!
