//! Points in time, with the offset from UTC under which they are shown.

use time::{Duration, OffsetDateTime, UtcOffset};
use vstd::prelude::*;

verus! {

/// Midnight at the start of the year -9999, in nanoseconds from the epoch.
pub const MIN_LOCAL_NANOS: i128 = -377_705_116_800_000_000_000;

/// The last nanosecond of the year 9999, counted from the epoch.
pub const MAX_LOCAL_NANOS: i128 = 253_402_300_799_999_999_999;

/// The largest distance between local time and UTC, in seconds.
pub const MAX_OFFSET_SECONDS: i32 = 93_599;

/// The description of a time of day with hours and minutes.
pub const CLOCK_FORMAT: &'static str = "[hour]:[minute]";

/// `local_nanos` lies in the years that can be represented.
pub open spec fn representable(local_nanos: int) -> bool {
    MIN_LOCAL_NANOS <= local_nanos <= MAX_LOCAL_NANOS
}

/// `offset_seconds` is an offset from UTC that can be represented.
pub open spec fn representable_offset(offset_seconds: int) -> bool {
    -MAX_OFFSET_SECONDS <= offset_seconds <= MAX_OFFSET_SECONDS
}

/// A date and time of day at some offset from UTC.
#[derive(Debug, Clone, Copy)]
pub struct Timestamp {
    /// The local date and time, in nanoseconds from 1970-01-01 00:00 local time.
    local_nanos: i128,
    /// How far local time is ahead of UTC, in seconds.
    offset_seconds: i32,
}

/// Two digits that show `value`.
pub open spec fn two_digits(value: int) -> Seq<char> {
    seq![crate::text::digit_char((value / 10) as nat), crate::text::digit_char((value % 10) as nat)]
}

/// The time of day at `local_nanos` with hours and minutes, such as `09:05`.
pub open spec fn clock_text(local_nanos: int) -> Seq<char> {
    let minutes = (local_nanos / 60_000_000_000) % 1440;
    two_digits(minutes / 60) + seq![':'] + two_digits(minutes % 60)
}

/// `nanos` in whole milliseconds, rounded towards zero.
pub open spec fn whole_millis(nanos: int) -> int {
    if nanos >= 0 {
        nanos / 1_000_000
    } else {
        -((-nanos) / 1_000_000)
    }
}

/// The current date and time in UTC, from `time::OffsetDateTime::now_utc`, as
/// nanoseconds from the epoch and an offset. The clock may show any moment
/// that can be represented; the offset is zero.
#[verifier::external_body]
fn clock_now() -> (now: (i128, i32))
    ensures
        representable(now.0 as int),
        now.1 == 0,
{
    let now = OffsetDateTime::now_utc();
    (now.replace_offset(UtcOffset::UTC).unix_timestamp_nanos(), now.offset().whole_seconds())
}

/// Adds a `time::Duration` of whole seconds to a `time::OffsetDateTime`: local
/// time moves by that many seconds and the offset stays. A sum that cannot be
/// represented would panic, so it is left out.
#[verifier::external_body]
fn shifted(local_nanos: i128, offset_seconds: i32, seconds: i64) -> (moved: (i128, i32))
    requires
        representable(local_nanos as int),
        representable_offset(offset_seconds as int),
        representable(local_nanos + seconds * 1_000_000_000),
    ensures
        moved.0 == local_nanos + seconds * 1_000_000_000,
        moved.1 == offset_seconds,
{
    let offset = UtcOffset::from_whole_seconds(offset_seconds).expect("offset in range");
    let at = OffsetDateTime::from_unix_timestamp_nanos(local_nanos).expect("time in range");
    let moved = at.replace_offset(offset) + Duration::seconds(seconds);
    (moved.replace_offset(UtcOffset::UTC).unix_timestamp_nanos(), moved.offset().whole_seconds())
}

/// The difference of two `time::OffsetDateTime` values as
/// `time::Duration::whole_milliseconds` gives it: the time that passes from
/// `earlier` to `later`, both taken in UTC, rounded towards zero.
#[verifier::external_body]
fn difference_millis(later: (i128, i32), earlier: (i128, i32)) -> (millis: i128)
    requires
        representable(later.0 as int),
        representable(earlier.0 as int),
        representable_offset(later.1 as int),
        representable_offset(earlier.1 as int),
    ensures
        millis == whole_millis(
            (later.0 - later.1 * 1_000_000_000) - (earlier.0 - earlier.1 * 1_000_000_000),
        ),
{
    let later_offset = UtcOffset::from_whole_seconds(later.1).expect("offset in range");
    let earlier_offset = UtcOffset::from_whole_seconds(earlier.1).expect("offset in range");
    let later = OffsetDateTime::from_unix_timestamp_nanos(later.0).expect("time in range");
    let earlier = OffsetDateTime::from_unix_timestamp_nanos(earlier.0).expect("time in range");
    (later.replace_offset(later_offset) - earlier.replace_offset(earlier_offset))
        .whole_milliseconds()
}

/// A `time::OffsetDateTime` written by `OffsetDateTime::format` under a parsed
/// format description. For hours and minutes on the 24-hour clock this gives
/// both with two digits, in local time, and does not fail.
#[verifier::external_body]
fn formatted(local_nanos: i128, offset_seconds: i32, description: &str) -> (shown: Option<String>)
    requires
        representable(local_nanos as int),
        representable_offset(offset_seconds as int),
        description@ == CLOCK_FORMAT@,
    ensures
        shown is Some,
        shown.unwrap()@ == clock_text(local_nanos as int),
{
    let offset = UtcOffset::from_whole_seconds(offset_seconds).expect("offset in range");
    let at = OffsetDateTime::from_unix_timestamp_nanos(local_nanos).expect("time in range");
    let description = time::format_description::parse(description).expect("valid time format");
    at.replace_offset(offset).format(&description).ok()
}

impl Timestamp {
    #[verifier::type_invariant]
    spec fn in_range(self) -> bool {
        representable(self.local_nanos as int) && representable_offset(self.offset_seconds as int)
    }

    /// The local date and time, in nanoseconds from 1970-01-01 00:00 local time.
    pub closed spec fn local(self) -> int {
        self.local_nanos as int
    }

    /// How far local time is ahead of UTC, in seconds.
    pub closed spec fn offset(self) -> int {
        self.offset_seconds as int
    }

    /// The moment meant, in nanoseconds from 1970-01-01 00:00 UTC.
    pub open spec fn instant(self) -> int {
        self.local() - self.offset() * 1_000_000_000
    }

    /// The moment `seconds` later, at the same offset.
    pub closed spec fn later_by(self, seconds: int) -> Timestamp {
        Timestamp {
            local_nanos: (self.local_nanos + seconds * 1_000_000_000) as i128,
            offset_seconds: self.offset_seconds,
        }
    }

    /// The moment `seconds` later can be represented.
    pub open spec fn can_move_by(self, seconds: int) -> bool {
        representable(self.local() + seconds * 1_000_000_000)
    }

    /// Moving by `seconds` moves local time and keeps the offset.
    pub proof fn lemma_later_by(self, seconds: int)
        requires
            self.can_move_by(seconds),
        ensures
            self.later_by(seconds).local() == self.local() + seconds * 1_000_000_000,
            self.later_by(seconds).offset() == self.offset(),
            self.later_by(seconds).instant() == self.instant() + seconds * 1_000_000_000,
    {
    }

    /// The point in time with the given local time and offset, if it can be
    /// represented.
    pub fn new(local_nanos: i128, offset_seconds: i32) -> (at: Option<Timestamp>)
        ensures
            at is Some <==> representable(local_nanos as int) && representable_offset(
                offset_seconds as int,
            ),
            at matches Some(t) ==> t.local() == local_nanos && t.offset() == offset_seconds,
    {
        if MIN_LOCAL_NANOS <= local_nanos && local_nanos <= MAX_LOCAL_NANOS && -MAX_OFFSET_SECONDS
            <= offset_seconds && offset_seconds <= MAX_OFFSET_SECONDS {
            Some(Timestamp { local_nanos, offset_seconds })
        } else {
            None
        }
    }

    /// 1970-01-01 00:00 UTC.
    pub fn unix_epoch() -> (at: Timestamp)
        ensures
            at.local() == 0,
            at.offset() == 0,
    {
        Timestamp { local_nanos: 0, offset_seconds: 0 }
    }

    /// The current time in UTC.
    pub fn now_utc() -> (at: Timestamp)
        ensures
            is_clock_reading(at),
    {
        let (local_nanos, offset_seconds) = clock_now();
        Timestamp { local_nanos, offset_seconds }
    }

    /// The local date and time, in nanoseconds from 1970-01-01 00:00 local time.
    pub fn local_nanos(&self) -> (nanos: i128)
        ensures
            nanos == self.local(),
    {
        self.local_nanos
    }

    /// How far local time is ahead of UTC, in seconds.
    pub fn offset_seconds(&self) -> (seconds: i32)
        ensures
            seconds == self.offset(),
    {
        self.offset_seconds
    }

    /// Whether the moment `seconds` later can be represented.
    pub fn can_move(&self, seconds: i64) -> (can: bool)
        ensures
            can == self.can_move_by(seconds as int),
    {
        proof {
            use_type_invariant(self);
        }
        let moved: i128 = self.local_nanos + seconds as i128 * 1_000_000_000;
        MIN_LOCAL_NANOS <= moved && moved <= MAX_LOCAL_NANOS
    }

    /// The moment `seconds` later.
    pub fn plus_seconds(&self, seconds: i64) -> (at: Timestamp)
        requires
            self.can_move_by(seconds as int),
        ensures
            at == self.later_by(seconds as int),
    {
        proof {
            use_type_invariant(self);
        }
        let (local_nanos, offset_seconds) = shifted(
            self.local_nanos,
            self.offset_seconds,
            seconds,
        );
        Timestamp { local_nanos, offset_seconds }
    }

    /// The whole milliseconds from `earlier` to this moment, rounded towards
    /// zero.
    pub fn millis_since(&self, earlier: &Timestamp) -> (millis: i128)
        ensures
            millis == whole_millis(self.instant() - earlier.instant()),
            i64::MIN <= millis <= i64::MAX,
    {
        proof {
            use_type_invariant(self);
            use_type_invariant(earlier);
        }
        difference_millis(
            (self.local_nanos, self.offset_seconds),
            (earlier.local_nanos, earlier.offset_seconds),
        )
    }

    /// The local time of day with hours and minutes, or `None` if it cannot be
    /// shown.
    pub fn clock(&self) -> (shown: Option<String>)
        ensures
            shown matches Some(text) && text@ == clock_text(self.local()),
    {
        proof {
            use_type_invariant(self);
        }
        formatted(self.local_nanos, self.offset_seconds, CLOCK_FORMAT)
    }
}

/// `at` is a moment that the clock may show: one that can be represented, in
/// UTC.
pub open spec fn is_clock_reading(at: Timestamp) -> bool {
    representable(at.local()) && at.offset() == 0
}

impl PartialEq for Timestamp {
    /// Two timestamps are equal where they mean the same moment.
    fn eq(&self, other: &Timestamp) -> (same: bool) {
        proof {
            use_type_invariant(self);
            use_type_invariant(other);
        }
        self.local_nanos - self.offset_seconds as i128 * 1_000_000_000 == other.local_nanos
            - other.offset_seconds as i128 * 1_000_000_000
    }
}

impl vstd::std_specs::cmp::PartialEqSpecImpl for Timestamp {
    open spec fn obeys_eq_spec() -> bool {
        true
    }

    open spec fn eq_spec(&self, other: &Timestamp) -> bool {
        self.instant() == other.instant()
    }
}

impl Eq for Timestamp {

}

/// Two timestamps are equal exactly if they mean the same moment, at whatever
/// offsets they are shown.
pub proof fn equal_timestamps_mean_the_same_moment(first: Timestamp, second: Timestamp)
    ensures
        vstd::std_specs::cmp::PartialEqSpec::eq_spec(&first, &second) <==> first.local()
            - second.local() == (first.offset() - second.offset()) * 1_000_000_000,
{
}

} // verus!
