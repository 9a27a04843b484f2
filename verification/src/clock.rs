//! Instants: reading them out of text, comparing them, and the time between two of them.
use vstd::prelude::*;

verus! {

/// A point in time: whole seconds since 1970-01-01T00:00:00Z and the nanoseconds since
/// the last whole second. Inside a leap second the nanoseconds go past one thousand million.
#[derive(Clone, Copy, Debug, PartialEq, Eq, Structural)]
pub struct Instant {
    /// Whole seconds, leap seconds not counted.
    pub secs: i64,
    /// Nanoseconds since the last whole second.
    pub nanos: u32,
}

/// The seconds of a day.
pub const DAY_SECS: i64 = 86_400;

/// The nanoseconds of a second.
pub const SECOND_NANOS: i128 = 1_000_000_000;

/// The last second that a calendar date can be written for (the end of the year 262142).
pub const LAST_SECOND: i64 = 8_210_266_876_799;

/// The last second of the year 9999.
pub const LAST_FOUR_DIGIT_SECOND: i64 = 253_402_300_799;

/// The layout with a numeric offset without a colon, as in `2026-09-19T12:00:00+0000`.
pub const OFFSET_LAYOUT: &'static str = "%Y-%m-%dT%H:%M:%S%z";

impl Instant {
    /// `self` lies before `other`.
    pub open spec fn before(self, other: Instant) -> bool {
        self.secs < other.secs || (self.secs == other.secs && self.nanos < other.nanos)
    }

    /// The second of the day.
    pub open spec fn day_second(self) -> int {
        self.secs as int % DAY_SECS as int
    }

    /// The nanoseconds from `earlier` to `self`, negative where `earlier` is the later one.
    ///
    /// A leap second that one of the two stands in counts where the other stands at an
    /// earlier (or later) second of its day.
    pub open spec fn nanos_from(self, earlier: Instant) -> int {
        let leap: int = if self.day_second() > earlier.day_second() && earlier.nanos
            >= SECOND_NANOS {
            1
        } else if self.day_second() < earlier.day_second() && self.nanos >= SECOND_NANOS {
            -1
        } else {
            0
        };
        (self.secs - earlier.secs + leap) * SECOND_NANOS + (self.nanos - earlier.nanos)
    }

    /// Whether `self` lies before `other`.
    pub fn is_before(&self, other: &Instant) -> (r: bool)
        ensures
            r == self.before(*other),
    {
        self.secs < other.secs || (self.secs == other.secs && self.nanos < other.nanos)
    }

    /// The nanoseconds from `earlier` to `self`.
    pub fn since(&self, earlier: &Instant) -> (r: i128)
        ensures
            r == self.nanos_from(*earlier),
    {
        let mine: i128 = day_second_of(self.secs);
        let theirs: i128 = day_second_of(earlier.secs);
        let mut secs: i128 = self.secs as i128 - earlier.secs as i128;
        if mine > theirs && earlier.nanos as i128 >= SECOND_NANOS {
            secs = secs + 1;
        } else if mine < theirs && self.nanos as i128 >= SECOND_NANOS {
            secs = secs - 1;
        }
        secs * SECOND_NANOS + (self.nanos as i128 - earlier.nanos as i128)
    }
}

/// The second of the day of a time in seconds, for times before 1970 too.
fn day_second_of(secs: i64) -> (r: i128)
    ensures
        r == secs as int % DAY_SECS as int,
{
    if secs >= 0 {
        (secs % DAY_SECS) as i128
    } else {
        let back: i64 = -((secs + 1)) % DAY_SECS;
        (DAY_SECS - 1 - back) as i128
    }
}

/// The instant that a text in the RFC 3339 layout names; nothing for any other text.
pub uninterp spec fn rfc3339_instant(text: Seq<char>) -> Option<Instant>;

/// The instant that a text names in a given `strftime` layout with an offset; nothing for a
/// text that does not follow the layout.
pub uninterp spec fn layout_instant(text: Seq<char>, layout: Seq<char>) -> Option<Instant>;

/// The RFC 3339 text of an instant, in UTC.
pub uninterp spec fn rfc3339_text(secs: i64, nanos: u32) -> Seq<char>;

/// The instant that a post's time names: RFC 3339 first, then [`OFFSET_LAYOUT`].
pub open spec fn instant_of(text: Seq<char>) -> Option<Instant> {
    match rfc3339_instant(text) {
        Some(t) => Some(t),
        None => layout_instant(text, OFFSET_LAYOUT@),
    }
}

/// `chrono::DateTime::parse_from_rfc3339`: the instant that it reads is
/// [`rfc3339_instant`] of the text, and an error is `None`.
#[verifier::external_body]
pub(crate) fn parse_rfc3339(text: &str) -> (r: Option<Instant>)
    ensures
        r == rfc3339_instant(text@),
{
    match chrono::DateTime::parse_from_rfc3339(text) {
        Ok(t) => Some(Instant { secs: t.timestamp(), nanos: t.timestamp_subsec_nanos() }),
        Err(_) => None,
    }
}

/// `chrono::DateTime::parse_from_str`: the instant that it reads is [`layout_instant`] of
/// the text and the layout, and an error is `None`.
#[verifier::external_body]
fn parse_layout(text: &str, layout: &str) -> (r: Option<Instant>)
    ensures
        r == layout_instant(text@, layout@),
{
    match chrono::DateTime::parse_from_str(text, layout) {
        Ok(t) => Some(Instant { secs: t.timestamp(), nanos: t.timestamp_subsec_nanos() }),
        Err(_) => None,
    }
}

/// `chrono::DateTime::to_rfc3339` of the instant in UTC: the text is [`rfc3339_text`] of its
/// parts. For the years 0 to 9999 reading that text back gives the same instant; a later
/// year is written with a sign, which the reader refuses.
#[verifier::external_body]
fn write_rfc3339(at: &Instant) -> (r: String)
    requires
        0 <= at.secs <= LAST_SECOND,
        at.nanos < SECOND_NANOS,
    ensures
        r@ == rfc3339_text(at.secs, at.nanos),
        at.secs <= LAST_FOUR_DIGIT_SECOND ==> rfc3339_instant(r@) == Some(*at),
{
    chrono::DateTime::from_timestamp(at.secs, at.nanos).unwrap().to_rfc3339()
}

/// Reads a post's time: RFC 3339, or the layout with an offset without a colon.
pub fn parse_ts(text: &str) -> (r: Option<Instant>)
    ensures
        r == instant_of(text@),
{
    match parse_rfc3339(text) {
        Some(t) => Some(t),
        None => parse_layout(text, OFFSET_LAYOUT),
    }
}

/// A reading of the clock: not before 1970, not inside a leap second, and a date that can be
/// written.
pub open spec fn clock_reading(now: Instant) -> bool {
    0 <= now.secs <= LAST_SECOND && now.nanos < SECOND_NANOS
}

/// Whether an instant is a reading of the clock.
pub fn is_clock_reading(now: &Instant) -> (r: bool)
    ensures
        r == clock_reading(*now),
{
    0 <= now.secs && now.secs <= LAST_SECOND && (now.nanos as i128) < SECOND_NANOS
}

/// The text of a reading of the clock, which up to the year 9999 reads back as that instant.
pub fn stamp(now: &Instant) -> (r: String)
    requires
        clock_reading(*now),
    ensures
        r@ == rfc3339_text(now.secs, now.nanos),
        now.secs <= LAST_FOUR_DIGIT_SECOND ==> rfc3339_instant(r@) == Some(*now),
{
    write_rfc3339(now)
}

/// A lifetime that was granted: present and longer than nothing.
pub open spec fn granted(expires_in: Option<i64>) -> Option<i64> {
    match expires_in {
        Some(s) => if s > 0 {
            Some(s)
        } else {
            None
        },
        None => None,
    }
}

/// The end of a granted lifetime that starts at `now`.
pub open spec fn expiry_instant(now: Instant, expires_in: Option<i64>) -> Option<Instant> {
    match granted(expires_in) {
        Some(s) => Some(Instant { secs: (now.secs + s) as i64, nanos: now.nanos }),
        None => None,
    }
}

/// `now` is a reading of the clock and the end of the lifetime is a date that can be written.
pub open spec fn expiry_in_range(now: Instant, expires_in: Option<i64>) -> bool {
    granted(expires_in) matches Some(s) ==> {
        &&& 0 <= now.secs
        &&& now.nanos < SECOND_NANOS
        &&& now.secs + s <= LAST_SECOND
    }
}

/// Whether the end of the lifetime can be written.
pub fn expiry_fits(now: &Instant, expires_in: Option<i64>) -> (r: bool)
    ensures
        r == expiry_in_range(*now, expires_in),
{
    match expires_in {
        Some(s) => s <= 0 || (0 <= now.secs && (now.nanos as i128) < SECOND_NANOS
            && now.secs as i128 + s as i128 <= LAST_SECOND as i128),
        None => true,
    }
}

/// The text of the end of a token's lifetime; nothing where no lifetime was granted.
pub fn expiry_from(now: &Instant, expires_in: Option<i64>) -> (r: Option<String>)
    requires
        expiry_in_range(*now, expires_in),
    ensures
        r is Some <==> granted(expires_in) is Some,
        r matches Some(text) ==> ({
            let end = expiry_instant(*now, expires_in)->0;
            &&& text@ == rfc3339_text(end.secs, end.nanos)
            &&& end.secs <= LAST_FOUR_DIGIT_SECOND ==> rfc3339_instant(text@) == Some(end)
        }),
{
    match expires_in {
        Some(s) => {
            if s <= 0 {
                return None;
            }
            Some(write_rfc3339(&Instant { secs: now.secs + s, nanos: now.nanos }))
        },
        None => None,
    }
}

/// Time order is a strict order on instants: of two different ones exactly one is before
/// the other, and the order is transitive.
pub proof fn law_before_is_total(a: Instant, b: Instant, c: Instant)
    ensures
        !a.before(a),
        a == b || a.before(b) || b.before(a),
        !(a.before(b) && b.before(a)),
        a.before(b) && b.before(c) ==> a.before(c),
{
}

/// Outside leap seconds the time between two instants is the difference of their nanoseconds
/// since 1970, so it is positive exactly where the second lies before the first.
pub proof fn law_time_between_is_a_difference(a: Instant, b: Instant)
    requires
        a.nanos < 1_000_000_000,
        b.nanos < 1_000_000_000,
    ensures
        a.nanos_from(b) == (a.secs * 1_000_000_000 + a.nanos) - (b.secs * 1_000_000_000 + b.nanos),
        a.nanos_from(b) > 0 <==> b.before(a),
        a.nanos_from(b) == 0 <==> a == b,
{
}

/// The time from one instant to another is that of the way back with the other sign, inside
/// leap seconds too.
pub proof fn law_way_back_is_as_long(a: Instant, b: Instant)
    ensures
        a.nanos_from(b) == -b.nanos_from(a),
        a.nanos_from(a) == 0,
{
}

/// A leap second that the earlier instant stands in is counted where the other stands later in
/// its day, and one that the later instant stands in is passed over where the other does.
pub proof fn law_leap_second_counts_by_the_day(a: Instant, b: Instant)
    ensures
        ({
            let plain = (a.secs * 1_000_000_000 + a.nanos) - (b.secs * 1_000_000_000 + b.nanos);
            let mine = a.secs as int % 86_400;
            let theirs = b.secs as int % 86_400;
            &&& mine > theirs && b.nanos >= 1_000_000_000 ==> a.nanos_from(b) == plain
                + 1_000_000_000
            &&& mine < theirs && a.nanos >= 1_000_000_000 ==> a.nanos_from(b) == plain
                - 1_000_000_000
            &&& mine == theirs ==> a.nanos_from(b) == plain
            &&& mine > theirs && b.nanos < 1_000_000_000 ==> a.nanos_from(b) == plain
            &&& mine < theirs && a.nanos < 1_000_000_000 ==> a.nanos_from(b) == plain
        }),
{
}

/// One instant lies before another by the second or, within one second, by the nanosecond.
pub proof fn law_order_goes_by_second_and_nanosecond(a: Instant, b: Instant)
    ensures
        a.secs < b.secs ==> a.before(b) && !b.before(a),
        a.secs == b.secs ==> (a.before(b) <==> a.nanos < b.nanos),
{
}

/// A text that RFC 3339 can read names that instant; any other names what the layout with an
/// offset without a colon reads, if it reads anything.
pub proof fn law_both_layouts_are_read(text: Seq<char>)
    ensures
        rfc3339_instant(text) matches Some(t) ==> instant_of(text) == Some(t),
        rfc3339_instant(text) is None ==> instant_of(text) == layout_instant(
            text,
            "%Y-%m-%dT%H:%M:%S%z"@,
        ),
{
}

/// A lifetime of some seconds ends exactly that many seconds from now; none, or one that is not
/// longer than nothing, has no end.
pub proof fn law_lifetime_ends_after_its_seconds(now: Instant, seconds: i64)
    ensures
        expiry_instant(now, None) is None,
        seconds <= 0 ==> expiry_instant(now, Some(seconds)) is None,
        seconds > 0 && expiry_in_range(now, Some(seconds)) ==> {
            let end = expiry_instant(now, Some(seconds));
            &&& end is Some
            &&& end->0.secs == now.secs + seconds
            &&& end->0.nanos == now.nanos
            &&& end->0.nanos_from(now) == seconds * 1_000_000_000
        },
{
}

/// The end of a lifetime can be written exactly where the lifetime is not longer than nothing,
/// or the clock does not stand before 1970 nor in a leap second and the end does not lie
/// behind the year 262142.
pub proof fn law_end_can_be_written(now: Instant, seconds: i64)
    ensures
        expiry_in_range(now, None),
        seconds <= 0 ==> expiry_in_range(now, Some(seconds)),
        seconds > 0 ==> (expiry_in_range(now, Some(seconds)) <==> now.secs >= 0 && now.nanos
            < 1_000_000_000 && now.secs + seconds <= 8_210_266_876_799),
        clock_reading(now) <==> 0 <= now.secs <= 8_210_266_876_799 && now.nanos < 1_000_000_000,
{
}

} // verus!
