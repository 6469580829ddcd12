use vstd::prelude::*;

verus! {

/// Smallest number of seconds since the Unix epoch that chrono can turn into a
/// `DateTime<Utc>` (January 1 of year -262143, 00:00:00).
pub open spec fn min_timestamp() -> int {
    -8334601228800
}

/// Largest number of seconds since the Unix epoch that chrono can turn into a
/// `DateTime<Utc>` (December 31 of year 262142, 23:59:59).
pub open spec fn max_timestamp() -> int {
    8210266876799
}

/// Whether `secs` seconds since the Unix epoch is a time that chrono represents.
pub open spec fn timestamp_in_range(secs: i64) -> bool {
    min_timestamp() <= secs <= max_timestamp()
}

/// Calls chrono's `DateTime::<Utc>::from_timestamp(secs, 0)` and tells whether it
/// gave a date.
///
/// Claimed: chrono gives a date exactly when `secs` lies between the first second
/// of its smallest date and the last second of its largest date.
#[verifier::external_body]
fn chrono_accepts_timestamp(secs: i64) -> (r: bool)
    ensures
        r == timestamp_in_range(secs),
{
    chrono::DateTime::<chrono::Utc>::from_timestamp(secs, 0).is_some()
}

/// Calls `SystemTime::now` and reads it as whole seconds since the Unix epoch
/// (`duration_since(UNIX_EPOCH)`, then `as_secs`), or `None` when the system clock
/// is set before the epoch. Which time it is depends on the clock: nothing is
/// claimed of the result.
#[verifier::external_body]
fn system_clock_secs() -> (secs: Option<u64>)
{
    match std::time::SystemTime::now().duration_since(std::time::UNIX_EPOCH) {
        Ok(elapsed) => Some(elapsed.as_secs()),
        Err(_) => None,
    }
}

/// How chrono displays the time `secs` seconds after the Unix epoch (for instance
/// `2015-05-15 00:00:00 UTC`).
pub uninterp spec fn chrono_datetime_text(secs: i64) -> Seq<char>;

/// Calls chrono's `DateTime::<Utc>::from_timestamp(secs, 0)` and displays the
/// date with `to_string`. Claimed: the text is `chrono_datetime_text(secs)`. The
/// timestamp must be one that chrono represents, otherwise there is no date.
#[verifier::external_body]
fn chrono_display_timestamp(secs: i64) -> (s: String)
    requires
        timestamp_in_range(secs),
    ensures
        s@ == chrono_datetime_text(secs),
{
    chrono::DateTime::<chrono::Utc>::from_timestamp(secs, 0).unwrap().to_string()
}

/// A point in time in UTC with a precision of one second, held as the number of
/// seconds since the Unix epoch.
///
/// It always holds a time that chrono's `DateTime<Utc>` can represent.
#[derive(Debug, Clone, Copy, PartialEq, Eq)]
pub struct DateTimeUtc {
    timestamp: i64,
}

impl View for DateTimeUtc {
    type V = i64;

    closed spec fn view(&self) -> i64 {
        self.timestamp
    }
}

impl DateTimeUtc {
    #[verifier::type_invariant]
    spec fn inv(self) -> bool {
        timestamp_in_range(self.timestamp)
    }

    /// Creates the time `secs` seconds after the Unix epoch, or `None` if chrono
    /// cannot represent it.
    pub fn from_timestamp(secs: i64) -> (r: Option<DateTimeUtc>)
        ensures
            r is Some <==> timestamp_in_range(secs),
            r matches Some(d) ==> d@ == secs,
    {
        if chrono_accepts_timestamp(secs) {
            Some(DateTimeUtc { timestamp: secs })
        } else {
            None
        }
    }

    /// Creates the time `secs` seconds after the Unix epoch, which chrono
    /// represents.
    pub(crate) fn from_timestamp_in_range(secs: i64) -> (d: DateTimeUtc)
        requires
            timestamp_in_range(secs),
        ensures
            d@ == secs,
    {
        DateTimeUtc { timestamp: secs }
    }

    /// The time `secs` seconds after the Unix epoch, as the system clock counts
    /// them, or `None` when chrono does not represent it.
    pub fn from_clock_secs(secs: u64) -> (r: Option<DateTimeUtc>)
        ensures
            r is Some <==> secs <= max_timestamp(),
            r matches Some(d) ==> d@ == secs,
    {
        if secs <= i64::MAX as u64 {
            DateTimeUtc::from_timestamp(secs as i64)
        } else {
            None
        }
    }

    /// The current time, truncated to whole seconds, read from the system clock;
    /// `None` when the clock is set before the Unix epoch or past the last time
    /// that chrono represents.
    pub fn now() -> (r: Option<DateTimeUtc>)
        ensures
            r matches Some(d) ==> d@ >= 0 && timestamp_in_range(d@),
    {
        match system_clock_secs() {
            Some(secs) => DateTimeUtc::from_clock_secs(secs),
            None => None,
        }
    }

    /// The time as chrono displays it.
    pub fn to_string(&self) -> (s: String)
        ensures
            s@ == chrono_datetime_text(self@),
    {
        proof {
            use_type_invariant(self);
        }
        chrono_display_timestamp(self.timestamp)
    }

    /// Number of whole seconds since the Unix epoch.
    pub fn timestamp(&self) -> (secs: i64)
        ensures
            secs == self@,
            timestamp_in_range(secs),
    {
        proof {
            use_type_invariant(self);
        }
        self.timestamp
    }
}

} // verus!
