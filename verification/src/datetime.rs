//! Date-times at whole seconds, as the timestamp codec reads and writes them.

use vstd::prelude::*;

verus! {

/// The Unix timestamp of the first second of the year -9999.
pub const MIN_UNIX_TIMESTAMP: i64 = -377_705_116_800;

/// The Unix timestamp of the last second of the year 9999.
pub const MAX_UNIX_TIMESTAMP: i64 = 253_402_300_799;

/// Whether a count of seconds since the Unix epoch names a date-time that
/// the calendar of the `time` crate can hold.
pub open spec fn is_representable(seconds: int) -> bool {
    MIN_UNIX_TIMESTAMP <= seconds <= MAX_UNIX_TIMESTAMP
}

/// Asks `time::OffsetDateTime::from_unix_timestamp` whether it accepts
/// `seconds`. That function refuses a timestamp outside of its calendar,
/// which without the crate's `large-dates` feature runs from midnight of
/// January 1 of the year -9999 to the last second of the year 9999, both in
/// UTC. The contract states that range as two Unix timestamps; nothing here
/// proves it.
#[verifier::external_body]
fn calendar_accepts(seconds: i64) -> (accepted: bool)
    ensures
        accepted == is_representable(seconds as int),
{
    time::OffsetDateTime::from_unix_timestamp(seconds).is_ok()
}

/// A date-time in UTC at a whole second, within the calendar's range.
#[derive(Clone, Copy, Debug, PartialEq, Eq)]
pub struct UnixDateTime {
    seconds: i64,
}

impl View for UnixDateTime {
    type V = i64;

    closed spec fn view(&self) -> i64 {
        self.seconds
    }
}

impl UnixDateTime {
    #[verifier::type_invariant]
    spec fn in_calendar(&self) -> bool {
        is_representable(self.seconds as int)
    }

    /// The date-time that lies `seconds` after the Unix epoch, or `None`
    /// where the calendar does not reach that far.
    pub fn from_unix_timestamp(seconds: i64) -> (result: Option<UnixDateTime>)
        ensures
            result is Some <==> is_representable(seconds as int),
            result matches Some(t) ==> t@ == seconds,
    {
        if calendar_accepts(seconds) {
            Some(UnixDateTime { seconds })
        } else {
            None
        }
    }

    /// Seconds since the Unix epoch.
    pub fn unix_timestamp(&self) -> (seconds: i64)
        ensures
            seconds == self@,
            is_representable(seconds as int),
    {
        proof {
            use_type_invariant(self);
        }
        self.seconds
    }
}

} // verus!
