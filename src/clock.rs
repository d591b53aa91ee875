use vstd::prelude::*;

verus! {

/// An instant as the local clock reported it: seconds since the Unix epoch,
/// the nanoseconds within that second, and the local offset from UTC.
#[derive(Clone, Copy, Debug, PartialEq, Eq, Structural)]
pub struct Stamp {
    pub secs: i64,
    /// Exceeds 999,999,999 only inside a leap second.
    pub nanos: u32,
    /// Seconds to add to UTC to get local time.
    pub offset_secs: i32,
}

impl Stamp {
    /// The value ranges a clock reading can have.
    pub open spec fn wf(self) -> bool {
        &&& self.nanos < 2_000_000_000
        &&& -86_400 < self.offset_secs < 86_400
    }
}

/// Relies on chrono::Local::now for the current local time; chrono keeps the
/// sub-second part below two seconds' worth of nanoseconds and the offset
/// strictly within a day.
#[verifier::external_body]
pub(crate) fn local_now() -> (r: Stamp)
    ensures
        r.wf(),
{
    let now = chrono::Local::now();
    Stamp {
        secs: now.timestamp(),
        nanos: now.timestamp_subsec_nanos(),
        offset_secs: now.offset().local_minus_utc(),
    }
}

} // verus!
