//! Calendar timestamps as plain values. The wire format carries instants as
//! RFC 3339 text in UTC; the library holds them as year/month/day and
//! hour/minute/second fields and renders that fixed representation itself.

use vstd::prelude::*;
use crate::render::padded_digits;
use crate::render::u64_to_padded_string;

verus! {

/// An instant in UTC, broken into calendar fields.
#[derive(Debug, Clone, Copy, PartialEq, Eq, Structural)]
pub struct Timestamp {
    /// Calendar year (0 through 9999).
    pub year: u16,
    /// Calendar month (1 through 12).
    pub month: u8,
    /// Day of month (1 through 31).
    pub day: u8,
    /// Hour of day (0 through 23).
    pub hour: u8,
    /// Minute (0 through 59).
    pub minute: u8,
    /// Second (0 through 59).
    pub second: u8,
}

impl Timestamp {
    /// Field ranges of a calendar timestamp.
    pub open spec fn wf(self) -> bool {
        self.year <= 9999 && 1 <= self.month <= 12 && 1 <= self.day <= 31 && self.hour <= 23
            && self.minute <= 59 && self.second <= 59
    }

    /// The fixed RFC 3339 UTC rendering of this timestamp:
    /// `YYYY-MM-DDThh:mm:ss+00:00`.
    pub open spec fn spec_rfc3339(self) -> Seq<char> {
        padded_digits(self.year as nat, 4) + "-"@ + padded_digits(self.month as nat, 2) + "-"@
            + padded_digits(self.day as nat, 2) + "T"@ + padded_digits(self.hour as nat, 2) + ":"@
            + padded_digits(self.minute as nat, 2) + ":"@ + padded_digits(self.second as nat, 2)
            + "+00:00"@
    }

    /// Construct a timestamp from calendar fields.
    pub fn new(year: u16, month: u8, day: u8, hour: u8, minute: u8, second: u8) -> (t: Timestamp)
        ensures
            t == (Timestamp { year, month, day, hour, minute, second }),
    {
        Timestamp { year, month, day, hour, minute, second }
    }

    /// Render this timestamp in the fixed RFC 3339 UTC representation.
    pub fn to_rfc3339(&self) -> (r: String)
        ensures
            r@ == self.spec_rfc3339(),
    {
        let mut r = u64_to_padded_string(self.year as u64, 4);
        r.append("-");
        r.append(u64_to_padded_string(self.month as u64, 2).as_str());
        r.append("-");
        r.append(u64_to_padded_string(self.day as u64, 2).as_str());
        r.append("T");
        r.append(u64_to_padded_string(self.hour as u64, 2).as_str());
        r.append(":");
        r.append(u64_to_padded_string(self.minute as u64, 2).as_str());
        r.append(":");
        r.append(u64_to_padded_string(self.second as u64, 2).as_str());
        r.append("+00:00");
        proof {
            assert(r@ =~= self.spec_rfc3339());
        }
        r
    }
}

} // verus!
