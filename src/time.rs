use vstd::prelude::*;

verus! {

/// A UTC instant: whole seconds since the Unix epoch and the nanoseconds
/// within that second (above 999_999_999 only during a leap second).
#[derive(Clone, Copy, Debug, PartialEq, Eq, Structural)]
pub struct UtcInstant {
    pub secs: i64,
    pub nanos: u32,
}

/// The instant (seconds, nanoseconds) that chrono reads from an RFC 3339
/// text, converted to UTC; `None` where chrono refuses the text.
pub uninterp spec fn utc_instant_of(s: Seq<char>) -> Option<(i64, u32)>;

/// The RFC 3339 text that chrono writes for the instant (seconds,
/// nanoseconds); `None` where chrono does not represent the instant.
pub uninterp spec fn rfc3339_of(secs: i64, nanos: u32) -> Option<Seq<char>>;

/// Instants that chrono represents for certain: about 253,000 years either
/// side of the epoch, outside a leap second.
pub open spec fn in_chrono_range(secs: i64, nanos: u32) -> bool {
    -8_000_000_000_000 <= secs <= 8_000_000_000_000 && nanos < 1_000_000_000
}

/// The instant named by a pair of seconds and nanoseconds.
pub open spec fn instant_of_pair(p: (i64, u32)) -> UtcInstant {
    UtcInstant { secs: p.0, nanos: p.1 }
}

/// What `parse_utc` gives for a text, in the library's terms.
pub open spec fn parsed_instant(s: Seq<char>) -> Option<UtcInstant> {
    match utc_instant_of(s) {
        Some(p) => Some(instant_of_pair(p)),
        None => None,
    }
}

impl UtcInstant {
    /// Strictly later than `other` (chrono orders by seconds, then nanoseconds).
    pub open spec fn spec_is_after(self, other: UtcInstant) -> bool {
        self.secs > other.secs || (self.secs == other.secs && self.nanos > other.nanos)
    }

    /// True when this instant is at or after `start` plus `lifetime` seconds.
    pub open spec fn spec_reached(self, start: UtcInstant, lifetime: i64) -> bool {
        let end = start.secs as int + lifetime as int;
        self.secs as int > end || (self.secs as int == end && self.nanos >= start.nanos)
    }

    #[verifier::when_used_as_spec(spec_is_after)]
    pub fn is_after(self, other: UtcInstant) -> (r: bool)
        ensures
            r == self.spec_is_after(other),
    {
        self.secs > other.secs || (self.secs == other.secs && self.nanos > other.nanos)
    }

    /// Whether `lifetime` seconds counted from `start` have passed at this instant.
    #[verifier::when_used_as_spec(spec_reached)]
    pub fn reached(self, start: UtcInstant, lifetime: i64) -> (r: bool)
        ensures
            r == self.spec_reached(start, lifetime),
    {
        let end: i128 = start.secs as i128 + lifetime as i128;
        let now: i128 = self.secs as i128;
        now > end || (now == end && self.nanos >= start.nanos)
    }

    /// Reads an RFC 3339 timestamp with any offset as a UTC instant.
    pub fn parse(s: &str) -> (r: Option<UtcInstant>)
        ensures
            r == parsed_instant(s@),
    {
        parse_utc(s)
    }

    /// The RFC 3339 text of this instant, or `None` where it lies outside
    /// the range of dates that chrono represents.
    pub fn to_rfc3339(self) -> (r: Option<String>)
        ensures
            match r {
                Some(t) => rfc3339_of(self.secs, self.nanos) == Some(t@),
                None => rfc3339_of(self.secs, self.nanos) is None,
            },
            in_chrono_range(self.secs, self.nanos) ==> r is Some,
    {
        format_rfc3339(self.secs, self.nanos)
    }
}

/// Relies on chrono's `FromStr` for `DateTime<Utc>`, read back through
/// `timestamp` and `timestamp_subsec_nanos`: the instant depends on the text alone.
#[verifier::external_body]
fn parse_utc(s: &str) -> (r: Option<UtcInstant>)
    ensures
        match r {
            Some(t) => utc_instant_of(s@) == Some((t.secs, t.nanos)),
            None => utc_instant_of(s@) is None,
        },
{
    match s.parse::<chrono::DateTime<chrono::Utc>>() {
        Ok(t) => Some(UtcInstant { secs: t.timestamp(), nanos: t.timestamp_subsec_nanos() }),
        Err(_) => None,
    }
}

/// Relies on chrono's `DateTime::from_timestamp` (`None` only for seconds
/// beyond the dates of years -262143 to 262142, or nanoseconds of 1e9 and
/// more outside a leap second) and `to_rfc3339`: the text depends on the
/// instant alone.
#[verifier::external_body]
fn format_rfc3339(secs: i64, nanos: u32) -> (r: Option<String>)
    ensures
        match r {
            Some(t) => rfc3339_of(secs, nanos) == Some(t@),
            None => rfc3339_of(secs, nanos) is None,
        },
        in_chrono_range(secs, nanos) ==> r is Some,
{
    match chrono::DateTime::from_timestamp(secs, nanos) {
        Some(t) => Some(t.to_rfc3339()),
        None => None,
    }
}

} // verus!
