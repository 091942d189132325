//! Instants as stored by the repository: seconds and nanoseconds since the
//! Unix epoch, written to storage as RFC 3339 text.
use vstd::prelude::*;

verus! {

/// First second of year 0000 (UTC).
pub const MIN_SECS: i64 = -62167219200;

/// Last second of year 9999 (UTC).
pub const MAX_SECS: i64 = 253402300799;

/// An instant in UTC.
#[derive(Clone, Copy, Debug, PartialEq, Eq, Structural)]
pub struct Timestamp {
    pub secs: i64,
    pub nanos: u32,
}

impl Timestamp {
    /// The instant lies in years 0000 to 9999 and is not a leap second.
    pub open spec fn wf(self) -> bool {
        &&& MIN_SECS <= self.secs <= MAX_SECS
        &&& self.nanos < 1_000_000_000
    }

    /// Builds an instant; `None` when it lies outside years 0000 to 9999 or
    /// the nanoseconds reach one second.
    pub fn new(secs: i64, nanos: u32) -> (r: Option<Timestamp>)
        ensures
            r matches Some(t) ==> t.secs == secs && t.nanos == nanos,
            r is Some <==> (Timestamp { secs, nanos }).wf(),
    {
        if MIN_SECS <= secs && secs <= MAX_SECS && nanos < 1_000_000_000 {
            Some(Timestamp { secs, nanos })
        } else {
            None
        }
    }
}

/// The RFC 3339 text that chrono writes for an instant.
pub uninterp spec fn rfc3339_of(secs: i64, nanos: u32) -> Seq<char>;

/// Relies on chrono's `DateTime::from_timestamp`, which accepts every
/// well-formed instant, and `DateTime::to_rfc3339`, which writes it.
#[verifier::external_body]
fn format_rfc3339(t: Timestamp) -> (r: String)
    requires
        t.wf(),
    ensures
        r@ == rfc3339_of(t.secs, t.nanos),
{
    match chrono::DateTime::from_timestamp(t.secs, t.nanos) {
        Some(d) => d.to_rfc3339(),
        None => String::new(),
    }
}

/// Relies on chrono's `DateTime::parse_from_rfc3339` and `with_timezone`:
/// the text that `to_rfc3339` wrote for an instant of years 0000 to 9999
/// (four-digit year, all significant fractional digits) parses back to that
/// same instant.
#[verifier::external_body]
fn parse_rfc3339(s: &str) -> (r: Option<Timestamp>)
    ensures
        forall|t: Timestamp| t.wf() && s@ == rfc3339_of(t.secs, t.nanos) ==> r == Some(t),
{
    match chrono::DateTime::parse_from_rfc3339(s) {
        Ok(d) => {
            let u = d.with_timezone(&chrono::Utc);
            Some(Timestamp { secs: u.timestamp(), nanos: u.timestamp_subsec_nanos() })
        },
        Err(_) => None,
    }
}

impl Timestamp {
    /// The RFC 3339 text under which this instant is stored.
    pub fn to_rfc3339(&self) -> (r: String)
        requires
            self.wf(),
        ensures
            r@ == rfc3339_of(self.secs, self.nanos),
    {
        format_rfc3339(*self)
    }

    /// Reads stored text back: `Some(t)` exactly when the text is the stored
    /// form of the well-formed instant `t`. Every stored instant reads back
    /// as itself.
    pub fn from_rfc3339(s: &String) -> (r: Option<Timestamp>)
        ensures
            forall|t: Timestamp| t.wf() && s@ == rfc3339_of(t.secs, t.nanos) ==> r == Some(t),
            r matches Some(t) ==> t.wf() && s@ == rfc3339_of(t.secs, t.nanos),
    {
        match parse_rfc3339(s.as_str()) {
            Some(t) => {
                if MIN_SECS <= t.secs && t.secs <= MAX_SECS && t.nanos < 1_000_000_000 {
                    let text = format_rfc3339(t);
                    if text.eq(s) {
                        Some(t)
                    } else {
                        None
                    }
                } else {
                    None
                }
            },
            None => None,
        }
    }
}

} // verus!
