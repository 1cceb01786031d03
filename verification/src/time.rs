//! Points in time, as stored with each record: whole seconds since the Unix
//! epoch and the nanoseconds within the second.

use vstd::prelude::*;

verus! {

/// Whether `chrono::DateTime::<Utc>::from_timestamp(secs, nanos)` gives a date-time.
pub uninterp spec fn spec_instant_exists(secs: i64, nanos: u32) -> bool;

/// The text that `chrono::DateTime::to_rfc3339` writes for the date-time at `(secs, nanos)`.
pub uninterp spec fn spec_rfc3339(secs: i64, nanos: u32) -> Seq<char>;

/// What parsing a text as `chrono::DateTime<Utc>` gives: `(secs, nanos)`, or
/// the text that the parse error displays.
pub uninterp spec fn spec_parse_instant(s: Seq<char>) -> Result<(i64, u32), Seq<char>>;

/// Whether a text parses to the instant `(secs, nanos)`.
pub open spec fn parses_to_instant(s: Seq<char>, secs: i64, nanos: u32) -> bool {
    spec_parse_instant(s) == Ok::<(i64, u32), Seq<char>>((secs, nanos))
}

/// Calls `chrono::Utc::now`. The time itself is the clock's; claimed is only
/// that it is a date-time that exists and lies after the epoch with fewer than
/// 10^9 nanoseconds (`offset/utc.rs` builds it from `SystemTime::duration_since`,
/// and panics when the clock stands before 1970, which nothing here rules out).
#[verifier::external_body]
fn clock_now() -> (r: (i64, u32))
    ensures
        spec_instant_exists(r.0, r.1),
        r.0 >= 0,
        r.1 < 1_000_000_000,
{
    let now = chrono::Utc::now();
    (now.timestamp(), now.timestamp_subsec_nanos())
}

/// Calls `chrono::DateTime::<Utc>::from_timestamp(secs, nanos)` and reports whether it is `Some`.
#[verifier::external_body]
fn instant_exists(secs: i64, nanos: u32) -> (b: bool)
    ensures
        b == spec_instant_exists(secs, nanos),
{
    chrono::DateTime::<chrono::Utc>::from_timestamp(secs, nanos).is_some()
}

/// Calls `chrono::DateTime::to_rfc3339` on the date-time at `(secs, nanos)`.
/// Claims, besides naming the text, that within the years 1 to 9999 and off a
/// leap second the text parses back to the same `(secs, nanos)`: `write_rfc3339`
/// writes four year digits there and keeps every nanosecond digit that is not
/// zero, and the relaxed RFC 3339 parser of `FromStr` reads that form.
#[verifier::external_body]
fn instant_to_rfc3339(secs: i64, nanos: u32) -> (s: String)
    requires
        spec_instant_exists(secs, nanos),
    ensures
        s@ == spec_rfc3339(secs, nanos),
        round_trips(secs, nanos) ==> parses_to_instant(s@, secs, nanos),
{
    chrono::DateTime::<chrono::Utc>::from_timestamp(secs, nanos).unwrap().to_rfc3339()
}

/// Calls `str::parse::<chrono::DateTime<Utc>>` and keeps `(timestamp, subsec
/// nanos)`, or the error as the text it displays. Claims that a parsed
/// date-time exists again at those numbers, which the documentation of
/// `from_timestamp` guarantees ("round-trip").
#[verifier::external_body]
fn instant_from_text(s: &str) -> (r: Result<(i64, u32), String>)
    ensures
        match r {
            Ok(p) => spec_parse_instant(s@) == Ok::<(i64, u32), Seq<char>>(p) && spec_instant_exists(p.0, p.1),
            Err(m) => spec_parse_instant(s@) == Err::<(i64, u32), Seq<char>>(m@),
        },
{
    match s.parse::<chrono::DateTime<chrono::Utc>>() {
        Ok(t) => Ok((t.timestamp(), t.timestamp_subsec_nanos())),
        Err(e) => Err(e.to_string()),
    }
}

/// The instants whose stored text is known to read back exactly: years 1 to
/// 9999 (0001-01-01T00:00:00Z to 9999-12-31T23:59:59Z) and no leap second.
pub open spec fn round_trips(secs: i64, nanos: u32) -> bool {
    &&& -62135596800 <= secs <= 253402300799
    &&& nanos < 1_000_000_000
}

/// A point in time that exists as a UTC date-time.
#[derive(Clone, Copy, Debug, PartialEq, Eq)]
pub struct Timestamp {
    secs: i64,
    nanos: u32,
}

impl View for Timestamp {
    type V = (i64, u32);

    open spec fn view(&self) -> (i64, u32) {
        (self.spec_secs(), self.spec_nanos())
    }
}

/// Strictly later, on `(secs, nanos)` pairs.
pub open spec fn instant_after(a: (i64, u32), b: (i64, u32)) -> bool {
    a.0 > b.0 || (a.0 == b.0 && a.1 > b.1)
}

impl Timestamp {
    #[verifier::type_invariant]
    spec fn denotes_instant(self) -> bool {
        spec_instant_exists(self.secs, self.nanos)
    }

    /// Seconds since 1970-01-01T00:00:00Z.
    pub closed spec fn spec_secs(self) -> i64 {
        self.secs
    }

    /// Nanoseconds within the second (at or above 10^9 only on a leap second).
    pub closed spec fn spec_nanos(self) -> u32 {
        self.nanos
    }

    /// Whether the stored text of this instant reads back exactly.
    pub open spec fn round_trips(self) -> bool {
        round_trips(self.spec_secs(), self.spec_nanos())
    }


    /// The current time.
    pub fn now() -> (t: Timestamp)
        ensures
            t.spec_secs() >= 0,
            t.spec_nanos() < 1_000_000_000,
    {
        let (secs, nanos) = clock_now();
        Timestamp { secs, nanos }
    }

    /// The instant at `secs` seconds and `nanos` nanoseconds after the epoch,
    /// `None` when no date-time exists there.
    pub fn from_parts(secs: i64, nanos: u32) -> (r: Option<Timestamp>)
        ensures
            r is Some <==> spec_instant_exists(secs, nanos),
            r matches Some(t) ==> t.spec_secs() == secs && t.spec_nanos() == nanos,
    {
        if instant_exists(secs, nanos) {
            Some(Timestamp { secs, nanos })
        } else {
            None
        }
    }

    pub fn secs(&self) -> (s: i64)
        ensures
            s == self.spec_secs(),
    {
        self.secs
    }

    pub fn nanos(&self) -> (n: u32)
        ensures
            n == self.spec_nanos(),
    {
        self.nanos
    }

    /// The RFC 3339 text under which the instant is stored.
    pub fn to_text(&self) -> (s: String)
        ensures
            s@ == spec_rfc3339(self.spec_secs(), self.spec_nanos()),
            self.round_trips() ==> spec_parse_instant(s@) == Ok::<(i64, u32), Seq<char>>(self@),
    {
        proof {
            use_type_invariant(self);
        }
        instant_to_rfc3339(self.secs, self.nanos)
    }

    /// Reads an instant back from its stored text; for a text that is no
    /// date-time, the text of the parse error.
    pub fn from_text(s: &str) -> (r: Result<Timestamp, String>)
        ensures
            match r {
                Ok(t) => spec_parse_instant(s@) == Ok::<(i64, u32), Seq<char>>(t@),
                Err(m) => spec_parse_instant(s@) == Err::<(i64, u32), Seq<char>>(m@),
            },
    {
        match instant_from_text(s) {
            Ok((secs, nanos)) => Ok(Timestamp { secs, nanos }),
            Err(m) => Err(m),
        }
    }

    /// Whether this instant is strictly later than `other`.
    pub fn is_after(&self, other: &Timestamp) -> (b: bool)
        ensures
            b == instant_after(self@, other@),
    {
        self.secs > other.secs || (self.secs == other.secs && self.nanos > other.nanos)
    }
}

} // verus!
