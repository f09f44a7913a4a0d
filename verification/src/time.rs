//! Points in time, as the sessions record them.

use vstd::prelude::*;

verus! {

/// The RFC 3339 text of the instant `secs` whole seconds and `nanos`
/// nanoseconds after the start of 1970 (UTC), or `None` where the calendar
/// has no date for that instant.
pub uninterp spec fn rfc3339_text(secs: i64, nanos: u32) -> Option<Seq<char>>;

/// Nanoseconds in one second.
pub const NANOS_PER_SEC: u32 = 1_000_000_000;

/// Reads the wall clock through `chrono::Utc::now` and splits the reading with
/// `DateTime::timestamp` and `DateTime::timestamp_subsec_nanos`.
///
/// Trusted: the nanosecond part is below one second (the clock reports no leap
/// second), and the pair can be turned back into a date, as chrono promises
/// for every pair taken from one of its own values. Nothing is said about
/// which instant comes back. Like `Utc::now`, it does not return where the
/// system clock stands before 1970.
#[verifier::external_body]
fn clock_reading() -> (reading: (i64, u32))
    ensures
        reading.1 < NANOS_PER_SEC,
        rfc3339_text(reading.0, reading.1) is Some,
{
    let now = chrono::Utc::now();
    (now.timestamp(), now.timestamp_subsec_nanos())
}

/// Builds the date with `chrono::DateTime::from_timestamp` and renders it with
/// `DateTime::to_rfc3339`.
///
/// Trusted: the answer is the named text of the pair, and absent exactly where
/// chrono has no date for it.
#[verifier::external_body]
fn render_rfc3339(secs: i64, nanos: u32) -> (text: Option<String>)
    ensures
        match text {
            Some(rendered) => rfc3339_text(secs, nanos) == Some(rendered@),
            None => rfc3339_text(secs, nanos) is None,
        },
{
    match chrono::DateTime::from_timestamp(secs, nanos) {
        Some(at) => Some(at.to_rfc3339()),
        None => None,
    }
}

/// An instant of UTC wall-clock time that the calendar can name.
#[derive(Clone, Copy, Debug)]
pub struct Timestamp {
    secs: i64,
    nanos: u32,
}

impl Timestamp {
    #[verifier::type_invariant]
    spec fn well_formed(self) -> bool {
        self.is_nameable()
    }

    /// Whole seconds since the start of 1970.
    pub closed spec fn secs(self) -> i64 {
        self.secs
    }

    /// Nanoseconds since the last whole second.
    pub closed spec fn nanos(self) -> u32 {
        self.nanos
    }

    /// What holds of every timestamp that is handed out: its nanoseconds
    /// stay below one second, and the calendar has a date for it.
    pub open spec fn is_nameable(self) -> bool {
        self.nanos() < NANOS_PER_SEC && rfc3339_text(self.secs(), self.nanos()) is Some
    }

    /// The instant as one number: nanoseconds since the start of 1970.
    pub open spec fn instant(self) -> int {
        self.secs() * NANOS_PER_SEC + self.nanos()
    }

    /// The RFC 3339 text of the instant.
    pub open spec fn text(self) -> Seq<char> {
        rfc3339_text(self.secs(), self.nanos()).unwrap()
    }

    /// The instant `secs` seconds and `nanos` nanoseconds after the start of
    /// 1970, if `nanos` is below one second and the calendar reaches that far.
    pub fn new(secs: i64, nanos: u32) -> (stamp: Option<Timestamp>)
        ensures
            stamp is Some <==> nanos < NANOS_PER_SEC && rfc3339_text(secs, nanos) is Some,
            stamp matches Some(t) ==> t.secs() == secs && t.nanos() == nanos && t.is_nameable(),
    {
        if nanos >= NANOS_PER_SEC {
            return None;
        }
        match render_rfc3339(secs, nanos) {
            Some(_) => Some(Timestamp { secs, nanos }),
            None => None,
        }
    }

    /// The current reading of the wall clock. Which instant that is cannot
    /// be said; two readings need not even be in order.
    pub fn now() -> (stamp: Timestamp)
        ensures
            stamp.is_nameable(),
    {
        let reading = clock_reading();
        Timestamp { secs: reading.0, nanos: reading.1 }
    }

    /// Whole seconds since the start of 1970.
    pub fn seconds(&self) -> (secs: i64)
        ensures
            secs == self.secs(),
    {
        self.secs
    }

    /// Nanoseconds since the last whole second.
    pub fn subsec_nanos(&self) -> (nanos: u32)
        ensures
            nanos == self.nanos(),
            nanos < NANOS_PER_SEC,
    {
        proof {
            use_type_invariant(self);
        }
        self.nanos
    }

    /// Whether `self` is no later than `other`.
    pub fn not_after(&self, other: &Timestamp) -> (earlier: bool)
        ensures
            earlier == (self.instant() <= other.instant()),
    {
        proof {
            use_type_invariant(self);
            use_type_invariant(other);
            lemma_instant_order(self.secs as int, self.nanos as int, other.secs as int, other.nanos as int);
        }
        self.secs < other.secs || (self.secs == other.secs && self.nanos <= other.nanos)
    }

    /// The later of the two instants.
    pub fn latest(self, other: Timestamp) -> (later: Timestamp)
        ensures
            later == latest_of(self, other),
    {
        if self.not_after(&other) {
            other
        } else {
            self
        }
    }

    /// The instant as RFC 3339 text.
    pub fn to_rfc3339(&self) -> (text: String)
        ensures
            text@ == self.text(),
    {
        proof {
            use_type_invariant(self);
        }
        match render_rfc3339(self.secs, self.nanos) {
            Some(rendered) => rendered,
            None => String::new(),
        }
    }
}

/// The later of two instants; the second where they are equal.
pub open spec fn latest_of(a: Timestamp, b: Timestamp) -> Timestamp {
    if a.instant() <= b.instant() {
        b
    } else {
        a
    }
}

/// With nanoseconds below one second, instants are ordered as their
/// (seconds, nanoseconds) pairs are.
pub proof fn lemma_instant_order(s1: int, n1: int, s2: int, n2: int)
    requires
        0 <= n1 < NANOS_PER_SEC,
        0 <= n2 < NANOS_PER_SEC,
    ensures
        (s1 * NANOS_PER_SEC + n1 <= s2 * NANOS_PER_SEC + n2) <==> (s1 < s2 || (s1 == s2 && n1 <= n2)),
{
    if s1 < s2 {
        assert(s1 * NANOS_PER_SEC + NANOS_PER_SEC <= s2 * NANOS_PER_SEC) by (nonlinear_arith)
            requires s1 + 1 <= s2;
    } else if s2 < s1 {
        assert(s2 * NANOS_PER_SEC + NANOS_PER_SEC <= s1 * NANOS_PER_SEC) by (nonlinear_arith)
            requires s2 + 1 <= s1;
    }
}

} // verus!
