//! Moments in UTC, held as seconds and nanoseconds since the Unix epoch.

use vstd::prelude::*;

verus! {

/// The earliest second chrono represents: the start of year -262143.
pub open spec fn min_chrono_secs() -> int {
    -8334601228800
}

/// The last second chrono represents: the end of year 262142.
pub open spec fn max_chrono_secs() -> int {
    8210266876799
}

/// Whether `chrono::DateTime::<Utc>::from_timestamp` accepts `(secs, nanos)`:
/// the day lies within chrono's years, and the nanoseconds are below two
/// seconds, reaching a second only in a leap second (the 59th second of a minute).
pub open spec fn chrono_accepts(secs: i64, nanos: u32) -> bool {
    &&& min_chrono_secs() <= secs <= max_chrono_secs()
    &&& nanos < 2_000_000_000
    &&& (nanos >= 1_000_000_000 ==> secs % 60 == 59)
}

/// `secs` falls in one of the years 0 through 9999, which RFC 3339 text
/// writes with four digits.
pub open spec fn in_four_digit_years(secs: i64) -> bool {
    -62167219200 <= secs < 253402300800
}

/// The text `chrono` renders for the moment `(secs, nanos)` in UTC with the
/// `strftime`-style pattern `pattern`.
pub uninterp spec fn chrono_format_text(secs: i64, nanos: u32, pattern: Seq<char>) -> Seq<char>;

/// The RFC 3339 text `chrono`'s `to_rfc3339` gives for the moment `(secs, nanos)` in UTC.
pub uninterp spec fn chrono_rfc3339_text(secs: i64, nanos: u32) -> Seq<char>;

/// The moment, as `(secs, nanos)` in UTC, that `chrono`'s `parse_from_rfc3339`
/// reads from `text`, or `None` when it rejects `text`.
pub uninterp spec fn chrono_rfc3339_parse(text: Seq<char>) -> Option<(i64, u32)>;

/// The pattern of an RSS `pubDate`: `Sun, 06 Nov 1994 08:49:37 GMT`.
pub open spec fn pub_date_pattern() -> Seq<char> {
    seq!['%', 'a', ',', ' ', '%', 'd', ' ', '%', 'b', ' ', '%', 'Y', ' ', '%', 'H', ':', '%', 'M', ':', '%', 'S', ' ', 'G', 'M', 'T']
}

/// Asks `chrono::DateTime::<Utc>::from_timestamp` whether it accepts
/// `(secs, nanos)`: it splits `secs` into days and seconds of the day, checks
/// the day with `NaiveDate::from_num_days_from_ce_opt` (years -262143 through
/// 262142) and the time with `NaiveTime::from_num_seconds_from_midnight_opt`.
#[verifier::external_body]
fn chrono_accepts_exec(secs: i64, nanos: u32) -> (r: bool)
    ensures
        r == chrono_accepts(secs, nanos),
{
    chrono::DateTime::from_timestamp(secs, nanos).is_some()
}

/// The current time from `chrono::Utc::now`, as seconds and nanoseconds.
/// `Utc::now` builds its value with `from_timestamp` from the system clock's
/// whole seconds and sub-second nanoseconds, so chrono accepts it back and the
/// nanoseconds stay below one second (no leap second is ever produced).
/// Nothing is promised of which moment it is.
#[verifier::external_body]
fn chrono_now() -> (r: (i64, u32))
    ensures
        chrono_accepts(r.0, r.1),
        r.1 < 1_000_000_000,
{
    let now = chrono::Utc::now();
    (now.timestamp(), now.timestamp_subsec_nanos())
}

/// Renders the moment with `chrono`'s `format` for the pub-date pattern.
#[verifier::external_body]
fn chrono_format(secs: i64, nanos: u32, pattern: &str) -> (s: String)
    requires
        chrono_accepts(secs, nanos),
        pattern@ == pub_date_pattern(),
    ensures
        s@ == chrono_format_text(secs, nanos, pattern@),
{
    match chrono::DateTime::from_timestamp(secs, nanos) {
        Some(t) => t.format(pattern).to_string(),
        None => String::new(),
    }
}

/// Renders the moment with `chrono`'s `to_rfc3339`. For years 0 through 9999
/// it writes four-digit years, an offset of `+00:00`, and all non-zero
/// sub-second digits (a leap second as second 60), all of which
/// `parse_from_rfc3339` reads back to the same moment.
#[verifier::external_body]
fn chrono_to_rfc3339(secs: i64, nanos: u32) -> (s: String)
    requires
        chrono_accepts(secs, nanos),
    ensures
        s@ == chrono_rfc3339_text(secs, nanos),
        in_four_digit_years(secs) ==> chrono_rfc3339_parse(s@) == Some((secs, nanos)),
{
    match chrono::DateTime::from_timestamp(secs, nanos) {
        Some(t) => t.to_rfc3339(),
        None => String::new(),
    }
}

/// Parses RFC 3339 text with `chrono`'s `parse_from_rfc3339` and converts the
/// moment to UTC. The moment comes from a `DateTime`, so chrono accepts it back.
#[verifier::external_body]
fn chrono_parse_rfc3339(text: &str) -> (r: Option<(i64, u32)>)
    ensures
        r == chrono_rfc3339_parse(text@),
        r matches Some((secs, nanos)) ==> chrono_accepts(secs, nanos),
{
    match chrono::DateTime::parse_from_rfc3339(text) {
        Ok(t) => Some((t.timestamp(), t.timestamp_subsec_nanos())),
        Err(_) => None,
    }
}

/// A moment in UTC that chrono can represent.
#[derive(Clone, Copy, Debug, PartialEq, Eq)]
pub struct Timestamp {
    secs: i64,
    nanos: u32,
}

impl Timestamp {
    #[verifier::type_invariant]
    spec fn representable(self) -> bool {
        chrono_accepts(self.secs, self.nanos)
    }

    /// Seconds since the Unix epoch.
    pub closed spec fn spec_secs(self) -> i64 {
        self.secs
    }

    /// Nanoseconds past the second.
    pub closed spec fn spec_nanos(self) -> u32 {
        self.nanos
    }

    /// The moment `(secs, nanos)`, when chrono can represent it.
    pub fn from_unix(secs: i64, nanos: u32) -> (r: Option<Timestamp>)
        ensures
            r is Some <==> chrono_accepts(secs, nanos),
            r matches Some(t) ==> t.spec_secs() == secs && t.spec_nanos() == nanos,
    {
        if chrono_accepts_exec(secs, nanos) {
            Some(Timestamp { secs, nanos })
        } else {
            None
        }
    }

    /// The current time, whose nanoseconds lie within the second.
    pub fn now() -> (t: Timestamp)
        ensures
            t.spec_nanos() < 1_000_000_000,
    {
        let (secs, nanos) = chrono_now();
        Timestamp { secs, nanos }
    }

    /// Seconds since the Unix epoch.
    pub fn secs(&self) -> (r: i64)
        ensures
            r == self.spec_secs(),
    {
        self.secs
    }

    /// Nanoseconds past the second.
    pub fn nanos(&self) -> (r: u32)
        ensures
            r == self.spec_nanos(),
    {
        self.nanos
    }

    /// This moment as an RSS `pubDate`, e.g. `Sun, 06 Nov 1994 08:49:37 GMT`.
    pub fn to_pub_date(&self) -> (s: String)
        ensures
            s@ == chrono_format_text(self.spec_secs(), self.spec_nanos(), pub_date_pattern()),
    {
        proof {
            use_type_invariant(self);
        }
        let pattern = "%a, %d %b %Y %H:%M:%S GMT";
        proof {
            reveal_strlit("%a, %d %b %Y %H:%M:%S GMT");
        }
        assert(pattern@ =~= pub_date_pattern());
        chrono_format(self.secs, self.nanos, pattern)
    }

    /// This moment as RFC 3339 text.
    pub fn to_rfc3339(&self) -> (s: String)
        ensures
            s@ == chrono_rfc3339_text(self.spec_secs(), self.spec_nanos()),
            in_four_digit_years(self.spec_secs()) ==> chrono_rfc3339_parse(s@) == Some(
                (self.spec_secs(), self.spec_nanos()),
            ),
    {
        proof {
            use_type_invariant(self);
        }
        chrono_to_rfc3339(self.secs, self.nanos)
    }

    /// The moment that RFC 3339 `text` describes, converted to UTC.
    pub fn parse_rfc3339(text: &str) -> (r: Option<Timestamp>)
        ensures
            match chrono_rfc3339_parse(text@) {
                Some((secs, nanos)) => r matches Some(t) && t.spec_secs() == secs && t.spec_nanos()
                    == nanos,
                None => r is None,
            },
    {
        match chrono_parse_rfc3339(text) {
            Some((secs, nanos)) => Some(Timestamp { secs, nanos }),
            None => None,
        }
    }
}

} // verus!
