//! The fetch decisions: whether an existing file is fresh enough, which
//! headers a conditional request carries, and how the server's status and
//! `Last-Modified` header are read.

use vstd::prelude::*;
use vstd::string::StrSliceExecFns;

use crate::period::Duration;

verus! {

pub const NANOS_PER_SEC: i128 = 1_000_000_000;

/// The first second of year 0, the earliest instant an HTTP date can name.
pub const EARLIEST_HTTP_DATE: i64 = -62167219200;

/// The last second of year 9999, the latest instant an HTTP date can name.
pub const LATEST_HTTP_DATE: i64 = 253402300799;

/// An instant: whole seconds since the Unix epoch, and nanoseconds past them.
#[derive(Clone, Copy, Debug, PartialEq, Eq)]
pub struct Timestamp {
    pub secs: i64,
    pub nanos: u32,
}

impl Timestamp {
    /// The instant as nanoseconds since the epoch.
    pub open spec fn spec_nanos(self) -> int {
        self.secs * 1_000_000_000 + self.nanos
    }

    pub fn total_nanos(&self) -> (r: i128)
        ensures
            r == self.spec_nanos(),
    {
        let s = self.secs as i128;
        assert(-10_000_000_000_000_000_000_000_000_000 <= s * 1_000_000_000
            <= 10_000_000_000_000_000_000_000_000_000) by (nonlinear_arith)
            requires
                i64::MIN <= s <= i64::MAX,
        ;
        s * NANOS_PER_SEC + self.nanos as i128
    }

    /// Whether an HTTP date can name this instant.
    pub open spec fn spec_http_representable(self) -> bool {
        EARLIEST_HTTP_DATE <= self.secs <= LATEST_HTTP_DATE && self.nanos < 1_000_000_000
    }
}

/// The reference time: the destination's modification time, unless that lies
/// in the future.
pub open spec fn spec_reference_time(mtime: Option<Timestamp>, now: Timestamp) -> Option<Timestamp> {
    match mtime {
        Some(t) => if t.spec_nanos() < now.spec_nanos() {
            Some(t)
        } else {
            None
        },
        None => None,
    }
}

pub fn reference_time(mtime: Option<Timestamp>, now: Timestamp) -> (r: Option<Timestamp>)
    ensures
        r == spec_reference_time(mtime, now),
{
    match mtime {
        Some(t) => {
            if t.total_nanos() < now.total_nanos() {
                Some(t)
            } else {
                None
            }
        },
        None => None,
    }
}

/// Whether a fetch can be skipped.
#[derive(Clone, Copy, Debug, PartialEq, Eq)]
pub enum FreshnessDecision {
    Skip,
    Proceed,
}

/// A fetch is skipped when there is a reference time, a minimum age is set,
/// and the reference time is later than `now` less the minimum age.
pub open spec fn spec_skips(
    reference: Option<Timestamp>,
    min_age: Option<Duration>,
    now: Timestamp,
) -> bool {
    match (reference, min_age) {
        (Some(t), Some(m)) => t.spec_nanos() > now.spec_nanos() - m.secs * 1_000_000_000,
        _ => false,
    }
}

/// With no minimum age a fetch is never skipped, whatever the reference time.
pub proof fn lemma_no_min_age_proceeds(reference: Option<Timestamp>, now: Timestamp)
    ensures
        !spec_skips(reference, None, now),
{
}

pub fn freshness(reference: Option<Timestamp>, min_age: Option<Duration>, now: Timestamp) -> (r:
    FreshnessDecision)
    ensures
        r == (if spec_skips(reference, min_age, now) {
            FreshnessDecision::Skip
        } else {
            FreshnessDecision::Proceed
        }),
{
    match (reference, min_age) {
        (Some(t), Some(m)) => {
            let age = Timestamp { secs: m.secs, nanos: 0 }.total_nanos();
            if t.total_nanos() > now.total_nanos() - age {
                FreshnessDecision::Skip
            } else {
                FreshnessDecision::Proceed
            }
        },
        _ => FreshnessDecision::Proceed,
    }
}

/// A header line given as `Name: value` that has no colon.
#[derive(Clone, Debug, PartialEq, Eq)]
pub struct HeaderError {
    pub text: String,
}

pub open spec fn colon_free(s: Seq<char>) -> bool {
    forall|i: int| 0 <= i < s.len() ==> #[trigger] s[i] != ':'
}

/// `s` less one leading space, if it has one.
pub open spec fn strip_one_space(s: Seq<char>) -> Seq<char> {
    if s.len() > 0 && s[0] == ' ' {
        s.skip(1)
    } else {
        s
    }
}

/// `name` and `value` are what the line `h` gives: the name is the text
/// before the first colon, untrimmed, and the value the text after it less at
/// most one leading space.
pub open spec fn splits_header(h: Seq<char>, name: Seq<char>, value: Seq<char>) -> bool {
    let n = name.len() as int;
    &&& n < h.len()
    &&& h[n] == ':'
    &&& name == h.take(n)
    &&& colon_free(name)
    &&& value == strip_one_space(h.skip(n + 1))
}

/// Splits a `Name: value` line at its first colon.
pub fn parse_header(h: &str) -> (r: Result<(String, String), HeaderError>)
    ensures
        match r {
            Ok((name, value)) => splits_header(h@, name@, value@),
            Err(e) => colon_free(h@) && e.text@ == h@,
        },
{
    let n = h.unicode_len();
    let mut i: usize = 0;
    while i < n
        invariant
            n == h@.len(),
            i <= n,
            colon_free(h@.take(i as int)),
        decreases n - i,
    {
        if h.get_char(i) == ':' {
            let name = h.substring_char(0, i).to_owned();
            let mut start = i + 1;
            if start < n && h.get_char(start) == ' ' {
                start = start + 1;
            }
            let value = h.substring_char(start, n).to_owned();
            assert(value@ =~= strip_one_space(h@.skip(i + 1)));
            assert(name@ =~= h@.take(i as int));
            return Ok((name, value));
        }
        assert(h@.take(i + 1) =~= h@.take(i as int).push(h@[i as int]));
        i = i + 1;
    }
    assert(h@.take(n as int) =~= h@);
    Err(HeaderError { text: h.to_owned() })
}

/// How a response status is read.
#[derive(Clone, Copy, Debug, PartialEq, Eq)]
pub enum StatusClass {
    /// 200 to 299: the body is the content.
    Success,
    /// 304: the copy at hand is current.
    NotModified,
    /// 300 to 399 other than 304: a redirection not followed.
    RedirectOther,
    /// 400 to 599.
    ClientOrServerError,
    /// Anything else.
    Unrecognized,
}

pub open spec fn spec_classify(code: u16) -> StatusClass {
    if 200 <= code <= 299 {
        StatusClass::Success
    } else if code == 304 {
        StatusClass::NotModified
    } else if 300 <= code <= 399 {
        StatusClass::RedirectOther
    } else if 400 <= code <= 599 {
        StatusClass::ClientOrServerError
    } else {
        StatusClass::Unrecognized
    }
}

pub fn classify_status(code: u16) -> (r: StatusClass)
    ensures
        r == spec_classify(code),
{
    if 200 <= code && code <= 299 {
        StatusClass::Success
    } else if code == 304 {
        StatusClass::NotModified
    } else if 300 <= code && code <= 399 {
        StatusClass::RedirectOther
    } else if 400 <= code && code <= 599 {
        StatusClass::ClientOrServerError
    } else {
        StatusClass::Unrecognized
    }
}

/// What chrono's `DateTime::to_rfc2822` writes for the instant `secs`
/// seconds and `nanos` nanoseconds after the epoch, in UTC.
pub uninterp spec fn rfc2822_of(secs: i64, nanos: u32) -> Seq<char>;

/// The instant, as seconds and nanoseconds since the epoch, that chrono's
/// `DateTime::parse_from_rfc2822` reads from `s`; `None` where it fails.
pub uninterp spec fn rfc2822_instant(s: Seq<char>) -> Option<(i64, u32)>;

/// Relies on chrono's `DateTime::<Utc>::from_timestamp`, which gives a date
/// for every instant of the years 0 to 9999 with less than a second of
/// nanoseconds, and on `DateTime::to_rfc2822`, which writes such a date and
/// panics only on other years.
#[verifier::external_body]
fn http_date(secs: i64, nanos: u32) -> (r: Option<String>)
    requires
        EARLIEST_HTTP_DATE <= secs <= LATEST_HTTP_DATE,
        nanos < 1_000_000_000,
    ensures
        r is Some,
        r->0@ == rfc2822_of(secs, nanos),
{
    match chrono::DateTime::from_timestamp(secs, nanos) {
        Some(d) => Some(d.to_rfc2822()),
        None => None,
    }
}

/// Relies on chrono's `DateTime::parse_from_rfc2822`, with the instant it
/// finds read back by `timestamp` and `timestamp_subsec_nanos`.
#[verifier::external_body]
fn parse_http_date(s: &str) -> (r: Option<Timestamp>)
    ensures
        match r {
            Some(t) => rfc2822_instant(s@) == Some((t.secs, t.nanos)),
            None => rfc2822_instant(s@) is None,
        },
{
    match chrono::DateTime::parse_from_rfc2822(s) {
        Ok(d) => Some(Timestamp { secs: d.timestamp(), nanos: d.timestamp_subsec_nanos() }),
        Err(_) => None,
    }
}

/// The server's modification time, from its `Last-Modified` header; a date
/// that cannot be read counts as none.
pub fn last_modified(header: Option<&str>) -> (r: Option<Timestamp>)
    ensures
        match header {
            Some(h) => match rfc2822_instant(h@) {
                Some((secs, nanos)) => r == Some(Timestamp { secs, nanos }),
                None => r is None,
            },
            None => r is None,
        },
{
    match header {
        Some(h) => parse_http_date(h),
        None => None,
    }
}

pub open spec fn conditional_header_name() -> Seq<char> {
    seq!['I', 'f', '-', 'M', 'o', 'd', 'i', 'f', 'i', 'e', 'd', '-', 'S', 'i', 'n', 'c', 'e']
}

/// The headers `hs` are `date`'s conditional header, if there is a date,
/// followed by what each line of `raw` gives, in order.
pub open spec fn lists_headers(
    date: Option<Seq<char>>,
    raw: Seq<String>,
    hs: Seq<(String, String)>,
) -> bool {
    let off: int = if date is Some {
        1
    } else {
        0
    };
    &&& hs.len() == off + raw.len()
    &&& date is Some ==> hs[0].0@ == conditional_header_name() && hs[0].1@ == date->0
    &&& forall|i: int| 0 <= i < raw.len() ==> splits_header(#[trigger] raw[i]@, hs[off + i].0@, hs[off + i].1@)
}

/// `e` reports the first line of `raw` that has no colon.
pub open spec fn reports_first_bad(raw: Seq<String>, e: HeaderError) -> bool {
    exists|i: int|
        0 <= i < raw.len() && colon_free(#[trigger] raw[i]@) && e.text@ == raw[i]@ && forall|j: int|
            0 <= j < i ==> !colon_free(#[trigger] raw[j]@)
}

/// The request headers: the conditional header carrying `date`, when given,
/// then each `Name: value` line of `raw` in order. Fails on the first line
/// without a colon.
pub fn headers_with(date: Option<String>, raw: &Vec<String>) -> (r: Result<
    Vec<(String, String)>,
    HeaderError,
>)
    ensures
        match r {
            Ok(hs) => lists_headers(
                match date {
                    Some(d) => Some(d@),
                    None => None,
                },
                raw@,
                hs@,
            ),
            Err(e) => reports_first_bad(raw@, e),
        },
        r is Ok <==> headers_valid(raw@),
{
    let ghost dv = match date {
        Some(ref d) => Some(d@),
        None => None::<Seq<char>>,
    };
    let mut hs: Vec<(String, String)> = Vec::new();
    let off: usize = match date {
        Some(d) => {
            let name = "If-Modified-Since".to_owned();
            proof {
                reveal_strlit("If-Modified-Since");
                assert(name@ =~= conditional_header_name());
            }
            hs.push((name, d));
            1
        },
        None => 0,
    };
    let mut i: usize = 0;
    while i < raw.len()
        invariant
            off == (if dv is Some {
                1int
            } else {
                0
            }),
            i <= raw@.len(),
            hs@.len() == off + i,
            dv is Some ==> hs@[0].0@ == conditional_header_name() && hs@[0].1@ == dv->0,
            forall|j: int| 0 <= j < i ==> splits_header(#[trigger] raw@[j]@, hs@[off + j].0@, hs@[off + j].1@),
            forall|j: int| 0 <= j < i ==> !colon_free(#[trigger] raw@[j]@),
        decreases raw@.len() - i,
    {
        match parse_header(raw[i].as_str()) {
            Ok(pair) => {
                hs.push(pair);
            },
            Err(e) => {
                assert(colon_free(raw@[i as int]@));
                return Err(e);
            },
        }
        i = i + 1;
    }
    assert forall|j: int| 0 <= j < raw@.len() implies !colon_free(#[trigger] raw@[j]@) by {
        let n = hs@[off + j].0@.len() as int;
        assert(raw@[j]@[n] == ':');
    }
    Ok(hs)
}

/// Whether a request made with `reference` as reference time is conditional.
pub open spec fn sends_conditional(reference: Option<Timestamp>) -> bool {
    reference is Some && reference->0.spec_http_representable()
}

/// The date that the conditional header carries, if the request is
/// conditional.
pub open spec fn conditional_date(reference: Option<Timestamp>) -> Option<Seq<char>> {
    if sends_conditional(reference) {
        Some(rfc2822_of(reference->0.secs, reference->0.nanos))
    } else {
        None
    }
}

/// Every line of `raw` has a colon.
pub open spec fn headers_valid(raw: Seq<String>) -> bool {
    forall|i: int| 0 <= i < raw.len() ==> !colon_free(#[trigger] raw[i]@)
}

/// The request headers for a fetch: the conditional `If-Modified-Since`
/// header when there is a reference time that an HTTP date can name, then
/// each `Name: value` line of `raw` in order.
pub fn request_headers(reference: Option<Timestamp>, raw: &Vec<String>) -> (r: Result<
    Vec<(String, String)>,
    HeaderError,
>)
    ensures
        match r {
            Ok(hs) => lists_headers(conditional_date(reference), raw@, hs@),
            Err(e) => reports_first_bad(raw@, e),
        },
        r is Ok <==> headers_valid(raw@),
{
    let date = match reference {
        Some(t) => {
            if EARLIEST_HTTP_DATE <= t.secs && t.secs <= LATEST_HTTP_DATE && t.nanos
                < 1_000_000_000 {
                http_date(t.secs, t.nanos)
            } else {
                None
            }
        },
        None => None,
    };
    headers_with(date, raw)
}

} // verus!
