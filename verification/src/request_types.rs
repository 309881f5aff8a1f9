use vstd::prelude::*;

use crate::chars::str_to_chars;

verus! {

/// Identifier of a user: the 128 bits of a UUID.
#[derive(Debug, Clone, Copy, PartialEq, Eq, Hash)]
pub struct UserId(pub u128);

/// The URL of a shard, in the normalized form that the URL parser gives it.
#[derive(Debug, Clone, PartialEq, Eq)]
pub struct ShardUrl(pub String);

/// Identifier of a tariff plan.
#[derive(Debug, Clone, Copy, PartialEq, Eq, Hash)]
pub struct TariffId(pub u64);

/// An amount of money in minor units.
#[derive(Debug, Clone, Copy, PartialEq, Eq, Hash)]
pub struct Money(pub u64);

impl Default for Money {
    fn default() -> (m: Self)
        ensures
            m.0 == 0,
    {
        Money(0)
    }
}

impl Default for TariffId {
    fn default() -> (t: Self)
        ensures
            t.0 == 0,
    {
        TariffId(0)
    }
}

/// A span of time given in human terms (`5s`, `2h 37min`): whole seconds and the
/// nanoseconds past them.
#[derive(Debug, Clone, Copy, PartialEq, Eq)]
pub struct HumanDuration {
    pub secs: u64,
    pub nanos: u32,
}

impl Default for HumanDuration {
    fn default() -> (d: Self)
        ensures
            d.secs == 0 && d.nanos == 0,
    {
        HumanDuration { secs: 0, nanos: 0 }
    }
}

/// What `humantime::parse_duration` makes of a text: seconds and nanoseconds, or the
/// text of its error.
pub uninterp spec fn humantime_parse(s: Seq<char>) -> Result<(u64, u32), Seq<char>>;

/// The number of decimal digits (`0` to `9`) in the text.
pub open spec fn digit_count(s: Seq<char>) -> nat
    decreases s.len(),
{
    if s.len() == 0 {
        0
    } else {
        digit_count(s.drop_last()) + if '0' <= s.last() && s.last() <= '9' {
            1nat
        } else {
            0nat
        }
    }
}

/// The most digits a duration text may hold: with at most 11 digits every number in it is
/// below 10^11, so even in years the seconds stay far below `u64::MAX`.
pub const DURATION_MAX_DIGITS: usize = 11;

/// Parses a human-readable duration with `humantime::parse_duration`.
/// Trusted: the outcome is the crate's parse of exactly this text (named, not spelled out).
/// The crate panics when its running total reaches `u64::MAX` seconds and its nanoseconds
/// then add up to exactly one second (`Duration::new` overflows). That needs numbers of
/// more than 11 digits in all: each span adds at most its number times 31,557,600 seconds
/// (a year) plus less than one such unit for a fraction, so `requires` leaves such texts out.
#[verifier::external_body]
fn humantime_parse_duration(s: &str) -> (r: Result<(u64, u32), String>)
    requires
        digit_count(s@) <= DURATION_MAX_DIGITS,
    ensures
        r is Ok ==> humantime_parse(s@) == Ok::<(u64, u32), Seq<char>>(r->Ok_0),
        r is Err ==> humantime_parse(s@) == Err::<(u64, u32), Seq<char>>(r->Err_0@),
{
    match humantime::parse_duration(s) {
        Ok(d) => Ok((d.as_secs(), d.subsec_nanos())),
        Err(e) => Err(e.to_string()),
    }
}

/// Whether a duration text holds few enough digits to be read: at most
/// `DURATION_MAX_DIGITS`.
pub fn duration_digits_within_limit(s: &str) -> (r: bool)
    ensures
        r == (digit_count(s@) <= DURATION_MAX_DIGITS),
{
    let v = str_to_chars(s);
    let mut n: usize = 0;
    let mut i: usize = 0;
    while i < v.len()
        invariant
            i <= v.len(),
            n == digit_count(v@.take(i as int)),
            n <= i,
        decreases v.len() - i,
    {
        assert(v@.take(i + 1).drop_last() == v@.take(i as int));
        if '0' <= v[i] && v[i] <= '9' {
            n = n + 1;
        }
        i = i + 1;
    }
    assert(v@.take(v.len() as int) == v@);
    n <= DURATION_MAX_DIGITS
}

/// Reads a human-readable duration such as `5s` or `2h 37min`; the text holds at most
/// `DURATION_MAX_DIGITS` digits.
pub fn parse_duration_str(s: &str) -> (r: Result<HumanDuration, String>)
    requires
        digit_count(s@) <= DURATION_MAX_DIGITS,
    ensures
        match humantime_parse(s@) {
            Ok((secs, nanos)) => r matches Ok(d) && d.secs == secs && d.nanos == nanos,
            Err(m) => r matches Err(e) && e@ == m,
        },
{
    match humantime_parse_duration(s) {
        Ok((secs, nanos)) => Ok(HumanDuration { secs, nanos }),
        Err(m) => Err(m),
    }
}

/// What `uuid::Uuid::parse_str` makes of a text: the UUID's 128 bits, or the text of its
/// error.
pub uninterp spec fn uuid_parse(s: Seq<char>) -> Result<u128, Seq<char>>;

/// Parses a UUID with `uuid::Uuid::parse_str`.
/// Trusted: the outcome is the crate's parse of exactly this text (named, not spelled out).
#[verifier::external_body]
fn uuid_parse_str(s: &str) -> (r: Result<u128, String>)
    ensures
        r is Ok ==> uuid_parse(s@) == Ok::<u128, Seq<char>>(r->Ok_0),
        r is Err ==> uuid_parse(s@) == Err::<u128, Seq<char>>(r->Err_0@),
{
    match uuid::Uuid::parse_str(s) {
        Ok(u) => Ok(u.as_u128()),
        Err(e) => Err(e.to_string()),
    }
}

/// Reads a user identifier written as a UUID.
pub fn parse_user_id(s: &str) -> (r: Result<UserId, String>)
    ensures
        match uuid_parse(s@) {
            Ok(v) => r == Ok::<UserId, String>(UserId(v)),
            Err(m) => r matches Err(e) && e@ == m,
        },
{
    match uuid_parse_str(s) {
        Ok(v) => Ok(UserId(v)),
        Err(m) => Err(m),
    }
}

/// What `url::Url::parse` makes of a text: the serialization of the absolute URL, or the
/// text of its error.
pub uninterp spec fn url_parse(s: Seq<char>) -> Result<Seq<char>, Seq<char>>;

/// Parses an absolute URL with `url::Url::parse`.
/// Trusted: the outcome is the crate's parse of exactly this text (named, not spelled out).
#[verifier::external_body]
fn url_parse_str(s: &str) -> (r: Result<String, String>)
    ensures
        r is Ok ==> url_parse(s@) == Ok::<Seq<char>, Seq<char>>(r->Ok_0@),
        r is Err ==> url_parse(s@) == Err::<Seq<char>, Seq<char>>(r->Err_0@),
{
    match url::Url::parse(s) {
        Ok(u) => Ok(u.as_str().to_string()),
        Err(e) => Err(e.to_string()),
    }
}

/// Reads the URL of a shard.
pub fn parse_shard_url(s: &str) -> (r: Result<ShardUrl, String>)
    ensures
        match url_parse(s@) {
            Ok(v) => r matches Ok(u) && u.0@ == v,
            Err(m) => r matches Err(e) && e@ == m,
        },
{
    match url_parse_str(s) {
        Ok(v) => Ok(ShardUrl(v)),
        Err(m) => Err(m),
    }
}

} // verus!
