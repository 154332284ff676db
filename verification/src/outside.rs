//! Calls into outside crates and into std where vstd gives no specification.
//! Each item states what its contract claims of the outside code; nothing
//! here is proved.
use vstd::prelude::*;

verus! {

/// The 128-bit value of the UUID that the `uuid` crate's parser reads from the
/// ASCII text `s`, or `None` where the parser rejects it.
pub uninterp spec fn uuid_parse(s: Seq<u8>) -> Option<u128>;

/// Calls `uuid::Uuid::try_parse_ascii`, the parser behind `Uuid::parse_str`,
/// and returns the UUID as its 128-bit value (`Uuid::as_u128`). The contract
/// claims only that the result is `uuid_parse` of the input bytes; which
/// spellings the parser accepts is the crate's own.
#[verifier::external_body]
pub(crate) fn parse_uuid_ascii(input: &[u8]) -> (r: Option<u128>)
    ensures
        r == uuid_parse(input@),
{
    uuid::Uuid::try_parse_ascii(input).ok().map(|value| value.as_u128())
}


/// Calls `String::from_utf8` on bytes that are all ASCII. Every ASCII byte
/// sequence is valid UTF-8, so the call succeeds and each byte becomes the
/// character with the same code; that is what the contract claims.
#[verifier::external_body]
pub(crate) fn ascii_string(bytes: Vec<u8>) -> (s: String)
    requires
        crate::text::is_ascii_bytes(bytes@),
    ensures
        s@ == crate::text::ascii_chars(bytes@),
{
    String::from_utf8(bytes).unwrap_or_default()
}


/// Whether `std::path::Path::is_absolute` holds of the path written as `path`.
pub uninterp spec fn path_is_absolute(path: Seq<char>) -> bool;

/// Calls `std::path::Path::is_absolute` on the path written as `path`. The
/// contract claims only that the answer is `path_is_absolute` of the text;
/// what counts as absolute is the platform's rule.
#[verifier::external_body]
pub(crate) fn path_is_absolute_str(path: &str) -> (r: bool)
    ensures
        r == path_is_absolute(path@),
{
    std::path::Path::new(path).is_absolute()
}


/// The SHA-256 digest of `data`, as the `sha2` crate computes it.
pub uninterp spec fn sha256(data: Seq<u8>) -> Seq<u8>;

/// Calls `sha2::Sha256::digest`. The contract claims that the result is
/// `sha256` of the input and, as the algorithm fixes, 32 bytes long.
#[verifier::external_body]
pub(crate) fn sha256_digest(data: &[u8]) -> (r: Vec<u8>)
    ensures
        r@ == sha256(data@),
        r@.len() == 32,
{
    <sha2::Sha256 as sha2::Digest>::digest(data).to_vec()
}


/// Reads the system clock (`std::time::SystemTime::now`) and returns the whole
/// milliseconds since the Unix epoch (`duration_since(UNIX_EPOCH)` and
/// `Duration::as_millis`), or `None` when the clock reads before the epoch.
/// The reading depends on the time, so nothing is claimed of it.
#[verifier::external_body]
pub(crate) fn clock_epoch_millis() -> (r: Option<u128>) {
    std::time::SystemTime::now()
        .duration_since(std::time::UNIX_EPOCH)
        .ok()
        .map(|elapsed| elapsed.as_millis())
}


/// The name and value pairs that `form_urlencoded::parse` reads from a
/// query string, decoded.
pub uninterp spec fn form_pairs(query: Seq<u8>) -> Seq<(Seq<char>, Seq<char>)>;

/// Text pairs as their character sequences.
pub open spec fn pair_views(pairs: Seq<(String, String)>) -> Seq<(Seq<char>, Seq<char>)> {
    pairs.map_values(|p: (String, String)| (p.0@, p.1@))
}

/// Calls `url::form_urlencoded::parse` and owns each decoded pair. The
/// contract claims only that the pairs are `form_pairs` of the input, in the
/// order the parser yields them.
#[verifier::external_body]
pub(crate) fn form_urlencoded_pairs(query: &[u8]) -> (r: Vec<(String, String)>)
    ensures
        pair_views(r@) == form_pairs(query@),
{
    url::form_urlencoded::parse(query).map(|(name, value)| (name.into_owned(), value.into_owned())).collect()
}


/// The parts of a URL that the API inspects.
#[derive(Clone, Debug)]
pub struct UrlParts {
    pub serialized: String,
    pub scheme: String,
    pub host: Option<String>,
    pub username: String,
    pub has_password: bool,
    pub has_fragment: bool,
}

pub open spec fn opt_text(value: Option<String>) -> Option<Seq<char>> {
    match value {
        Some(v) => Some(v@),
        None => None,
    }
}

/// The parts as text: serialization, scheme, host, user name, and whether
/// there is a password and a fragment.
pub open spec fn url_parts_view(p: UrlParts) -> (Seq<char>, Seq<char>, Option<Seq<char>>, Seq<char>, bool, bool) {
    (p.serialized@, p.scheme@, opt_text(p.host), p.username@, p.has_password, p.has_fragment)
}

/// What `url::Url::parse` reads from a text, as its parts; `None` where it
/// rejects the text.
pub uninterp spec fn url_parsed(text: Seq<char>) -> Option<(Seq<char>, Seq<char>, Option<Seq<char>>, Seq<char>, bool, bool)>;

/// Calls `url::Url::parse` and reads the parsed URL's serialization,
/// `scheme`, `host_str`, `username`, and whether `password` and `fragment`
/// are present. The contract claims only that these are `url_parsed` of the
/// text.
#[verifier::external_body]
pub(crate) fn parse_url(text: &str) -> (r: Option<UrlParts>)
    ensures
        match r {
            Some(p) => url_parsed(text@) == Some(url_parts_view(p)),
            None => url_parsed(text@) is None,
        },
{
    match url::Url::parse(text) {
        Ok(u) => Some(UrlParts {
            serialized: u.as_str().to_owned(),
            scheme: u.scheme().to_owned(),
            host: u.host_str().map(|h| h.to_owned()),
            username: u.username().to_owned(),
            has_password: u.password().is_some(),
            has_fragment: u.fragment().is_some(),
        }),
        Err(_) => None,
    }
}

/// The serialization of `url::Url::join` of a reference against a base
/// URL, where the base parses and the join succeeds.
pub uninterp spec fn url_joined(base: Seq<char>, reference: Seq<char>) -> Option<Seq<char>>;

/// Parses `base` with `url::Url::parse` and calls `Url::join` with
/// `reference`. The contract claims only that the serialized result is
/// `url_joined` of the two texts.
#[verifier::external_body]
pub(crate) fn join_url(base: &str, reference: &str) -> (r: Option<String>)
    ensures
        opt_text(r) == url_joined(base@, reference@),
{
    url::Url::parse(base).ok()?.join(reference).ok().map(|u| u.to_string())
}

/// The serialization of a URL after `url::Url::set_fragment` with the given
/// fragment, where the URL parses.
pub uninterp spec fn url_with_fragment(url: Seq<char>, fragment: Seq<char>) -> Option<Seq<char>>;

/// Parses `url` with `url::Url::parse` and calls `Url::set_fragment` with
/// `fragment`. The contract claims only that the serialized result is
/// `url_with_fragment` of the two texts.
#[verifier::external_body]
pub(crate) fn set_url_fragment(url: &str, fragment: &str) -> (r: Option<String>)
    ensures
        opt_text(r) == url_with_fragment(url@, fragment@),
{
    let mut parsed = url::Url::parse(url).ok()?;
    parsed.set_fragment(Some(fragment));
    Some(parsed.to_string())
}

/// The epoch milliseconds of an RFC 3339 timestamp, as `chrono` reads it;
/// `None` where it rejects the text.
pub uninterp spec fn rfc3339_millis(text: Seq<char>) -> Option<i64>;

/// Calls `chrono::DateTime::parse_from_rfc3339` and `timestamp_millis`. The
/// contract claims only that the result is `rfc3339_millis` of the text.
#[verifier::external_body]
pub(crate) fn parse_rfc3339_millis(text: &str) -> (r: Option<i64>)
    ensures
        r == rfc3339_millis(text@),
{
    chrono::DateTime::parse_from_rfc3339(text).ok().map(|d| d.timestamp_millis())
}


/// The year and month of the proleptic Gregorian calendar that hold a day
/// counted from 1970-01-01 (day 0); years are astronomical (year 0 is 1 BC).
pub open spec fn civil_year_month(day: int) -> (int, int) {
    let z = day + 719_468;
    let era = z / 146_097;
    let doe = z - era * 146_097;
    let yoe = (doe - doe / 1_460 + doe / 36_524 - doe / 146_096) / 365;
    let doy = doe - (365 * yoe + yoe / 4 - yoe / 100);
    let mp = (5 * doy + 2) / 153;
    let month = if mp < 10 { mp + 3 } else { mp - 9 };
    (yoe + era * 400 + if month <= 2 { 1int } else { 0int }, month)
}

/// The day, counted from 1970-01-01, that is the first of a month of the
/// proleptic Gregorian calendar.
pub open spec fn civil_month_first_day(year: int, month: int) -> int {
    let y = if month <= 2 { year - 1 } else { year };
    let era = y / 400;
    let yoe = y - era * 400;
    let mp = if month > 2 { month - 3 } else { month + 9 };
    let doe = yoe * 365 + yoe / 4 - yoe / 100 + (153 * mp + 2) / 5;
    era * 146_097 + doe - 719_468
}

/// The UTC year and month of an instant given in epoch milliseconds, as
/// `chrono` computes them; `None` where `chrono` cannot represent it.
pub uninterp spec fn utc_year_month(now_ms: i64) -> Option<(i32, u32)>;

/// Calls `chrono::Utc.timestamp_millis_opt` and reads the single result's
/// `year` and `month`. The contract claims that the result is
/// `utc_year_month` of the instant and that, where there is one, it is the
/// UTC day's year and month in the proleptic Gregorian calendar that
/// `chrono` uses (so the month lies in 1 to 12, as `Datelike::month`
/// documents). Which instants are out of `chrono`'s range is left to the
/// name: its documentation gives no bound.
#[verifier::external_body]
pub(crate) fn utc_year_month_of(now_ms: i64) -> (r: Option<(i32, u32)>)
    ensures
        r == utc_year_month(now_ms),
        r matches Some(ym) ==> 1 <= ym.1 <= 12,
        r matches Some(ym) ==> ym.0 as int == civil_year_month(now_ms as int / 86_400_000).0
            && ym.1 as int == civil_year_month(now_ms as int / 86_400_000).1,
{
    chrono::TimeZone::timestamp_millis_opt(&chrono::Utc, now_ms).single().map(|d| (chrono::Datelike::year(&d), chrono::Datelike::month(&d)))
}

/// The epoch milliseconds of midnight UTC on the first day of a month, as
/// `chrono` computes them; `None` where `chrono` cannot represent it.
pub uninterp spec fn utc_month_start(year: i32, month: u32) -> Option<i64>;

/// Calls `chrono::Utc.with_ymd_and_hms(year, month, 1, 0, 0, 0)` and reads
/// the single result's `timestamp_millis`. The contract claims that the
/// result is `utc_month_start` of the year and month and that, where there
/// is one, the month is a real one (1 to 12) and the result is midnight
/// UTC of that month's first day. Which years are out of `chrono`'s range
/// is left to the name.
#[verifier::external_body]
pub(crate) fn utc_month_start_ms(year: i32, month: u32) -> (r: Option<i64>)
    ensures
        r == utc_month_start(year, month),
        r matches Some(ms) ==> 1 <= month <= 12 && ms as int == civil_month_first_day(
            year as int,
            month as int,
        ) * 86_400_000,
{
    chrono::TimeZone::with_ymd_and_hms(&chrono::Utc, year, month, 1, 0, 0, 0).single().map(|d| d.timestamp_millis())
}

/// The hyphenated lowercase text of a UUID given as its 128-bit value, as
/// the `uuid` crate's `Display` writes it: the 32 lowercase hexadecimal
/// digits of the value's 16 big-endian bytes, with `-` after the 8th, 12th,
/// 16th and 20th digit.
pub open spec fn uuid_text(value: u128) -> Seq<char> {
    let d = crate::encoding::hex_lower(crate::encoding::be_bytes(value as nat, 16));
    let dash = seq![0x2Du8];
    crate::text::ascii_chars(
        d.subrange(0, 8) + dash + d.subrange(8, 12) + dash + d.subrange(12, 16) + dash
            + d.subrange(16, 20) + dash + d.subrange(20, 32),
    )
}

/// Calls `uuid::Uuid::from_u128` (the value's bytes, big-endian) and formats
/// the UUID with `Display`, which writes it lowercase and hyphenated. The
/// contract claims that the text is `uuid_text` of the value.
#[verifier::external_body]
pub(crate) fn uuid_string(value: u128) -> (r: String)
    ensures
        r@ == uuid_text(value),
{
    uuid::Uuid::from_u128(value).to_string()
}

} // verus!
