//! What the instance accepts from and sends to its billing provider:
//! credentials, provider identifiers, idempotency keys, contact details and
//! decimal amounts.
use vstd::prelude::*;
use vstd::string::{StrSliceExecFns, StringSliceAdditionalSpecFns};
use crate::instance::InstanceServiceError;
use crate::text::{str_eq, 
    ByteClass, all_in_class, append_bytes, ascii_chars, bytes_in_class, contains_byte,
    decimal_bytes, find_last, has_prefix, in_class, is_ascii_bytes, last_index_of,
    lemma_decimal_bytes_ascii, lemma_last_index_of, push_decimal, starts_with, trim_chars,
    trim_str,
};

verus! {

/// Version of the provider catalog layout that this instance provisions.
pub const STRIPE_CATALOG_VERSION: u64 = 1;

/// A provider secret key: `sk_test_` or `sk_live_`, 16 to 512 printable bytes.
pub open spec fn secret_key_ok(b: Seq<u8>) -> bool {
    &&& (has_prefix(b, "sk_test_".spec_bytes()) || has_prefix(b, "sk_live_".spec_bytes()))
    &&& 16 <= b.len() <= 512
    &&& all_in_class(b, ByteClass::Graphic)
}

/// A provider webhook secret: `whsec_`, 16 to 512 printable bytes.
pub open spec fn webhook_secret_ok(b: Seq<u8>) -> bool {
    &&& has_prefix(b, "whsec_".spec_bytes())
    &&& 16 <= b.len() <= 512
    &&& all_in_class(b, ByteClass::Graphic)
}

/// A provider identifier: the prefix, at least eight more bytes, at most
/// 255 bytes in all, each an ASCII letter, digit or `_`.
pub open spec fn provider_id_ok(value: Seq<u8>, prefix: Seq<u8>) -> bool {
    &&& has_prefix(value, prefix)
    &&& prefix.len() + 8 <= value.len() <= 255
    &&& all_in_class(value, ByteClass::IdChar)
}

/// An idempotency key handed to the provider: 8 to 200 key characters.
pub open spec fn provider_idempotency_key_ok(b: Seq<u8>) -> bool {
    8 <= b.len() <= 200 && all_in_class(b, ByteClass::KeyChar)
}

/// A two-letter country code.
pub open spec fn country_ok(b: Seq<u8>) -> bool {
    b.len() == 2 && all_in_class(b, ByteClass::Alphabetic)
}

/// An e-mail address after trimming: at most 320 printable bytes, a
/// non-empty local part before the last `@`, and a domain after it that
/// holds a `.` but neither starts nor ends with one.
pub open spec fn email_ok(t: Seq<u8>) -> bool {
    let at = last_index_of(t, 0x40u8);
    let domain = t.subrange(at + 1, t.len() as int);
    &&& at > 0
    &&& t.len() <= 320
    &&& contains_byte(domain, 0x2Eu8)
    &&& domain[0] != 0x2Eu8
    &&& domain.last() != 0x2Eu8
    &&& all_in_class(t, ByteClass::Graphic)
}

pub open spec fn accepted(ok: bool) -> Result<(), InstanceServiceError> {
    if ok {
        Ok(())
    } else {
        Err(InstanceServiceError::InvalidRequest)
    }
}

pub fn validate_stripe_secret_key(value: &str) -> (r: Result<(), InstanceServiceError>)
    ensures
        r == accepted(secret_key_ok(value.spec_bytes())),
{
    let b = value.as_bytes();
    if (starts_with(b, "sk_test_".as_bytes()) || starts_with(b, "sk_live_".as_bytes())) && 16
        <= b.len() && b.len() <= 512 && bytes_in_class(b, ByteClass::Graphic) {
        Ok(())
    } else {
        Err(InstanceServiceError::InvalidRequest)
    }
}

pub fn validate_stripe_webhook_secret(value: &str) -> (r: Result<(), InstanceServiceError>)
    ensures
        r == accepted(webhook_secret_ok(value.spec_bytes())),
{
    let b = value.as_bytes();
    if starts_with(b, "whsec_".as_bytes()) && 16 <= b.len() && b.len() <= 512 && bytes_in_class(
        b,
        ByteClass::Graphic,
    ) {
        Ok(())
    } else {
        Err(InstanceServiceError::InvalidRequest)
    }
}

pub fn validate_provider_idempotency_key(value: &str) -> (r: Result<(), InstanceServiceError>)
    ensures
        r == accepted(provider_idempotency_key_ok(value.spec_bytes())),
{
    let b = value.as_bytes();
    if 8 <= b.len() && b.len() <= 200 && bytes_in_class(b, ByteClass::KeyChar) {
        Ok(())
    } else {
        Err(InstanceServiceError::InvalidRequest)
    }
}

pub fn validate_country(value: &str) -> (r: Result<(), InstanceServiceError>)
    ensures
        r == accepted(country_ok(value.spec_bytes())),
{
    let b = value.as_bytes();
    if b.len() == 2 && bytes_in_class(b, ByteClass::Alphabetic) {
        Ok(())
    } else {
        Err(InstanceServiceError::InvalidRequest)
    }
}

/// Whether `bytes[lo..hi]` contains `c`.
fn range_contains(bytes: &[u8], lo: usize, hi: usize, c: u8) -> (r: bool)
    requires
        lo <= hi <= bytes@.len(),
    ensures
        r == contains_byte(bytes@.subrange(lo as int, hi as int), c),
{
    let mut i: usize = lo;
    while i < hi
        invariant
            lo <= i <= hi <= bytes@.len(),
            forall|k: int| lo <= k < i ==> bytes@[k] != c,
        decreases hi - i,
    {
        if bytes[i] == c {
            proof {
                assert(bytes@.subrange(lo as int, hi as int)[i - lo] == c);
            }
            return true;
        }
        i = i + 1;
    }
    proof {
        let s = bytes@.subrange(lo as int, hi as int);
        assert forall|k: int| 0 <= k < s.len() implies s[k] != c by {
            assert(s[k] == bytes@[k + lo]);
        }
    }
    false
}

/// Accepts an e-mail address as the provider onboarding form needs it; the
/// address is judged without its surrounding whitespace.
pub fn validate_email(value: &str) -> (r: Result<(), InstanceServiceError>)
    ensures
        r == accepted(email_ok(vstd::utf8::encode_utf8(trim_chars(value@)))),
{
    let (t, _) = trim_str(value);
    let b = t.as_bytes();
    proof {
        lemma_last_index_of(b@, 0x40u8);
    }
    let at = match find_last(b, 0x40u8) {
        Some(i) => i,
        None => {
            return Err(InstanceServiceError::InvalidRequest);
        },
    };
    let n = b.len();
    if at == 0 || n > 320 {
        return Err(InstanceServiceError::InvalidRequest);
    }
    let has_dot = range_contains(b, at + 1, n, 0x2Eu8);
    if !has_dot {
        return Err(InstanceServiceError::InvalidRequest);
    }
    proof {
        let d = b@.subrange(at + 1, n as int);
        let k = choose|k: int| 0 <= k < d.len() && d[k] == 0x2Eu8;
        assert(d[0] == b@[at + 1]);
        assert(d.last() == b@[n - 1]);
    }
    if b[at + 1] == 0x2Eu8 || b[n - 1] == 0x2Eu8 || !bytes_in_class(b, ByteClass::Graphic) {
        return Err(InstanceServiceError::InvalidRequest);
    }
    Ok(())
}

/// Whether `value` is a provider identifier with the given prefix.
pub fn valid_provider_id(value: &str, prefix: &str) -> (r: bool)
    ensures
        r == provider_id_ok(value.spec_bytes(), prefix.spec_bytes()),
{
    let b = value.as_bytes();
    let p = prefix.as_bytes();
    starts_with(b, p) && b.len() - p.len() >= 8 && b.len() <= 255 && bytes_in_class(
        b,
        ByteClass::IdChar,
    )
}

/// The catalog may only be provisioned into the account it is stored for,
/// and that account must carry a well-formed account identifier.
pub fn validate_catalog_account(requested_account_id: &str, stored_account_id: &str) -> (r: Result<
    (),
    InstanceServiceError,
>)
    ensures
        r == (if requested_account_id@ == stored_account_id@ && provider_id_ok(
            requested_account_id.spec_bytes(),
            "acct_".spec_bytes(),
        ) {
            Ok(())
        } else {
            Err(InstanceServiceError::InvalidConfiguration)
        }),
{
    if crate::text::str_eq(requested_account_id, stored_account_id) && valid_provider_id(
        requested_account_id,
        "acct_",
    ) {
        Ok(())
    } else {
        Err(InstanceServiceError::InvalidConfiguration)
    }
}

/// The bytes of the idempotency key under which one catalog resource of one
/// account is provisioned: `ffdb-catalog-v<version>:<account>:<resource>`.
pub open spec fn catalog_key_bytes(account_id: Seq<u8>, resource: Seq<u8>) -> Seq<u8> {
    "ffdb-catalog-v".spec_bytes() + decimal_bytes(STRIPE_CATALOG_VERSION as nat) + seq![0x3Au8]
        + account_id + seq![0x3Au8] + resource
}

/// The idempotency key for provisioning `resource` of the catalog of
/// `account_id`; keys outside 8 to 255 key characters are refused.
pub fn catalog_idempotency_key(account_id: &str, resource: &str) -> (r: Result<
    String,
    InstanceServiceError,
>)
    ensures
        ({
            let key = catalog_key_bytes(account_id.spec_bytes(), resource.spec_bytes());
            &&& (8 <= key.len() <= 255 && all_in_class(key, ByteClass::KeyChar)) ==> (r matches Ok(
                k,
            ) && k@ == ascii_chars(key))
            &&& !(8 <= key.len() <= 255 && all_in_class(key, ByteClass::KeyChar)) ==> r == Err::<
                String,
                _,
            >(InstanceServiceError::InvalidConfiguration)
        }),
{
    let mut key: Vec<u8> = Vec::new();
    append_bytes(&mut key, "ffdb-catalog-v".as_bytes());
    push_decimal(&mut key, STRIPE_CATALOG_VERSION);
    key.push(0x3Au8);
    append_bytes(&mut key, account_id.as_bytes());
    key.push(0x3Au8);
    append_bytes(&mut key, resource.as_bytes());
    proof {
        assert(key@ =~= catalog_key_bytes(account_id.spec_bytes(), resource.spec_bytes()));
    }
    if key.len() < 8 || key.len() > 255 || !bytes_in_class(key.as_slice(), ByteClass::KeyChar) {
        return Err(InstanceServiceError::InvalidConfiguration);
    }
    proof {
        assert forall|k: int| 0 <= k < key@.len() implies #[trigger] key@[k] < 128 by {
            assert(in_class(ByteClass::KeyChar, key@[k]));
        }
    }
    Ok(crate::outside::ascii_string(key))
}


/// The position of the first `c` in `s`, or `-1` where there is none.
pub open spec fn first_index_char(s: Seq<char>, c: char) -> int
    decreases s.len(),
{
    if s.len() == 0 {
        -1
    } else if s[0] == c {
        0
    } else {
        let r = first_index_char(s.drop_first(), c);
        if r < 0 {
            -1
        } else {
            r + 1
        }
    }
}

/// `s` without its trailing `c`s (`str::trim_end_matches(c)`).
pub open spec fn trim_end_char(s: Seq<char>, c: char) -> Seq<char>
    decreases s.len(),
{
    if s.len() > 0 && s.last() == c {
        trim_end_char(s.drop_last(), c)
    } else {
        s
    }
}

/// A decimal amount written for comparison: without surrounding whitespace,
/// without trailing fractional zeros, and without the point when nothing is
/// left after it. Text without a point is kept as it is.
pub open spec fn normalized_decimal(v: Seq<char>) -> Seq<char> {
    let t = trim_chars(v);
    let dot = first_index_char(t, '.');
    if dot < 0 {
        t
    } else if trim_end_char(t.subrange(dot + 1, t.len() as int), '0').len() == 0 {
        t.take(dot)
    } else {
        trim_end_char(t, '0')
    }
}

proof fn lemma_first_index_char(s: Seq<char>, c: char, i: int)
    requires
        0 <= i <= s.len(),
        forall|k: int| 0 <= k < i ==> s[k] != c,
        i == s.len() || s[i] == c,
    ensures
        first_index_char(s, c) == (if i == s.len() {
            -1
        } else {
            i
        }),
    decreases i,
{
    if i > 0 {
        lemma_first_index_char(s.drop_first(), c, i - 1);
    }
}

proof fn lemma_trim_end_char(s: Seq<char>, c: char, hi: int)
    requires
        0 <= hi <= s.len(),
        forall|k: int| hi <= k < s.len() ==> s[k] == c,
        hi == 0 || s[hi - 1] != c,
    ensures
        trim_end_char(s, c) == s.take(hi),
    decreases s.len() - hi,
{
    if hi < s.len() {
        lemma_trim_end_char(s.drop_last(), c, hi);
        assert(s.drop_last().take(hi) =~= s.take(hi));
    } else {
        assert(s.take(hi) =~= s);
    }
}

proof fn lemma_first_index_char_facts(s: Seq<char>, c: char)
    ensures
        first_index_char(s, c) < s.len(),
        first_index_char(s, c) >= 0 ==> s[first_index_char(s, c)] == c,
        forall|k: int| 0 <= k < s.len() && (first_index_char(s, c) < 0 || k < first_index_char(s, c))
            ==> #[trigger] s[k] != c,
    decreases s.len(),
{
    if s.len() > 0 && s[0] != c {
        lemma_first_index_char_facts(s.drop_first(), c);
        assert forall|k: int| 0 <= k < s.len() && (first_index_char(s, c) < 0 || k < first_index_char(s, c))
            implies #[trigger] s[k] != c by {
            if k > 0 {
                assert(s[k] == s.drop_first()[k - 1]);
            }
        }
    }
}

proof fn lemma_trim_end_char_facts(s: Seq<char>, c: char)
    ensures
        trim_end_char(s, c).len() <= s.len(),
        trim_end_char(s, c) =~= s.take(trim_end_char(s, c).len() as int),
        trim_end_char(s, c).len() == 0 || trim_end_char(s, c).last() != c,
        forall|k: int| trim_end_char(s, c).len() <= k < s.len() ==> #[trigger] s[k] == c,
    decreases s.len(),
{
    if s.len() > 0 && s.last() == c {
        lemma_trim_end_char_facts(s.drop_last(), c);
        assert forall|k: int| trim_end_char(s, c).len() <= k < s.len() implies #[trigger] s[k] == c by {
            if k < s.len() - 1 {
                assert(s[k] == s.drop_last()[k]);
            }
        }
    } else {
        assert(s.take(s.len() as int) =~= s);
    }
}

/// Writing a decimal amount for comparison a second time changes nothing,
/// for any amount without whitespace inside it.
pub proof fn law_normalize_decimal_is_idempotent(v: Seq<char>)
    requires
        forall|k: int| 0 <= k < trim_chars(v).len() ==> !crate::text::is_unicode_ws(#[trigger] trim_chars(v)[k]),
    ensures
        normalized_decimal(normalized_decimal(v)) == normalized_decimal(v),
{
    let t = trim_chars(v);
    let n = normalized_decimal(v);
    let dot = first_index_char(t, '.');
    lemma_first_index_char_facts(t, '.');
    if dot < 0 {
        crate::text::lemma_trim_without_ws(t);
    } else {
        let frac = t.subrange(dot + 1, t.len() as int);
        let fr = trim_end_char(frac, '0');
        lemma_trim_end_char_facts(frac, '0');
        if fr.len() == 0 {
            assert(n == t.take(dot));
            assert forall|k: int| 0 <= k < n.len() implies !crate::text::is_unicode_ws(#[trigger] n[k]) by {
                assert(n[k] == t[k]);
            }
            crate::text::lemma_trim_without_ws(n);
            lemma_first_index_char_facts(n, '.');
            assert forall|k: int| 0 <= k < n.len() implies #[trigger] n[k] != '.' by {
                assert(n[k] == t[k]);
            }
            if first_index_char(n, '.') >= 0 {
                assert(n[first_index_char(n, '.')] == '.');
            }
        } else {
            let hi = dot + 1 + fr.len();
            assert forall|k: int| hi <= k < t.len() implies t[k] == '0' by {
                assert(t[k] == frac[k - dot - 1]);
            }
            assert(t[hi - 1] == frac[fr.len() - 1]);
            assert(fr[fr.len() - 1] == frac[fr.len() - 1]);
            lemma_trim_end_char(t, '0', hi);
            assert(n == t.take(hi));
            assert forall|k: int| 0 <= k < n.len() implies !crate::text::is_unicode_ws(#[trigger] n[k]) by {
                assert(n[k] == t[k]);
            }
            crate::text::lemma_trim_without_ws(n);
            lemma_first_index_char(n, '.', dot);
            let nfrac = n.subrange(dot + 1, n.len() as int);
            assert(nfrac =~= fr);
            lemma_trim_end_char(nfrac, '0', nfrac.len() as int);
            assert(nfrac.take(nfrac.len() as int) =~= nfrac);
            lemma_trim_end_char(n, '0', n.len() as int);
            assert(n.take(n.len() as int) =~= n);
        }
    }
}

/// Writes a decimal amount for comparison (see `normalized_decimal`).
pub fn normalize_decimal(value: &str) -> (r: &str)
    ensures
        r@ == normalized_decimal(value@),
{
    let (t, _) = trim_str(value);
    let cs = crate::text::chars_of(t);
    let n = cs.len();
    let mut dot: usize = 0;
    while dot < n && cs[dot] != '.'
        invariant
            dot <= n == cs@.len(),
            forall|k: int| 0 <= k < dot ==> cs@[k] != '.',
        decreases n - dot,
    {
        dot = dot + 1;
    }
    proof {
        lemma_first_index_char(cs@, '.', dot as int);
    }
    if dot == n {
        return t;
    }
    let mut hi: usize = n;
    while hi > dot + 1 && cs[hi - 1] == '0'
        invariant
            dot < hi <= n == cs@.len(),
            forall|k: int| hi <= k < n ==> cs@[k] == '0',
        decreases hi,
    {
        hi = hi - 1;
    }
    proof {
        let s = cs@;
        let frac = s.subrange(dot + 1, n as int);
        if hi > dot + 1 {
            assert(frac[hi - dot - 2] == s[hi - 1]);
        }
        assert forall|k: int| hi - dot - 1 <= k < frac.len() implies frac[k] == '0' by {
            assert(frac[k] == s[k + dot + 1]);
        }
        lemma_trim_end_char(frac, '0', hi - dot - 1);
        if hi > dot + 1 {
            lemma_trim_end_char(s, '0', hi as int);
        }
    }
    if hi == dot + 1 {
        t.substring_char(0, dot)
    } else {
        t.substring_char(0, hi)
    }
}


/// A host that the billing provider's pages live on: `stripe.com` or one of
/// its subdomains.
pub open spec fn provider_host(host: Seq<char>) -> bool {
    host == "stripe.com"@ || (host.len() >= 11 && host.subrange(host.len() - 11, host.len() as int)
        == ".stripe.com"@)
}

fn is_provider_host(host: &str) -> (r: bool)
    ensures
        r == provider_host(host@),
{
    if str_eq(host, "stripe.com") {
        return true;
    }
    let n = host.unicode_len();
    if n < 11 {
        return false;
    }
    let tail = host.substring_char(n - 11, n);
    str_eq(tail, ".stripe.com")
}

/// An onboarding link to the provider, valid until the given time.
#[derive(Clone, Debug, PartialEq, Eq)]
pub struct InstanceBillingOnboarding {
    pub url: String,
    pub expires_at_ms: i64,
}

/// An account link as the provider returns it: its `url` and `expires_at`
/// where they are text.
#[derive(Clone, Debug)]
pub struct AccountLinkPayload {
    pub url: Option<String>,
    pub expires_at: Option<String>,
}

/// A provider link is served over HTTPS from a provider host, without
/// credentials in it.
pub open spec fn link_ok(p: (Seq<char>, Seq<char>, Option<Seq<char>>, Seq<char>, bool, bool)) -> bool {
    let host = match p.2 {
        Some(h) => h,
        None => Seq::<char>::empty(),
    };
    p.1 == "https"@ && provider_host(host) && p.3.len() == 0 && !p.4
}

/// An account link from the parsed link and the parsed expiry: both must be
/// present and the link must be a provider link.
pub fn account_link_from(url: Option<crate::outside::UrlParts>, expires_at_ms: Option<i64>) -> (r: Result<
    InstanceBillingOnboarding,
    InstanceServiceError,
>)
    ensures
        match r {
            Ok(o) => url matches Some(p) && link_ok(crate::outside::url_parts_view(p)) && o.url@
                == p.serialized@ && expires_at_ms == Some(o.expires_at_ms),
            Err(e) => e == InstanceServiceError::ProviderRejected && !(url matches Some(p) && link_ok(
                crate::outside::url_parts_view(p),
            ) && expires_at_ms is Some),
        },
{
    let parts = match url {
        Some(p) => p,
        None => {
            return Err(InstanceServiceError::ProviderRejected);
        },
    };
    let host_ok = match &parts.host {
        Some(h) => is_provider_host(h.as_str()),
        None => {
            proof {
                reveal_strlit("stripe.com");
                assert("stripe.com"@.len() == 10);
                assert(!provider_host(Seq::<char>::empty()));
            }
            false
        },
    };
    if !str_eq(parts.scheme.as_str(), "https") || !host_ok || parts.username.as_str().unicode_len()
        != 0 || parts.has_password {
        return Err(InstanceServiceError::ProviderRejected);
    }
    match expires_at_ms {
        Some(ms) => Ok(InstanceBillingOnboarding { url: parts.serialized, expires_at_ms: ms }),
        None => Err(InstanceServiceError::ProviderRejected),
    }
}

/// The provider's reply is an acceptable account link: its `url` parses to a
/// provider link and its `expires_at` is an RFC 3339 instant.
pub open spec fn link_accepted(payload: AccountLinkPayload) -> bool {
    &&& payload.url matches Some(u) && (crate::outside::url_parsed(u@) matches Some(p) && link_ok(p))
    &&& payload.expires_at matches Some(t) && crate::outside::rfc3339_millis(t@) is Some
}

/// Reads an account link that the provider returned: accepted exactly when its
/// `url` parses to a provider link (see `link_ok`) and its `expires_at` is an
/// RFC 3339 instant.
pub fn parse_account_link(payload: &AccountLinkPayload) -> (r: Result<
    InstanceBillingOnboarding,
    InstanceServiceError,
>)
    ensures
        match r {
            Ok(o) => payload.url matches Some(u) && crate::outside::url_parsed(u@) matches Some(p)
                && link_ok(p) && o.url@ == p.0 && (payload.expires_at matches Some(t)
                && crate::outside::rfc3339_millis(t@) == Some(o.expires_at_ms)),
            Err(e) => e == InstanceServiceError::ProviderRejected && !link_accepted(*payload),
        },
{
    let url = match &payload.url {
        Some(u) => crate::outside::parse_url(u.as_str()),
        None => {
            return Err(InstanceServiceError::ProviderRejected);
        },
    };
    let expires = match &payload.expires_at {
        Some(t) => crate::outside::parse_rfc3339_millis(t.as_str()),
        None => None,
    };
    account_link_from(url, expires)
}

/// A page the provider may send the administrator back to: HTTPS, or plain
/// HTTP to this machine, with a host and without credentials or fragment.
pub open spec fn return_url_ok(p: (Seq<char>, Seq<char>, Option<Seq<char>>, Seq<char>, bool, bool)) -> bool {
    let local_http = p.1 == "http"@ && (p.2 == Some("127.0.0.1"@) || p.2 == Some("localhost"@) || p.2
        == Some("::1"@));
    &&& (p.1 == "https"@ || local_http)
    &&& p.3.len() == 0
    &&& !p.4
    &&& !p.5
    &&& p.2 is Some
}

fn host_is(host: &Option<String>, name: &str) -> (r: bool)
    ensures
        r == (crate::outside::opt_text(*host) == Some(name@)),
{
    match host {
        Some(h) => str_eq(h.as_str(), name),
        None => false,
    }
}

/// Checks a return URL from its parsed parts.
pub fn return_url_from(url: Option<crate::outside::UrlParts>) -> (r: Result<String, InstanceServiceError>)
    ensures
        match r {
            Ok(u) => url matches Some(p) && return_url_ok(crate::outside::url_parts_view(p)) && u@
                == p.serialized@,
            Err(e) => e == InstanceServiceError::InvalidRequest && !(url matches Some(p)
                && return_url_ok(crate::outside::url_parts_view(p))),
        },
{
    let parts = match url {
        Some(p) => p,
        None => {
            return Err(InstanceServiceError::InvalidRequest);
        },
    };
    let local_http = str_eq(parts.scheme.as_str(), "http") && (host_is(&parts.host, "127.0.0.1")
        || host_is(&parts.host, "localhost") || host_is(&parts.host, "::1"));
    if (str_eq(parts.scheme.as_str(), "https") || local_http) && parts.username.as_str().unicode_len()
        == 0 && !parts.has_password && !parts.has_fragment && parts.host.is_some() {
        Ok(parts.serialized)
    } else {
        Err(InstanceServiceError::InvalidRequest)
    }
}

/// Checks a URL that the provider may return an administrator to.
pub fn validate_return_url(value: &str) -> (r: Result<String, InstanceServiceError>)
    ensures
        match r {
            Ok(u) => crate::outside::url_parsed(value@) matches Some(p) && return_url_ok(p) && u@
                == p.0,
            Err(e) => e == InstanceServiceError::InvalidRequest && !(crate::outside::url_parsed(
                value@,
            ) matches Some(p) && return_url_ok(p)),
        },
{
    return_url_from(crate::outside::parse_url(value))
}


/// Where the instance's provider account is read from when it is refreshed.
#[derive(Clone, Debug, PartialEq, Eq)]
pub enum AccountSource {
    /// The account of the instance's own secret key, from version one of the API.
    OwnAccount,
    /// The connected account, from version two of the API.
    ConnectedAccount { account_id: String },
}

/// What a refresh reads: the own account for bring-your-own keys, the stored
/// connected account for Connect (unavailable without a well-formed stored
/// identifier); other modes have no provider account and conflict.
pub open spec fn refresh_source_of(
    mode: crate::instance::InstanceDeploymentMode,
    stored_account_id: Option<Seq<char>>,
) -> Result<Option<Seq<char>>, InstanceServiceError> {
    match mode {
        crate::instance::InstanceDeploymentMode::PlatformByo => Ok(None),
        crate::instance::InstanceDeploymentMode::PlatformConnect => match stored_account_id {
            Some(id) => if provider_id_ok(vstd::utf8::encode_utf8(id), "acct_".spec_bytes()) {
                Ok(Some(id))
            } else {
                Err(InstanceServiceError::Unavailable)
            },
            None => Err(InstanceServiceError::Unavailable),
        },
        _ => Err(InstanceServiceError::Conflict),
    }
}

pub open spec fn source_view(source: AccountSource) -> Option<Seq<char>> {
    match source {
        AccountSource::OwnAccount => None,
        AccountSource::ConnectedAccount { account_id } => Some(account_id@),
    }
}

/// Picks where a refresh reads the provider account (see `refresh_source_of`).
pub fn refresh_source(
    mode: crate::instance::InstanceDeploymentMode,
    stored_account_id: Option<&str>,
) -> (r: Result<AccountSource, InstanceServiceError>)
    ensures
        match r {
            Ok(source) => refresh_source_of(mode, crate::instance::opt_view(stored_account_id)) == Ok::<
                Option<Seq<char>>,
                InstanceServiceError,
            >(source_view(source)),
            Err(e) => refresh_source_of(mode, crate::instance::opt_view(stored_account_id)) == Err::<
                Option<Seq<char>>,
                InstanceServiceError,
            >(e),
        },
{
    match mode {
        crate::instance::InstanceDeploymentMode::PlatformByo => Ok(AccountSource::OwnAccount),
        crate::instance::InstanceDeploymentMode::PlatformConnect => match stored_account_id {
            Some(id) => {
                if valid_provider_id(id, "acct_") {
                    Ok(AccountSource::ConnectedAccount { account_id: id.to_owned() })
                } else {
                    Err(InstanceServiceError::Unavailable)
                }
            },
            None => Err(InstanceServiceError::Unavailable),
        },
        _ => Err(InstanceServiceError::Conflict),
    }
}

/// After a refresh, the provider catalog of a Connect instance is loaded (or
/// provisioned) once its account is enabled.
pub fn refresh_needs_catalog(mode: crate::instance::InstanceDeploymentMode, account_status: &str) -> (r: bool)
    ensures
        r == (mode == crate::instance::InstanceDeploymentMode::PlatformConnect && account_status@
            == "enabled"@),
{
    match mode {
        crate::instance::InstanceDeploymentMode::PlatformConnect => str_eq(account_status, "enabled"),
        _ => false,
    }
}

/// The billing mode a refreshed account is stored under; modes without a
/// provider account conflict.
pub fn refresh_billing_mode(mode: crate::instance::InstanceDeploymentMode) -> (r: Result<
    crate::instance::InstanceBillingMode,
    InstanceServiceError,
>)
    ensures
        r == match mode {
            crate::instance::InstanceDeploymentMode::PlatformByo => Ok::<
                crate::instance::InstanceBillingMode,
                InstanceServiceError,
            >(crate::instance::InstanceBillingMode::ByoKeys),
            crate::instance::InstanceDeploymentMode::PlatformConnect => Ok(
                crate::instance::InstanceBillingMode::StripeConnect,
            ),
            _ => Err(InstanceServiceError::Conflict),
        },
{
    match mode {
        crate::instance::InstanceDeploymentMode::PlatformByo => Ok(crate::instance::InstanceBillingMode::ByoKeys),
        crate::instance::InstanceDeploymentMode::PlatformConnect => Ok(
            crate::instance::InstanceBillingMode::StripeConnect,
        ),
        _ => Err(InstanceServiceError::Conflict),
    }
}


/// A bring-your-own key must belong to the account that billing is bound to,
/// where it is bound to one.
pub fn require_bound_account(required_account_id: Option<&str>, account_id: &str) -> (r: Result<
    (),
    InstanceServiceError,
>)
    ensures
        r == (if required_account_id matches Some(req) && req@ != account_id@ {
            Err::<(), InstanceServiceError>(InstanceServiceError::BillingInUse)
        } else {
            Ok(())
        }),
{
    match required_account_id {
        Some(req) => {
            if str_eq(req, account_id) {
                Ok(())
            } else {
                Err(InstanceServiceError::BillingInUse)
            }
        },
        None => Ok(()),
    }
}

/// The provider path a Connect setup posts to: the accounts collection for a
/// new account, the account itself for an existing one.
pub fn connect_account_path(existing_account: Option<&str>) -> (r: String)
    ensures
        r@ == match existing_account {
            Some(id) => "v2/core/accounts/"@ + id@,
            None => "v2/core/accounts"@,
        },
{
    match existing_account {
        Some(id) => {
            let mut path = String::new();
            path.append("v2/core/accounts/");
            path.append(id);
            path
        },
        None => "v2/core/accounts".to_owned(),
    }
}

} // verus!
