//! The client address of a request: the transport peer, or, behind trusted
//! proxies, the first hop of the `x-forwarded-for` chain that no trusted
//! proxy network contains, read from the right.
use vstd::prelude::*;
use vstd::arithmetic::power2::pow2;
use vstd::string::{StrSliceExecFns, StringSliceAdditionalSpecFns};
use crate::text::{chars_of, trim_chars};

verus! {

/// An IP address: IPv4 as its 32-bit value, IPv6 as its 128-bit value.
#[derive(Clone, Copy, Debug, PartialEq, Eq, Structural)]
pub enum IpAddress {
    V4(u32),
    V6(u128),
}

/// An IP network: an address and the length of its prefix, which is at
/// most the address width.
#[derive(Clone, Copy, Debug)]
pub struct IpNetwork {
    addr: IpAddress,
    prefix_len: u8,
}

pub open spec fn prefix_fits(addr: IpAddress, prefix_len: u8) -> bool {
    match addr {
        IpAddress::V4(_) => prefix_len <= 32,
        IpAddress::V6(_) => prefix_len <= 128,
    }
}

impl IpNetwork {
    #[verifier::type_invariant]
    spec fn wf(self) -> bool {
        prefix_fits(self.addr, self.prefix_len)
    }

    pub closed spec fn spec_addr(self) -> IpAddress {
        self.addr
    }

    pub closed spec fn spec_prefix_len(self) -> u8 {
        self.prefix_len
    }

    /// The network of `addr` with the given prefix length; `None` where the
    /// prefix is longer than the address.
    pub fn new(addr: IpAddress, prefix_len: u8) -> (r: Option<IpNetwork>)
        ensures
            prefix_fits(addr, prefix_len) ==> (r matches Some(n) && n.spec_addr() == addr
                && n.spec_prefix_len() == prefix_len),
            !prefix_fits(addr, prefix_len) ==> r is None,
    {
        let fits = match addr {
            IpAddress::V4(_) => prefix_len <= 32,
            IpAddress::V6(_) => prefix_len <= 128,
        };
        if fits {
            Some(IpNetwork { addr, prefix_len })
        } else {
            None
        }
    }

    pub fn addr(&self) -> (r: IpAddress)
        ensures
            r == self.spec_addr(),
    {
        self.addr
    }

    pub fn prefix_len(&self) -> (r: u8)
        ensures
            r == self.spec_prefix_len(),
    {
        self.prefix_len
    }
}

/// The network holds the address: same family, and the same value once the
/// bits after the prefix are dropped (`ipnet`'s `network() <= a <=
/// broadcast()`).
pub open spec fn network_contains(net: IpNetwork, a: IpAddress) -> bool {
    match (net.spec_addr(), a) {
        (IpAddress::V4(n), IpAddress::V4(x)) => {
            let bits = (32 - net.spec_prefix_len()) as nat;
            x as nat / pow2(bits) == n as nat / pow2(bits)
        },
        (IpAddress::V6(n), IpAddress::V6(x)) => {
            let bits = (128 - net.spec_prefix_len()) as nat;
            x as nat / pow2(bits) == n as nat / pow2(bits)
        },
        _ => false,
    }
}

proof fn lemma_div_pow2_of_small(x: nat, bits: nat)
    requires
        x < pow2(bits),
    ensures
        x / pow2(bits) == 0,
{
    vstd::arithmetic::power2::lemma_pow2_pos(bits);
    vstd::arithmetic::div_mod::lemma_basic_div(x as int, pow2(bits) as int);
}

/// Whether `net` holds `a`.
pub fn contains(net: &IpNetwork, a: IpAddress) -> (r: bool)
    ensures
        r == network_contains(*net, a),
{
    proof {
        use_type_invariant(net);
    }
    match (net.addr, a) {
        (IpAddress::V4(n), IpAddress::V4(x)) => {
            let bits: u32 = 32 - net.prefix_len as u32;
            if bits == 32 {
                proof {
                    vstd::arithmetic::power2::lemma2_to64();
                    lemma_div_pow2_of_small(x as nat, 32);
                    lemma_div_pow2_of_small(n as nat, 32);
                }
                true
            } else {
                proof {
                    vstd::bits::lemma_u32_shr_is_div(x, bits);
                    vstd::bits::lemma_u32_shr_is_div(n, bits);
                }
                (x >> bits) == (n >> bits)
            }
        },
        (IpAddress::V6(n), IpAddress::V6(x)) => {
            let bits: u32 = 128 - net.prefix_len as u32;
            if bits == 128 {
                proof {
                    vstd::arithmetic::power2::lemma2_to64_rest();
                    vstd::arithmetic::power2::lemma_pow2_adds(64, 64);
                    vstd::arithmetic::power2::lemma2_to64();
                    lemma_div_pow2_of_small(x as nat, 128);
                    lemma_div_pow2_of_small(n as nat, 128);
                }
                true
            } else {
                proof {
                    vstd::bits::lemma_u128_shr_is_div(x, bits as u128);
                    vstd::bits::lemma_u128_shr_is_div(n, bits as u128);
                }
                (x >> bits) == (n >> bits)
            }
        },
        _ => false,
    }
}

/// Some trusted network holds the address.
pub open spec fn trusted_by(proxies: Seq<IpNetwork>, a: IpAddress) -> bool {
    exists|i: int| 0 <= i < proxies.len() && network_contains(#[trigger] proxies[i], a)
}

/// Whether some trusted network holds `a`.
pub fn is_trusted(proxies: &[IpNetwork], a: IpAddress) -> (r: bool)
    ensures
        r == trusted_by(proxies@, a),
{
    let mut i: usize = 0;
    while i < proxies.len()
        invariant
            i <= proxies@.len(),
            forall|k: int| 0 <= k < i ==> !network_contains(#[trigger] proxies@[k], a),
        decreases proxies@.len() - i,
    {
        if contains(&proxies[i], a) {
            return true;
        }
        i = i + 1;
    }
    false
}

/// The address that `IpAddr`'s `FromStr` reads from `text`, if any.
pub uninterp spec fn ip_address_parsed(text: Seq<char>) -> Option<IpAddress>;

/// Reads an IP address with `IpAddr`'s `FromStr`; the result is named
/// `ip_address_parsed` of the text, nothing more is claimed of it.
#[verifier::external_body]
fn parse_ip_address(text: &str) -> (r: Option<IpAddress>)
    ensures
        r == ip_address_parsed(text@),
{
    match text.parse::<core::net::IpAddr>() {
        Ok(core::net::IpAddr::V4(a)) => Some(IpAddress::V4(u32::from(a))),
        Ok(core::net::IpAddr::V6(a)) => Some(IpAddress::V6(u128::from(a))),
        Err(_) => None,
    }
}

/// `str::split(c)`: the pieces between occurrences of `c`; the empty text
/// is one empty piece.
pub open spec fn split_char(s: Seq<char>, c: char) -> Seq<Seq<char>>
    decreases s.len(),
{
    if s.len() == 0 {
        seq![Seq::<char>::empty()]
    } else {
        let init = split_char(s.drop_last(), c);
        if s.last() == c {
            init.push(Seq::<char>::empty())
        } else {
            init.update(init.len() - 1, init.last().push(s.last()))
        }
    }
}

proof fn lemma_split_char_len(s: Seq<char>, c: char)
    ensures
        split_char(s, c).len() >= 1,
    decreases s.len(),
{
    if s.len() > 0 {
        lemma_split_char_len(s.drop_last(), c);
    }
}

proof fn lemma_split_char_prefix_len(s: Seq<char>, c: char, i: int)
    requires
        0 <= i <= s.len(),
    ensures
        split_char(s.take(i), c).len() <= split_char(s, c).len(),
    decreases s.len() - i,
{
    if i < s.len() {
        lemma_split_char_len(s.drop_last(), c);
        assert(s.drop_last().take(i) =~= s.take(i));
        lemma_split_char_prefix_len(s.drop_last(), c, i);
    } else {
        assert(s.take(i) =~= s);
    }
}

/// The addresses written in the pieces of a forwarded header, each read
/// without its surrounding whitespace; `None` where one is not an address.
pub open spec fn parse_hops(pieces: Seq<Seq<char>>) -> Option<Seq<IpAddress>>
    decreases pieces.len(),
{
    if pieces.len() == 0 {
        Some(Seq::empty())
    } else {
        match (parse_hops(pieces.drop_last()), ip_address_parsed(trim_chars(pieces.last()))) {
            (Some(hops), Some(a)) => Some(hops.push(a)),
            _ => None,
        }
    }
}

proof fn lemma_parse_hops_len(pieces: Seq<Seq<char>>)
    ensures
        parse_hops(pieces) matches Some(h) ==> h.len() == pieces.len(),
    decreases pieces.len(),
{
    if pieces.len() > 0 {
        lemma_parse_hops_len(pieces.drop_last());
    }
}

/// The longest forwarded header value that is read, in bytes.
pub const MAX_FORWARDED_VALUE_BYTES: usize = 1_024;

/// The most hops that a forwarded chain may name.
pub const MAX_FORWARDED_HOPS: usize = 16;

/// The hops named by the `x-forwarded-for` values, in order; `None` where a
/// value is not text, is longer than 1024 bytes, or names something that is
/// not an address.
pub open spec fn header_hops(values: Seq<Option<String>>) -> Option<Seq<IpAddress>>
    decreases values.len(),
{
    if values.len() == 0 {
        Some(Seq::empty())
    } else {
        match values.last() {
            None => None,
            Some(v) => if vstd::utf8::encode_utf8(v@).len() > MAX_FORWARDED_VALUE_BYTES {
                None
            } else {
                match (header_hops(values.drop_last()), parse_hops(split_char(v@, ','))) {
                    (Some(a), Some(b)) => Some(a + b),
                    _ => None,
                }
            },
        }
    }
}

/// The number of pieces the text values split into.
pub open spec fn piece_count(values: Seq<Option<String>>) -> nat
    decreases values.len(),
{
    if values.len() == 0 {
        0
    } else {
        piece_count(values.drop_last()) + match values.last() {
            Some(v) => split_char(v@, ',').len(),
            None => 0,
        }
    }
}

proof fn lemma_header_hops_len(values: Seq<Option<String>>)
    ensures
        header_hops(values) matches Some(h) ==> h.len() == piece_count(values),
    decreases values.len(),
{
    if values.len() > 0 {
        lemma_header_hops_len(values.drop_last());
        if let Some(v) = values.last() {
            lemma_parse_hops_len(split_char(v@, ','));
        }
    }
}

proof fn lemma_piece_count_prefix(values: Seq<Option<String>>, k: int)
    requires
        0 <= k <= values.len(),
    ensures
        piece_count(values.take(k)) <= piece_count(values),
    decreases values.len() - k,
{
    if k < values.len() {
        assert(values.drop_last().take(k) =~= values.take(k));
        lemma_piece_count_prefix(values.drop_last(), k);
    } else {
        assert(values.take(k) =~= values);
    }
}

/// The forwarded chain that is believed: every value readable and at most
/// 16 hops in all.
pub open spec fn forwarded_chain(values: Seq<Option<String>>) -> Option<Seq<IpAddress>> {
    match header_hops(values) {
        Some(c) => if c.len() <= MAX_FORWARDED_HOPS {
            Some(c)
        } else {
            None
        },
        None => None,
    }
}

/// The position of the rightmost hop that no trusted network holds.
pub open spec fn rightmost_untrusted(hops: Seq<IpAddress>, proxies: Seq<IpNetwork>) -> int
    decreases hops.len(),
{
    if hops.len() == 0 {
        -1
    } else if !trusted_by(proxies, hops.last()) {
        hops.len() - 1
    } else {
        rightmost_untrusted(hops.drop_last(), proxies)
    }
}

/// The client a request is attributed to. An untrusted peer is the client
/// whatever it forwards. Behind a trusted peer the forwarded chain, with
/// the peer appended, is read from the right and its first hop outside every
/// trusted network is the client; where every hop is trusted, the leftmost
/// one is. A chain that is missing, empty or unreadable leaves the peer.
pub open spec fn client_ip(
    peer: IpAddress,
    forwarded_for: Seq<Option<String>>,
    proxies: Seq<IpNetwork>,
) -> IpAddress {
    if !trusted_by(proxies, peer) {
        peer
    } else {
        match forwarded_chain(forwarded_for) {
            None => peer,
            Some(c) => if c.len() == 0 {
                peer
            } else {
                let full = c.push(peer);
                let i = rightmost_untrusted(full, proxies);
                if i >= 0 {
                    full[i]
                } else {
                    full[0]
                }
            },
        }
    }
}

proof fn lemma_rightmost_untrusted(hops: Seq<IpAddress>, proxies: Seq<IpNetwork>)
    ensures
        -1 <= rightmost_untrusted(hops, proxies) < hops.len(),
        rightmost_untrusted(hops, proxies) >= 0 ==> !trusted_by(
            proxies,
            hops[rightmost_untrusted(hops, proxies)],
        ),
        forall|j: int|
            rightmost_untrusted(hops, proxies) < j < hops.len() ==> trusted_by(
                proxies,
                #[trigger] hops[j],
            ),
    decreases hops.len(),
{
    if hops.len() > 0 && trusted_by(proxies, hops.last()) {
        let init = hops.drop_last();
        lemma_rightmost_untrusted(init, proxies);
        assert forall|j: int| rightmost_untrusted(hops, proxies) < j < hops.len() implies trusted_by(
            proxies,
            #[trigger] hops[j],
        ) by {
            if j < hops.len() - 1 {
                assert(hops[j] == init[j]);
            }
        }
    }
}


/// The value fits the length that forwarded values are read up to.
pub open spec fn encode_len_ok(v: &str) -> bool {
    v.spec_bytes().len() <= MAX_FORWARDED_VALUE_BYTES
}

proof fn lemma_header_hops_none_prefix(values: Seq<Option<String>>, k: int)
    requires
        0 <= k <= values.len(),
        header_hops(values.take(k)) is None,
    ensures
        header_hops(values) is None,
    decreases values.len() - k,
{
    if k < values.len() {
        assert(values.drop_last().take(k) =~= values.take(k));
        lemma_header_hops_none_prefix(values.drop_last(), k);
    } else {
        assert(values.take(k) =~= values);
    }
}

proof fn lemma_parse_hops_none_prefix(pieces: Seq<Seq<char>>, k: int)
    requires
        0 <= k <= pieces.len(),
        parse_hops(pieces.take(k)) is None,
    ensures
        parse_hops(pieces) is None,
    decreases pieces.len() - k,
{
    if k < pieces.len() {
        assert(pieces.drop_last().take(k) =~= pieces.take(k));
        lemma_parse_hops_none_prefix(pieces.drop_last(), k);
    } else {
        assert(pieces.take(k) =~= pieces);
    }
}

/// Once a piece is closed by a separator, it stays among the pieces of every
/// longer prefix.
proof fn lemma_split_char_closed(s: Seq<char>, c: char, i: int, j: int)
    requires
        0 <= i <= j <= s.len(),
    ensures
        split_char(s.take(j), c).len() >= split_char(s.take(i), c).len(),
        split_char(s.take(j), c).take(split_char(s.take(i), c).len() - 1) == split_char(
            s.take(i),
            c,
        ).drop_last(),
    decreases j - i,
{
    lemma_split_char_len(s.take(i), c);
    if j > i {
        lemma_split_char_closed(s, c, i, j - 1);
        let a = split_char(s.take(j - 1), c);
        let t = s.take(j);
        assert(t.drop_last() =~= s.take(j - 1));
        lemma_split_char_len(s.take(j - 1), c);
        let k = split_char(s.take(i), c).len() - 1;
        assert(split_char(t, c).take(k) =~= a.take(k));
    } else {
        assert(split_char(s.take(i), c).take(split_char(s.take(i), c).len() - 1) =~= split_char(
            s.take(i),
            c,
        ).drop_last());
    }
}

proof fn lemma_too_many_hops(
    values: Seq<Option<String>>,
    vi: int,
    cs: Seq<char>,
    i: int,
    closed: Seq<Seq<char>>,
)
    requires
        0 <= vi < values.len(),
        values[vi] matches Some(v) && v@ == cs,
        0 <= i <= cs.len(),
        split_char(cs.take(i), ',').len() == closed.len() + 1,
        piece_count(values.take(vi)) + closed.len() >= MAX_FORWARDED_HOPS,
    ensures
        forwarded_chain(values) is None,
{
    lemma_split_char_prefix_len(cs, ',', i);
    assert(cs.take(cs.len() as int) =~= cs);
    let v2 = values.take(vi + 1);
    assert(v2.drop_last() =~= values.take(vi));
    lemma_piece_count_prefix(values, vi + 1);
    lemma_header_hops_len(values);
}

proof fn lemma_unreadable_piece(
    values: Seq<Option<String>>,
    vi: int,
    cs: Seq<char>,
    i: int,
    closed: Seq<Seq<char>>,
    start: int,
)
    requires
        0 <= vi < values.len(),
        values[vi] matches Some(v) && v@ == cs,
        0 <= start <= i <= cs.len(),
        i == cs.len() || cs[i] == ',',
        split_char(cs.take(i), ',') == closed.push(cs.subrange(start, i)),
        ip_address_parsed(trim_chars(cs.subrange(start, i))) is None,
    ensures
        header_hops(values) is None,
{
    let pieces = split_char(cs, ',');
    let mine = closed.push(cs.subrange(start, i));
    assert(mine.drop_last() =~= closed);
    assert(parse_hops(mine) is None);
    if i == cs.len() {
        assert(cs.take(i) =~= cs);
    } else {
        let t = cs.take(i + 1);
        assert(t.drop_last() =~= cs.take(i));
        assert(split_char(t, ',') == mine.push(Seq::<char>::empty()));
        lemma_split_char_closed(cs, ',', i + 1, cs.len() as int);
        assert(cs.take(cs.len() as int) =~= cs);
        assert(mine.push(Seq::<char>::empty()).drop_last() =~= mine);
        assert(pieces.take(mine.len() as int) == mine);
        lemma_parse_hops_none_prefix(pieces, mine.len() as int);
    }
    let v2 = values.take(vi + 1);
    assert(v2.drop_last() =~= values.take(vi));
    assert(header_hops(v2) is None);
    lemma_header_hops_none_prefix(values, vi + 1);
}

/// Reads the `x-forwarded-for` chain (see `forwarded_chain`); `None` where
/// it cannot be read in full.
fn read_forwarded_chain(forwarded_for: &[Option<String>]) -> (r: Option<Vec<IpAddress>>)
    ensures
        match r {
            Some(c) => forwarded_chain(forwarded_for@) == Some(c@),
            None => forwarded_chain(forwarded_for@) is None,
        },
{
    let mut chain: Vec<IpAddress> = Vec::new();
    let nv = forwarded_for.len();
    let mut vi: usize = 0;
    while vi < nv
        invariant
            vi <= nv == forwarded_for@.len(),
            header_hops(forwarded_for@.take(vi as int)) == Some(chain@),
            chain@.len() <= MAX_FORWARDED_HOPS,
        decreases nv - vi,
    {
        let ghost values = forwarded_for@;
        proof {
            lemma_header_hops_len(values.take(vi as int));
        }
        let value: &str = match &forwarded_for[vi] {
            Some(v) => v.as_str(),
            None => {
                proof {
                    assert(values.take(vi + 1).drop_last() =~= values.take(vi as int));
                    lemma_header_hops_none_prefix(values, vi + 1);
                }
                return None;
            },
        };
        if value.as_bytes().len() > MAX_FORWARDED_VALUE_BYTES {
            proof {
                assert(values.take(vi + 1).drop_last() =~= values.take(vi as int));
                lemma_header_hops_none_prefix(values, vi + 1);
            }
            return None;
        }
        let cs = chars_of(value);
        let n = cs.len();
        let ghost base = chain@;
        let ghost mut closed: Seq<Seq<char>> = Seq::empty();
        let mut start: usize = 0;
        let mut i: usize = 0;
        proof {
            assert(cs@.take(0) =~= Seq::<char>::empty());
            assert(cs@.subrange(0, 0) =~= Seq::<char>::empty());
            assert(split_char(cs@.take(0), ',') =~= closed.push(cs@.subrange(0, 0)));
        }
        loop
            invariant
                vi < nv == forwarded_for@.len(),
                values == forwarded_for@,
                values[vi as int] matches Some(v) && v@ == value@,
                cs@ == value@,
                n == cs@.len(),
                start <= i <= n,
                    header_hops(values.take(vi as int)) == Some(base),
                base.len() == piece_count(values.take(vi as int)),
                encode_len_ok(value),
                split_char(cs@.take(i as int), ',') == closed.push(cs@.subrange(start as int, i as int)),
                parse_hops(closed) == Some(chain@.subrange(base.len() as int, chain@.len() as int)),
                chain@.subrange(0, base.len() as int) == base,
                chain@.len() == base.len() + closed.len(),
                chain@.len() <= MAX_FORWARDED_HOPS,
            ensures
                i == n,
                split_char(cs@, ',') == closed.push(cs@.subrange(start as int, n as int)),
                parse_hops(closed) == Some(chain@.subrange(base.len() as int, chain@.len() as int)),
                chain@.subrange(0, base.len() as int) == base,
                chain@.len() == base.len() + closed.len(),
                chain@.len() <= MAX_FORWARDED_HOPS,
            decreases n - i,
        {
            if i == n {
                proof {
                    assert(cs@.take(n as int) =~= cs@);
                }
                break;
            }
            if cs[i] == ',' {
                let piece = value.substring_char(start, i);
                if chain.len() >= MAX_FORWARDED_HOPS {
                    proof {
                        lemma_too_many_hops(values, vi as int, cs@, i as int, closed);
                    }
                    return None;
                }
                let (trimmed, _) = crate::text::trim_str(piece);
                let parsed = parse_ip_address(trimmed);
                let address = match parsed {
                    Some(a) => a,
                    None => {
                        proof {
                            lemma_unreadable_piece(values, vi as int, cs@, i as int, closed, start as int);
                        }
                        return None;
                    },
                };
                let ghost old_chain = chain@;
                chain.push(address);
                proof {
                    let p = cs@.subrange(start as int, i as int);
                    assert(piece@ == p);
                    let t = cs@.take(i + 1);
                    assert(t.drop_last() =~= cs@.take(i as int));
                    assert(t.last() == ',');
                    assert(cs@.subrange(i + 1, i + 1) =~= Seq::<char>::empty());
                    assert(closed.push(p).drop_last() =~= closed);
                    assert(chain@.subrange(base.len() as int, chain@.len() as int) =~= old_chain.subrange(
                        base.len() as int,
                        old_chain.len() as int,
                    ).push(address));
                    assert(chain@.subrange(0, base.len() as int) =~= old_chain.subrange(0, base.len() as int));
                    closed = closed.push(p);
                }
                start = i + 1;
            } else {
                proof {
                    let t = cs@.take(i + 1);
                    assert(t.drop_last() =~= cs@.take(i as int));
                    assert(cs@.subrange(start as int, i + 1) =~= cs@.subrange(start as int, i as int).push(
                        cs@[i as int],
                    ));
                    assert(closed.push(cs@.subrange(start as int, i as int)).update(
                        closed.len() as int,
                        cs@.subrange(start as int, i + 1),
                    ) =~= closed.push(cs@.subrange(start as int, i + 1)));
                }
            }
            i = i + 1;
        }
        let piece = value.substring_char(start, n);
        if chain.len() >= MAX_FORWARDED_HOPS {
            proof {
                lemma_too_many_hops(values, vi as int, cs@, n as int, closed);
            }
            return None;
        }
        let (trimmed, _) = crate::text::trim_str(piece);
        let address = match parse_ip_address(trimmed) {
            Some(a) => a,
            None => {
                proof {
                    lemma_unreadable_piece(values, vi as int, cs@, n as int, closed, start as int);
                }
                return None;
            },
        };
        let ghost old_chain = chain@;
        chain.push(address);
        proof {
            let p = cs@.subrange(start as int, n as int);
            let pieces = closed.push(p);
            assert(pieces.drop_last() =~= closed);
            assert(parse_hops(pieces) == Some(old_chain.subrange(base.len() as int, old_chain.len() as int).push(address)));
            let v2 = values.take(vi + 1);
            assert(v2.drop_last() =~= values.take(vi as int));
            assert(chain@ =~= base + old_chain.subrange(base.len() as int, old_chain.len() as int).push(address));
        }
        vi = vi + 1;
    }
    proof {
        assert(forwarded_for@.take(nv as int) =~= forwarded_for@);
    }
    Some(chain)
}

/// The client behind a trusted peer, given the forwarded chain as read
/// (`None` where it could not be read).
pub open spec fn client_of_chain(
    peer: IpAddress,
    chain: Option<Seq<IpAddress>>,
    proxies: Seq<IpNetwork>,
) -> IpAddress {
    if !trusted_by(proxies, peer) {
        peer
    } else {
        match chain {
            None => peer,
            Some(c) => if c.len() == 0 {
                peer
            } else {
                let full = c.push(peer);
                let i = rightmost_untrusted(full, proxies);
                if i >= 0 {
                    full[i]
                } else {
                    full[0]
                }
            },
        }
    }
}

pub open spec fn opt_seq(chain: Option<Vec<IpAddress>>) -> Option<Seq<IpAddress>> {
    match chain {
        Some(c) => Some(c@),
        None => None,
    }
}

/// Picks the client from the transport peer and the forwarded chain as read.
pub fn client_from_chain(
    peer: IpAddress,
    chain: Option<Vec<IpAddress>>,
    trusted_proxies: &[IpNetwork],
) -> (r: IpAddress)
    ensures
        r == client_of_chain(peer, opt_seq(chain), trusted_proxies@),
{
    let ghost chain_view = opt_seq(chain);
    if !is_trusted(trusted_proxies, peer) {
        return peer;
    }
    let mut hops = match chain {
        Some(c) => c,
        None => {
            return peer;
        },
    };
    if hops.len() == 0 {
        return peer;
    }
    let first = hops[0];
    let ghost c = hops@;
    hops.push(peer);
    let ghost full = hops@;
    let mut k: usize = hops.len();
    proof {
        assert(full.take(full.len() as int) =~= full);
        assert(full.drop_last() =~= c);
    }
    while k > 0
        invariant
            k <= full.len(),
            hops@ == full,
            full.len() >= 2,
            full == c.push(peer),
            first == c[0],
            c.len() > 0,
            chain_view == Some(c),
            chain_view == opt_seq(chain),
            trusted_by(trusted_proxies@, peer),
            rightmost_untrusted(full, trusted_proxies@) == rightmost_untrusted(
                full.take(k as int),
                trusted_proxies@,
            ),
        decreases k,
    {
        let hop = hops[k - 1];
        let ghost t = full.take(k as int);
        if !is_trusted(trusted_proxies, hop) {
            proof {
                assert(t.last() == hop);
                assert(rightmost_untrusted(t, trusted_proxies@) == k - 1);
                assert(full[k - 1] == hop);
            }
            return hop;
        }
        proof {
            assert(t.drop_last() =~= full.take(k - 1));
        }
        k = k - 1;
    }
    proof {
        assert(full.take(0) =~= Seq::<IpAddress>::empty());
    }
    first
}

/// Resolves the client address of a request from its transport peer, the
/// values of its `x-forwarded-for` headers (`None` for one that is not
/// visible text), and the trusted proxy networks.
pub fn resolve_client_ip(
    peer: IpAddress,
    forwarded_for: &[Option<String>],
    trusted_proxies: &[IpNetwork],
) -> (r: IpAddress)
    ensures
        r == client_ip(peer, forwarded_for@, trusted_proxies@),
{
    if !is_trusted(trusted_proxies, peer) {
        return peer;
    }
    let chain = read_forwarded_chain(forwarded_for);
    client_from_chain(peer, chain, trusted_proxies)
}


/// A peer outside every trusted network is the client, whatever it forwards.
pub proof fn law_untrusted_peer_is_the_client(
    peer: IpAddress,
    forwarded_for: Seq<Option<String>>,
    proxies: Seq<IpNetwork>,
)
    requires
        !trusted_by(proxies, peer),
    ensures
        client_ip(peer, forwarded_for, proxies) == peer,
{
}

/// A forwarded chain that cannot be read in full (a value that is not text
/// or is too long, a hop that is not an address, more than 16 hops) is
/// ignored: the request is attributed to its transport peer.
pub proof fn law_unreadable_chain_falls_back_to_the_peer(
    peer: IpAddress,
    forwarded_for: Seq<Option<String>>,
    proxies: Seq<IpNetwork>,
)
    requires
        forwarded_chain(forwarded_for) is None,
    ensures
        client_ip(peer, forwarded_for, proxies) == peer,
{
}

/// Behind a trusted peer, the client is a hop of the forwarded chain (or the
/// peer itself) such that every hop to its right is trusted, and it is
/// itself untrusted unless it is the leftmost hop.
pub proof fn law_client_is_the_first_untrusted_hop_from_the_right(
    peer: IpAddress,
    forwarded_for: Seq<Option<String>>,
    proxies: Seq<IpNetwork>,
)
    requires
        trusted_by(proxies, peer),
        forwarded_chain(forwarded_for) matches Some(c) && c.len() > 0,
    ensures
        ({
            let full = forwarded_chain(forwarded_for).unwrap().push(peer);
            exists|i: int|
                0 <= i < full.len() && full[i] == client_ip(peer, forwarded_for, proxies) && (i == 0
                    || !trusted_by(proxies, full[i])) && forall|j: int|
                    i < j < full.len() ==> trusted_by(proxies, #[trigger] full[j])
        }),
{
    let full = forwarded_chain(forwarded_for).unwrap().push(peer);
    lemma_rightmost_untrusted(full, proxies);
    let i = rightmost_untrusted(full, proxies);
    if i >= 0 {
        assert(full[i] == client_ip(peer, forwarded_for, proxies));
    } else {
        assert(full[0] == client_ip(peer, forwarded_for, proxies));
    }
}

} // verus!
