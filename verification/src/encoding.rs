//! Fixed-width integer encodings and lowercase hexadecimal text.
use vstd::prelude::*;
use crate::text::is_ascii_bytes;

verus! {

/// The big-endian encoding of `x` in `width` bytes (`to_be_bytes`): the
/// encoding of `x / 256` in one byte fewer, then `x % 256`.
pub open spec fn be_bytes(x: nat, width: nat) -> Seq<u8>
    decreases width,
{
    if width == 0 {
        Seq::empty()
    } else {
        be_bytes(x / 256, (width - 1) as nat).push((x % 256) as u8)
    }
}

/// Appends the `width`-byte big-endian encoding of `x` to `out`.
pub fn push_be(out: &mut Vec<u8>, x: u128, width: usize)
    ensures
        final(out)@ == old(out)@ + be_bytes(x as nat, width as nat),
    decreases width,
{
    if width == 0 {
        proof {
            assert(old(out)@ + be_bytes(x as nat, 0) =~= old(out)@);
        }
        return;
    }
    push_be(out, x / 256, width - 1);
    out.push((x % 256) as u8);
    proof {
        assert(old(out)@ + be_bytes(x as nat, width as nat) =~= old(out)@ + be_bytes(
            (x / 256) as nat,
            (width - 1) as nat,
        ) + seq![(x % 256) as u8]);
    }
}

/// The lowercase hexadecimal digit of a nibble.
pub open spec fn hex_digit(n: u8) -> u8 {
    if n < 10 {
        (0x30 + n) as u8
    } else {
        (0x61 + n - 10) as u8
    }
}

/// Lowercase hexadecimal text of `bytes`: two digits per byte, high nibble first.
pub open spec fn hex_lower(bytes: Seq<u8>) -> Seq<u8>
    decreases bytes.len(),
{
    if bytes.len() == 0 {
        Seq::empty()
    } else {
        hex_lower(bytes.drop_last()) + seq![
            hex_digit(bytes.last() / 16),
            hex_digit(bytes.last() % 16),
        ]
    }
}

proof fn lemma_hex_lower_ascii(bytes: Seq<u8>)
    ensures
        is_ascii_bytes(hex_lower(bytes)),
        hex_lower(bytes).len() == 2 * bytes.len(),
    decreases bytes.len(),
{
    if bytes.len() > 0 {
        lemma_hex_lower_ascii(bytes.drop_last());
    }
}

/// Appends the lowercase hexadecimal text of `bytes` to `out`, formatting each
/// byte as two digits (`{:02x}`).
pub fn push_hex_lower(out: &mut Vec<u8>, bytes: &[u8])
    ensures
        final(out)@ == old(out)@ + hex_lower(bytes@),
{
    let mut i: usize = 0;
    while i < bytes.len()
        invariant
            i <= bytes@.len(),
            out@ == old(out)@ + hex_lower(bytes@.take(i as int)),
        decreases bytes@.len() - i,
    {
        let b = bytes[i];
        let hi = b / 16;
        let lo = b % 16;
        out.push(if hi < 10 { 0x30 + hi } else { 0x61 + hi - 10 });
        out.push(if lo < 10 { 0x30 + lo } else { 0x61 + lo - 10 });
        proof {
            assert(bytes@.take(i + 1).drop_last() =~= bytes@.take(i as int));
            assert(out@ =~= old(out)@ + hex_lower(bytes@.take(i + 1)));
        }
        i = i + 1;
    }
    proof {
        assert(bytes@.take(bytes@.len() as int) =~= bytes@);
    }
}

pub proof fn lemma_hex_lower_facts(bytes: Seq<u8>)
    ensures
        is_ascii_bytes(hex_lower(bytes)),
        hex_lower(bytes).len() == 2 * bytes.len(),
{
    lemma_hex_lower_ascii(bytes);
}


/// A secret for one purpose derived from the master key: the SHA-256 of the
/// purpose, a zero byte, and the master key.
pub fn derive_secret(master_key: &[u8], domain: &[u8]) -> (r: Vec<u8>)
    ensures
        r@ == crate::outside::sha256(domain@ + seq![0u8] + master_key@),
        r@.len() == 32,
{
    let mut message: Vec<u8> = Vec::new();
    crate::text::append_bytes(&mut message, domain);
    message.push(0u8);
    crate::text::append_bytes(&mut message, master_key);
    proof {
        assert(message@ =~= domain@ + seq![0u8] + master_key@);
    }
    crate::outside::sha256_digest(message.as_slice())
}

} // verus!
