use vstd::prelude::*;

use crate::error::QueryError;

verus! {

/// The longest identifier that a one-byte length prefix can describe.
pub const MAX_ADDR_LEN: usize = 255;

/// `[len] ++ bz`, or nothing for an empty identifier; `None` when the
/// identifier is too long for a one-byte prefix.
pub open spec fn length_prefixed(bz: Seq<u8>) -> Option<Seq<u8>> {
    if bz.len() == 0 {
        Some(Seq::empty())
    } else if bz.len() > MAX_ADDR_LEN {
        None
    } else {
        Some(seq![bz.len() as u8] + bz)
    }
}

/// Prefixes identifier bytes with their length, the way the remote chain
/// embeds variable-length identifiers inside composite keys.
pub fn length_prefix(bz: Vec<u8>) -> (r: Result<Vec<u8>, QueryError>)
    ensures
        match r {
            Ok(p) => length_prefixed(bz@) == Some(p@),
            Err(e) => length_prefixed(bz@) is None
                && e == (QueryError::AddressTooLong { max: MAX_ADDR_LEN, actual: bz@.len() as usize }),
        },
{
    prefixed(bz.as_slice())
}

pub(crate) fn prefixed(bz: &[u8]) -> (r: Result<Vec<u8>, QueryError>)
    ensures
        match r {
            Ok(p) => length_prefixed(bz@) == Some(p@),
            Err(e) => length_prefixed(bz@) is None
                && e == (QueryError::AddressTooLong { max: MAX_ADDR_LEN, actual: bz@.len() as usize }),
        },
{
    let bz_length = bz.len();
    if bz_length == 0 {
        return Ok(Vec::new());
    }
    if bz_length > MAX_ADDR_LEN {
        return Err(QueryError::AddressTooLong { max: MAX_ADDR_LEN, actual: bz_length });
    }
    let mut p: Vec<u8> = vec![bz_length as u8];
    let mut i: usize = 0;
    while i < bz_length
        invariant
            i <= bz_length == bz@.len(),
            p@ == seq![bz_length as u8] + bz@.subrange(0, i as int),
        decreases bz_length - i,
    {
        p.push(bz[i]);
        i += 1;
        assert(bz@.subrange(0, i as int) == bz@.subrange(0, i - 1) .push(bz@[i - 1]));
    }
    assert(bz@.subrange(0, bz_length as int) == bz@);
    Ok(p)
}

/// The 5-bit data words of the bech32 string `s` (checksum removed), if `s`
/// is a well-formed bech32 string.
pub uninterp spec fn bech32_words(s: Seq<char>) -> Option<Seq<u8>>;

/// The bytes that regrouping the 5-bit words `w` into 8-bit groups, without
/// padding, yields, if the words regroup cleanly.
pub uninterp spec fn regrouped_bytes(w: Seq<u8>) -> Option<Seq<u8>>;

/// The raw bytes of the address written as `s`.
pub open spec fn address_bytes(s: Seq<char>) -> Option<Seq<u8>> {
    match bech32_words(s) {
        Some(w) => regrouped_bytes(w),
        None => None,
    }
}

/// Relies on `bech32::decode`: checks the character set, the separator and
/// the checksum, and hands back the data words.
#[verifier::external_body]
fn bech32_decode(s: &str) -> (r: Option<Vec<u8>>)
    ensures
        match r {
            Some(w) => bech32_words(s@) == Some(w@),
            None => bech32_words(s@) is None,
        },
{
    bech32::decode(s).ok().map(|(_hrp, words, _variant)| words.iter().map(|w| w.to_u8()).collect())
}

/// Relies on `bech32::convert_bits` from 5-bit to 8-bit groups without
/// padding.
#[verifier::external_body]
fn regroup_5_to_8(w: &[u8]) -> (r: Option<Vec<u8>>)
    ensures
        match r {
            Some(b) => regrouped_bytes(w@) == Some(b@),
            None => regrouped_bytes(w@) is None,
        },
{
    bech32::convert_bits(w, 5, 8, false).ok()
}

/// Decodes a bech32 address into its raw bytes.
pub fn decode_and_convert(s: &str) -> (r: Result<Vec<u8>, QueryError>)
    ensures
        match r {
            Ok(b) => address_bytes(s@) == Some(b@),
            Err(e) => address_bytes(s@) is None && e == QueryError::AddressFormat,
        },
{
    let words = match bech32_decode(s) {
        Some(w) => w,
        None => return Err(QueryError::AddressFormat),
    };
    match regroup_5_to_8(words.as_slice()) {
        Some(b) => Ok(b),
        None => Err(QueryError::AddressFormat),
    }
}

/// The length-prefixed form of the address written as `s`.
pub open spec fn address_fragment(s: Seq<char>) -> Option<Seq<u8>> {
    match address_bytes(s) {
        Some(b) => length_prefixed(b),
        None => None,
    }
}

/// Decodes a bech32 address and length-prefixes its bytes, ready to stand
/// inside a composite key.
pub fn address_key_fragment(s: &str) -> (r: Result<Vec<u8>, QueryError>)
    ensures
        match r {
            Ok(p) => address_fragment(s@) == Some(p@),
            Err(e) => address_fragment(s@) is None && match address_bytes(s@) {
                None => e == QueryError::AddressFormat,
                Some(b) => e == (QueryError::AddressTooLong { max: MAX_ADDR_LEN, actual: b.len() as usize }),
            },
        },
{
    let b = decode_and_convert(s)?;
    length_prefix(b)
}

/// Deriving the key fragment of an address is deterministic: the same text
/// always gives the same bytes, namely the length of the address bytes
/// followed by those bytes.
pub proof fn address_fragment_deterministic(a: Seq<char>, b: Seq<char>)
    requires
        a == b,
        address_bytes(a) is Some,
        0 < address_bytes(a).unwrap().len() <= MAX_ADDR_LEN,
    ensures
        address_fragment(a) == address_fragment(b),
        address_fragment(a) == Some(seq![address_bytes(a).unwrap().len() as u8] + address_bytes(a).unwrap()),
{
}

} // verus!
