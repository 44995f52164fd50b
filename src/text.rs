use vstd::prelude::*;

use vstd::utf8::{decode_utf8, valid_utf8};

verus! {

/// Relies on `String::from_utf8`: succeeds exactly on valid UTF-8, and the
/// string holds the characters that the bytes encode.
#[verifier::external_body]
pub(crate) fn utf8_text(b: &[u8]) -> (r: Option<String>)
    ensures
        match r {
            Some(s) => valid_utf8(b@) && s@ == decode_utf8(b@),
            None => !valid_utf8(b@),
        },
{
    String::from_utf8(b.to_vec()).ok()
}

/// The string that the JSON document `b` holds, if `b` is a JSON string.
pub uninterp spec fn json_string(b: Seq<u8>) -> Option<Seq<char>>;

/// Relies on `cosmwasm_std::from_json` read into a `String`.
#[verifier::external_body]
pub(crate) fn parse_json_string(b: &[u8]) -> (r: Option<String>)
    ensures
        match r {
            Some(s) => json_string(b@) == Some(s@),
            None => json_string(b@) is None,
        },
{
    cosmwasm_std::from_json::<String>(b).ok()
}

} // verus!
