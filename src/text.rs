use vstd::prelude::*;
use vstd::utf8::{decode_utf8, encode_utf8, encode_utf8_decode_utf8, valid_utf8};

verus! {

/// The text that a nullable C string argument stands for: nothing when the
/// argument is null or its bytes are not well-formed UTF-8, else the decoded
/// characters.
pub open spec fn text_spec(b: Option<&[u8]>) -> Option<Seq<char>> {
    match b {
        Some(bytes) => if valid_utf8(bytes@) {
            Some(decode_utf8(bytes@))
        } else {
            None
        },
        None => None,
    }
}

/// Relies on std::str::from_utf8: it succeeds exactly on well-formed UTF-8,
/// and the text it hands back is made of the same bytes.
#[verifier::external_body]
fn utf8_string(b: &[u8]) -> (r: Option<String>)
    ensures
        r is Some <==> valid_utf8(b@),
        r matches Some(s) ==> encode_utf8(s@) == b@,
{
    match std::str::from_utf8(b) {
        Ok(s) => Some(s.to_string()),
        Err(_) => None,
    }
}

/// Reads a nullable C string argument as owned text.
pub fn text_of(b: Option<&[u8]>) -> (r: Option<String>)
    ensures
        r is Some <==> text_spec(b) is Some,
        r matches Some(s) ==> text_spec(b) == Some(s@),
{
    match b {
        Some(bytes) => {
            let r = utf8_string(bytes);
            proof {
                if r is Some {
                    encode_utf8_decode_utf8(r->0@);
                }
            }
            r
        },
        None => None,
    }
}

} // verus!
