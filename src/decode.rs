use vstd::prelude::*;
use vstd::utf8;

use crate::error::{Error, Result};

verus! {

/// Relies on `std::str::from_utf8`: it accepts exactly the valid UTF-8 byte
/// sequences, and the text it returns is their decoding.
#[verifier::external_body]
fn utf8_text(b: &[u8]) -> (r: Option<&str>)
    ensures
        r is Some <==> utf8::valid_utf8(b@),
        r is Some ==> r->Some_0@ == utf8::decode_utf8(b@),
{
    std::str::from_utf8(b).ok()
}

/// The default decoder of entry names: the bytes as UTF-8, or the decoding
/// error `Utf` when they are not valid UTF-8.
pub fn decode_utf8(bytes: &[u8]) -> (r: Result<String>)
    ensures
        r is Ok <==> utf8::valid_utf8(bytes@),
        r is Ok ==> r->Ok_0@ == utf8::decode_utf8(bytes@),
        r is Err ==> r->Err_0 is Utf,
{
    match utf8_text(bytes) {
        Some(text) => Ok(text.to_owned()),
        None => Err(Error::Utf),
    }
}

} // verus!
