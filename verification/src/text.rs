use vstd::prelude::*;
use vstd::string::StringSliceAdditionalSpecFns;
use crate::error::Error;

verus! {

/// Text that is ready to cross the boundary: the bytes of the string followed by one
/// terminating zero byte.
pub open spec fn terminated(bytes: Seq<u8>) -> Seq<u8> {
    bytes.push(0u8)
}

/// Whether a zero byte occurs in the text, which a zero-terminated buffer cannot hold.
pub open spec fn has_nul(bytes: Seq<u8>) -> bool {
    exists|i: int| 0 <= i < bytes.len() && bytes[i] == 0u8
}

/// Encodes a string argument as zero-terminated text.
///
/// Fails with `InvalidText` exactly when the string holds a zero byte.
pub fn c_text(s: &str) -> (r: Result<Vec<u8>, Error>)
    ensures
        has_nul(s.spec_bytes()) <==> r is Err,
        r is Err ==> r == Err::<Vec<u8>, Error>(Error::InvalidText),
        r is Ok ==> r.unwrap()@ == terminated(s.spec_bytes()),
{
    let bytes = s.as_bytes();
    let mut out: Vec<u8> = Vec::new();
    let mut i: usize = 0;
    while i < bytes.len()
        invariant
            i <= bytes.len(),
            bytes@ == s.spec_bytes(),
            out@ == bytes@.subrange(0, i as int),
            forall|j: int| 0 <= j < i ==> bytes@[j] != 0u8,
        decreases bytes.len() - i,
    {
        let b: u8 = bytes[i];
        if b == 0 {
            return Err(Error::InvalidText);
        }
        out.push(b);
        i = i + 1;
        assert(out@ =~= bytes@.subrange(0, i as int));
    }
    assert(bytes@.subrange(0, i as int) =~= bytes@);
    out.push(0);
    Ok(out)
}

/// Calls `core::str::from_utf8`, which checks that the bytes are UTF-8 and, where
/// they are, gives the same bytes back as a string.
#[verifier::external_body]
fn utf8_text(bytes: &[u8]) -> (r: Option<&str>)
    ensures
        r is Some <==> vstd::utf8::valid_utf8(bytes@),
        r is Some ==> r.unwrap().spec_bytes() == bytes@,
{
    match core::str::from_utf8(bytes) {
        Ok(text) => Some(text),
        Err(_) => None,
    }
}

/// Reads text that came from the native layer, without its terminating zero byte.
///
/// Fails with `InvalidText` exactly when the bytes are not UTF-8.
pub fn decode_text(bytes: &[u8]) -> (r: Result<&str, Error>)
    ensures
        r is Ok <==> vstd::utf8::valid_utf8(bytes@),
        r is Ok ==> r.unwrap().spec_bytes() == bytes@ && r.unwrap()@ == vstd::utf8::decode_utf8(bytes@),
        r is Err ==> r == Err::<&str, Error>(Error::InvalidText),
{
    match utf8_text(bytes) {
        Some(text) => {
            proof {
                vstd::utf8::encode_utf8_decode_utf8(text@);
            }
            Ok(text)
        },
        None => Err(Error::InvalidText),
    }
}

} // verus!
