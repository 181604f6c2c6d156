//! Conversions between the byte streams the external tools emit and the
//! strings the library hands back to its caller.

use vstd::prelude::*;
use vstd::utf8::{valid_utf8, decode_utf8};

verus! {

/// All bytes are ASCII.
pub open spec fn ascii_bytes(b: Seq<u8>) -> bool {
    forall|i: int| 0 <= i < b.len() ==> b[i] < 0x80
}

/// The characters an ASCII byte sequence decodes to.
pub open spec fn chars_of_ascii(b: Seq<u8>) -> Seq<char> {
    Seq::new(b.len(), |i: int| b[i] as char)
}

/// What `String::from_utf8_lossy` yields on arbitrary bytes: a pure function
/// of its argument (invalid sequences become replacement characters).
pub uninterp spec fn lossy_of(b: Seq<u8>) -> Seq<char>;

/// Relies on `String::from_utf8_lossy`: valid UTF-8 input is decoded
/// unchanged, invalid sequences are replaced deterministically, and valid
/// leading sequences, in particular an ASCII prefix, come through as
/// themselves.
#[verifier::external_body]
pub fn lossy_string(b: &[u8]) -> (r: String)
    ensures
        r@ == lossy_of(b@),
        valid_utf8(b@) ==> r@ == decode_utf8(b@),
        forall|k: int| #![trigger ascii_bytes(b@.take(k))]
            0 <= k <= b@.len() && ascii_bytes(b@.take(k)) ==> r@.len() >= k && r@.take(k)
                == chars_of_ascii(b@.take(k)),
{
    String::from_utf8_lossy(b).into_owned()
}

/// `lossy_string`, after removing surrounding ASCII whitespace.
pub fn lossy_trimmed_string(b: &[u8]) -> (r: String)
    ensures
        r@ == lossy_of(crate::bytes::spec_trim(b@)),
        valid_utf8(crate::bytes::spec_trim(b@)) ==> r@ == decode_utf8(crate::bytes::spec_trim(b@)),
{
    let t = crate::bytes::trim_ascii(b);
    lossy_string(t.as_slice())
}

} // verus!
