//! Access to the bytes of ASCII text.

use vstd::prelude::*;
use vstd::string::*;

verus! {

/// The bytes of `s` when every character of it is ASCII, one byte for each
/// character, and `None` otherwise.
pub fn ascii_bytes<'a>(s: &'a str) -> (r: Option<&'a [u8]>)
    ensures
        r is Some <==> is_ascii(s),
        r matches Some(b) ==> b@.len() == s@.len() && forall|i: int|
            0 <= i < s@.len() ==> b@[i] as int == #[trigger] s@[i] as int,
{
    if s.is_ascii() {
        let b = s.as_bytes();
        proof {
            vstd::utf8::is_ascii_chars_encode_utf8(s@);
            vstd::utf8::is_ascii_chars_nat_bound(s@);
            assert forall|i: int| 0 <= i < s@.len() implies b@[i] as int == #[trigger] s@[i] as int by {
                assert(s@[i] as u8 == b@[i]);
                assert((s@[i] as nat) < 128);
            }
        }
        Some(b)
    } else {
        None
    }
}

} // verus!
