//! The `Bearer` form of an `Authorization` header value.

use vstd::prelude::*;
use vstd::string::*;

use crate::text::ascii_bytes;

verus! {

/// Whether `c` may stand in the text of a header value: a printable ASCII
/// character, a space or a tab.
pub open spec fn is_header_text(c: char) -> bool {
    c == '\t' || (32 <= c as int && c as int <= 126)
}

/// Whether every character of `h` may stand in the text of a header value.
pub open spec fn all_header_text(h: Seq<char>) -> bool {
    forall|i: int| 0 <= i < h.len() ==> is_header_text(#[trigger] h[i])
}

/// Whether `c` is a space or a tab.
pub open spec fn is_blank(c: char) -> bool {
    c == ' ' || c == '\t'
}

/// Whether `c` is the letter `lower`, in either case; `lower` is a lower-case
/// ASCII letter.
pub open spec fn is_letter(c: char, lower: char) -> bool {
    c == lower || c as int + 32 == lower as int
}

/// Whether `h` opens with the scheme name `Bearer`, in any mix of cases,
/// followed by one space.
pub open spec fn has_bearer_scheme(h: Seq<char>) -> bool {
    &&& h.len() > 6
    &&& is_letter(h[0], 'b')
    &&& is_letter(h[1], 'e')
    &&& is_letter(h[2], 'a')
    &&& is_letter(h[3], 'r')
    &&& is_letter(h[4], 'e')
    &&& is_letter(h[5], 'r')
    &&& h[6] == ' '
}

/// `s` without its leading spaces and tabs.
pub open spec fn skip_blanks(s: Seq<char>) -> Seq<char>
    decreases s.len(),
{
    if s.len() > 0 && is_blank(s[0]) {
        skip_blanks(s.skip(1))
    } else {
        s
    }
}

/// The token that the header value `h` carries: `h` must be header text that
/// opens with the `Bearer` scheme and a space; the token is what follows,
/// less any further leading spaces and tabs. It may be empty.
pub open spec fn bearer_token_spec(h: Seq<char>) -> Option<Seq<char>> {
    if all_header_text(h) && has_bearer_scheme(h) {
        Some(skip_blanks(h.skip(7)))
    } else {
        None
    }
}

/// The length of the scheme name and the space after it.
pub const SCHEME_PREFIX_LEN: usize = 7;

/// Whether the byte `b` is the ASCII letter `lower` in either case.
fn byte_is_letter(b: u8, lower: u8) -> (r: bool)
    requires
        97 <= lower <= 122,
    ensures
        r == (b == lower || b as int + 32 == lower as int),
{
    b == lower || (b < 128 && b + 32 == lower)
}

/// Extracts the token from the value of an `Authorization` header, or
/// returns `None` when the value is not a well-formed `Bearer` credential.
pub fn bearer_token<'a>(header: &'a str) -> (r: Option<&'a str>)
    ensures
        r is Some <==> bearer_token_spec(header@) is Some,
        r matches Some(t) ==> bearer_token_spec(header@) == Some(t@),
{
    let bytes = match ascii_bytes(header) {
        Some(b) => b,
        None => {
            proof {
                let i = choose|i: int|
                    0 <= i < header@.len() && !('\0' <= #[trigger] header@[i] <= '\u{7f}');
                assert(!is_header_text(header@[i]));
            }
            return None;
        },
    };
    let n: usize = bytes.len();
    let mut i: usize = 0;
    while i < n
        invariant
            0 <= i <= n,
            n == header@.len(),
            bytes@.len() == header@.len(),
            forall|j: int|
                0 <= j < header@.len() ==> bytes@[j] as int == #[trigger] header@[j] as int,
            forall|j: int| 0 <= j < i ==> is_header_text(#[trigger] header@[j]),
        decreases n - i,
    {
        let b: u8 = bytes[i];
        if !(b == 9 || (32 <= b && b <= 126)) {
            assert(!is_header_text(header@[i as int]));
            return None;
        }
        i = i + 1;
    }
    if n < SCHEME_PREFIX_LEN {
        return None;
    }
    let scheme: bool = byte_is_letter(bytes[0], 98) && byte_is_letter(bytes[1], 101)
        && byte_is_letter(bytes[2], 97) && byte_is_letter(bytes[3], 114) && byte_is_letter(
        bytes[4],
        101,
    ) && byte_is_letter(bytes[5], 114) && bytes[6] == 32;
    if !scheme {
        return None;
    }
    let mut start: usize = SCHEME_PREFIX_LEN;
    assert(header@.skip(7) =~= header@.skip(start as int));
    while start < n && (bytes[start] == 32 || bytes[start] == 9)
        invariant
            SCHEME_PREFIX_LEN <= start <= n,
            n == header@.len(),
            bytes@.len() == header@.len(),
            forall|j: int|
                0 <= j < header@.len() ==> bytes@[j] as int == #[trigger] header@[j] as int,
            skip_blanks(header@.skip(7)) == skip_blanks(header@.skip(start as int)),
        decreases n - start,
    {
        proof {
            let rest = header@.skip(start as int);
            assert(rest.skip(1) =~= header@.skip(start + 1));
        }
        start = start + 1;
    }
    proof {
        let rest = header@.skip(start as int);
        if start < n {
            assert(rest[0] == header@[start as int]);
            assert(!is_blank(rest[0]));
        }
        assert(rest =~= header@.subrange(start as int, n as int));
    }
    Some(header.substring_ascii(start, n))
}

/// A token of header text that begins with no blank is carried whole by the
/// header value made of `Bearer`, a space and the token.
pub proof fn lemma_bearer_carries_token(token: Seq<char>)
    requires
        all_header_text(token),
        token.len() == 0 || !is_blank(token[0]),
    ensures
        bearer_token_spec("Bearer "@ + token) == Some(token),
{
    reveal_strlit("Bearer ");
    let prefix = "Bearer "@;
    let header = prefix + token;
    assert forall|i: int| 0 <= i < header.len() implies is_header_text(#[trigger] header[i]) by {
        if i >= 7 {
            assert(header[i] == token[i - 7]);
        } else {
            assert(header[i] == prefix[i]);
        }
    }
    assert(header[0] == prefix[0] && header[1] == prefix[1] && header[2] == prefix[2]);
    assert(header[3] == prefix[3] && header[4] == prefix[4] && header[5] == prefix[5]);
    assert(header[6] == prefix[6]);
    assert(header.skip(7) =~= token);
}

} // verus!
