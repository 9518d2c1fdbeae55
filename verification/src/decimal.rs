//! Decimal text of integers: the form in which a user id travels as the
//! subject of a token.

use vstd::prelude::*;
use vstd::string::*;

use crate::text::ascii_bytes;

verus! {

/// The character that stands for the digit `d`, for `0 <= d < 10`.
pub open spec fn digit_char(d: int) -> char {
    (48 + d) as char
}

/// Whether `c` is one of `'0'` to `'9'`.
pub open spec fn is_digit(c: char) -> bool {
    48 <= c as int && c as int <= 57
}

/// The value of the digit `c`.
pub open spec fn digit_value(c: char) -> int {
    c as int - 48
}

/// The digits of `n` in base ten, most significant first, without leading
/// zeros; zero is written `0`.
pub open spec fn decimal_digits(n: nat) -> Seq<char>
    decreases n,
{
    if n < 10 {
        seq![digit_char(n as int)]
    } else {
        decimal_digits(n / 10).push(digit_char((n % 10) as int))
    }
}

/// The decimal text of `n`: a minus sign for a negative number, then the
/// digits of its magnitude.
pub open spec fn decimal_string(n: int) -> Seq<char> {
    if n < 0 {
        seq!['-'] + decimal_digits((-n) as nat)
    } else {
        decimal_digits(n as nat)
    }
}

/// Whether every character of `s` is a digit.
pub open spec fn all_digits(s: Seq<char>) -> bool {
    forall|i: int| 0 <= i < s.len() ==> is_digit(#[trigger] s[i])
}

/// The number that a run of digits denotes in base ten; leading zeros count
/// for nothing and the empty run denotes zero.
pub open spec fn digits_value(s: Seq<char>) -> nat
    decreases s.len(),
{
    if s.len() == 0 {
        0
    } else {
        (digits_value(s.drop_last()) * 10 + digit_value(s.last())) as nat
    }
}

/// Whether `s` begins with a sign character.
pub open spec fn has_sign(s: Seq<char>) -> bool {
    s.len() > 0 && (s[0] == '-' || s[0] == '+')
}

/// What is left of `s` once an optional leading sign is taken away.
pub open spec fn unsigned_part(s: Seq<char>) -> Seq<char> {
    if has_sign(s) {
        s.skip(1)
    } else {
        s
    }
}

/// The integer that `s` denotes: an optional `+` or `-`, then one or more
/// digits and nothing else. Any other text denotes no integer.
pub open spec fn parse_decimal(s: Seq<char>) -> Option<int> {
    let body = unsigned_part(s);
    if body.len() > 0 && all_digits(body) {
        if s[0] == '-' {
            Some(-(digits_value(body) as int))
        } else {
            Some(digits_value(body) as int)
        }
    } else {
        None
    }
}

/// The `i32` that `s` denotes, if it denotes an integer and that integer
/// fits.
pub open spec fn parse_i32_spec(s: Seq<char>) -> Option<i32> {
    match parse_decimal(s) {
        Some(v) => if i32::MIN <= v <= i32::MAX {
            Some(v as i32)
        } else {
            None
        },
        None => None,
    }
}

/// The digits of a number are digits, there is at least one of them, and they
/// denote that number.
pub proof fn lemma_decimal_digits(n: nat)
    ensures
        decimal_digits(n).len() > 0,
        all_digits(decimal_digits(n)),
        digits_value(decimal_digits(n)) == n,
    decreases n,
{
    if n < 10 {
        let s = decimal_digits(n);
        assert(s.drop_last() =~= Seq::<char>::empty());
        assert(digits_value(s.drop_last()) == 0);
    } else {
        lemma_decimal_digits(n / 10);
        let head = decimal_digits(n / 10);
        let s = decimal_digits(n);
        assert(s.drop_last() =~= head);
    }
}

/// Reading the decimal text of an integer gives that integer back.
pub proof fn lemma_parse_decimal_string(n: int)
    ensures
        parse_decimal(decimal_string(n)) == Some(n),
{
    let s = decimal_string(n);
    if n < 0 {
        let digits = decimal_digits((-n) as nat);
        lemma_decimal_digits((-n) as nat);
        assert(s.skip(1) =~= digits);
    } else {
        lemma_decimal_digits(n as nat);
        assert(is_digit(s[0]));
    }
}

/// Reading the decimal text of an `i32` gives that `i32` back.
pub proof fn lemma_parse_i32_of_decimal_string(n: i32)
    ensures
        parse_i32_spec(decimal_string(n as int)) == Some(n),
{
    lemma_parse_decimal_string(n as int);
}

/// Two integers with the same decimal text are the same integer.
pub proof fn lemma_decimal_string_injective(a: int, b: int)
    requires
        decimal_string(a) == decimal_string(b),
    ensures
        a == b,
{
    lemma_parse_decimal_string(a);
    lemma_parse_decimal_string(b);
}

/// Reading more digits never gives a smaller number.
proof fn lemma_digits_value_take_le(s: Seq<char>, k: int)
    requires
        all_digits(s),
        0 <= k <= s.len(),
    ensures
        digits_value(s.take(k)) <= digits_value(s),
    decreases s.len(),
{
    if k == s.len() {
        assert(s.take(k) =~= s);
    } else {
        let front = s.drop_last();
        assert(front.take(k) =~= s.take(k));
        lemma_digits_value_take_le(front, k);
    }
}

/// One more than the largest `i32`: the largest magnitude an `i32` can have.
pub const I32_MAGNITUDE_LIMIT: u64 = 2147483648;

/// Reads an `i32` from its decimal text: an optional `+` or `-`, then one or
/// more digits and nothing else. Text that denotes no integer, or one that
/// does not fit an `i32`, gives `None`.
pub fn parse_i32(s: &str) -> (r: Option<i32>)
    ensures
        r == parse_i32_spec(s@),
{
    let bytes = match ascii_bytes(s) {
        Some(b) => b,
        None => {
            proof {
                let i = choose|i: int| 0 <= i < s@.len() && !('\0' <= #[trigger] s@[i] <= '\u{7f}');
                let body = unsigned_part(s@);
                if has_sign(s@) {
                    assert(body[i - 1] == s@[i]);
                    assert(!is_digit(body[i - 1]));
                } else {
                    assert(!is_digit(body[i]));
                }
            }
            return None;
        },
    };
    let n: usize = bytes.len();
    let negative: bool = n > 0 && bytes[0] == 45;
    let signed: bool = n > 0 && (bytes[0] == 45 || bytes[0] == 43);
    let start: usize = if signed { 1 } else { 0 };
    let ghost body = unsigned_part(s@);
    if start == n {
        return None;
    }
    let mut acc: u64 = 0;
    let mut i: usize = start;
    assert(body.take(0) =~= Seq::<char>::empty());
    while i < n
        invariant
            start <= i <= n,
            n == s@.len(),
            bytes@.len() == s@.len(),
            forall|j: int| 0 <= j < s@.len() ==> bytes@[j] as int == #[trigger] s@[j] as int,
            body == unsigned_part(s@),
            body.len() == n - start,
            forall|j: int| 0 <= j < body.len() ==> body[j] == s@[j + start],
            all_digits(body.take(i - start)),
            acc == digits_value(body.take(i - start)),
            acc <= I32_MAGNITUDE_LIMIT,
        decreases n - i,
    {
        let c: u8 = bytes[i];
        let ghost k = i - start;
        if c < 48 || c > 57 {
            assert(!is_digit(body[k]));
            return None;
        }
        let next: u64 = acc * 10 + (c - 48) as u64;
        proof {
            let longer = body.take(k + 1);
            assert(longer.drop_last() =~= body.take(k));
            assert(digits_value(longer) == next);
            assert forall|j: int| 0 <= j < longer.len() implies is_digit(#[trigger] longer[j]) by {
                if j < k {
                    assert(body.take(k)[j] == longer[j]);
                }
            }
        }
        if next > I32_MAGNITUDE_LIMIT {
            proof {
                if all_digits(body) {
                    lemma_digits_value_take_le(body, k + 1);
                }
            }
            return None;
        }
        acc = next;
        i = i + 1;
    }
    assert(body.take(n - start) =~= body);
    if negative {
        let v: i64 = -(acc as i64);
        Some(v as i32)
    } else if acc < I32_MAGNITUDE_LIMIT {
        Some(acc as i32)
    } else {
        None
    }
}

/// The text of one digit.
fn digit_str(d: u32) -> (r: &'static str)
    requires
        d < 10,
    ensures
        r@ == seq![digit_char(d as int)],
{
    proof {
        reveal_strlit("0");
        reveal_strlit("1");
        reveal_strlit("2");
        reveal_strlit("3");
        reveal_strlit("4");
        reveal_strlit("5");
        reveal_strlit("6");
        reveal_strlit("7");
        reveal_strlit("8");
        reveal_strlit("9");
    }
    let r = if d == 0 {
        "0"
    } else if d == 1 {
        "1"
    } else if d == 2 {
        "2"
    } else if d == 3 {
        "3"
    } else if d == 4 {
        "4"
    } else if d == 5 {
        "5"
    } else if d == 6 {
        "6"
    } else if d == 7 {
        "7"
    } else if d == 8 {
        "8"
    } else {
        "9"
    };
    assert(r@ =~= seq![digit_char(d as int)]);
    r
}

/// Appends the digits of `n` to `out`.
fn push_digits(n: u32, out: &mut String)
    ensures
        final(out)@ == old(out)@ + decimal_digits(n as nat),
    decreases n,
{
    if n >= 10 {
        push_digits(n / 10, out);
    }
    out.append(digit_str(n % 10));
}

/// Writes `n` as decimal text.
pub fn format_i32(n: i32) -> (r: String)
    ensures
        r@ == decimal_string(n as int),
{
    let mut out = String::new();
    let magnitude: u32 = if n < 0 {
        proof {
            reveal_strlit("-");
        }
        out.append("-");
        (-(n as i64)) as u32
    } else {
        n as u32
    };
    assert(out@ =~= if n < 0 { seq!['-'] } else { Seq::<char>::empty() });
    push_digits(magnitude, &mut out);
    out
}

} // verus!
