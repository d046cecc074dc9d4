//! Decimal text: writing integers and reading port numbers.
use vstd::prelude::*;

verus! {

/// The character of a decimal digit `0 <= d < 10`.
pub open spec fn digit_char(d: int) -> char {
    ('0' as int + d) as char
}

/// The decimal digits of a natural number, without leading zeros.
pub open spec fn nat_decimal(n: nat) -> Seq<char>
    decreases n,
{
    if n < 10 {
        seq![digit_char(n as int)]
    } else {
        nat_decimal(n / 10).push(digit_char((n % 10) as int))
    }
}

/// The decimal text of an integer, with a leading `-` when it is negative
/// (what `Display` writes for the integer types).
pub open spec fn int_decimal(i: int) -> Seq<char> {
    if i < 0 {
        seq!['-'] + nat_decimal((-i) as nat)
    } else {
        nat_decimal(i as nat)
    }
}

/// Whether a character is one of `0`..`9`.
pub open spec fn is_digit(c: char) -> bool {
    '0' <= c && c <= '9'
}

/// The value of a decimal digit character.
pub open spec fn digit_value(c: char) -> int {
    c as int - '0' as int
}

/// The value of a string of decimal digits (0 for the empty string).
pub open spec fn digits_value(s: Seq<char>) -> int
    decreases s.len(),
{
    if s.len() == 0 {
        0
    } else {
        digits_value(s.drop_last()) * 10 + digit_value(s.last())
    }
}

/// Every character is a decimal digit.
pub open spec fn all_digits(s: Seq<char>) -> bool {
    forall|i: int| 0 <= i < s.len() ==> is_digit(#[trigger] s[i])
}

/// The text after an optional leading `+`.
pub open spec fn unsigned_digits(s: Seq<char>) -> Seq<char> {
    if s.len() > 0 && s[0] == '+' {
        s.drop_first()
    } else {
        s
    }
}

/// What `str::parse::<u16>` accepts: an optional `+`, then one or more decimal
/// digits whose value fits in a `u16`; nothing else (no sign `-`, no spaces).
pub open spec fn parse_u16_spec(s: Seq<char>) -> Option<u16> {
    let body = unsigned_digits(s);
    if body.len() > 0 && all_digits(body) && digits_value(body) <= u16::MAX {
        Some(digits_value(body) as u16)
    } else {
        None
    }
}

fn digit_text(d: u64) -> (t: &'static str)
    requires
        d < 10,
    ensures
        t@ == seq![digit_char(d as int)],
{
    proof {
        reveal_strlit("0");
        reveal_strlit("1");
        reveal_strlit("2");
        reveal_strlit("3");
        reveal_strlit("4");
        reveal_strlit("5");
        reveal_strlit("6");
        reveal_strlit("7");
        reveal_strlit("8");
        reveal_strlit("9");
    }
    match d {
        0 => "0",
        1 => "1",
        2 => "2",
        3 => "3",
        4 => "4",
        5 => "5",
        6 => "6",
        7 => "7",
        8 => "8",
        _ => "9",
    }
}

/// Writes a natural number in decimal.
pub fn u64_to_decimal(n: u64) -> (t: String)
    ensures
        t@ == nat_decimal(n as nat),
    decreases n,
{
    if n < 10 {
        String::from_str(digit_text(n))
    } else {
        let head = u64_to_decimal(n / 10);
        head.concat(digit_text(n % 10))
    }
}

/// Writes an `i64` in decimal, as `Display` does.
pub fn i64_to_decimal(i: i64) -> (t: String)
    ensures
        t@ == int_decimal(i as int),
{
    if i < 0 {
        let magnitude: u64 = if i == i64::MIN {
            9223372036854775808u64
        } else {
            (-i) as u64
        };
        let digits = u64_to_decimal(magnitude);
        proof {
            reveal_strlit("-");
        }
        String::from_str("-").concat(digits.as_str())
    } else {
        u64_to_decimal(i as u64)
    }
}

proof fn lemma_digits_value_prefix_monotone(s: Seq<char>, j: int, k: int)
    requires
        0 <= j <= k <= s.len(),
        all_digits(s),
    ensures
        digits_value(s.take(j)) <= digits_value(s.take(k)),
    decreases k - j,
{
    if j < k {
        lemma_digits_value_prefix_monotone(s, j, k - 1);
        assert(s.take(k).drop_last() =~= s.take(k - 1));
        assert(is_digit(s[k - 1]));
        assert(digits_value(s.take(k)) == digits_value(s.take(k - 1)) * 10 + digit_value(s[k - 1]));
        assert(digits_value(s.take(k - 1)) >= 0) by {
            lemma_digits_value_nonnegative(s.take(k - 1));
        }
    }
}

proof fn lemma_digits_value_nonnegative(s: Seq<char>)
    requires
        all_digits(s),
    ensures
        digits_value(s) >= 0,
    decreases s.len(),
{
    if s.len() > 0 {
        assert(all_digits(s.drop_last())) by {
            assert forall|i: int| 0 <= i < s.drop_last().len() implies is_digit(
                #[trigger] s.drop_last()[i],
            ) by {
                assert(s.drop_last()[i] == s[i]);
            }
        }
        lemma_digits_value_nonnegative(s.drop_last());
        assert(is_digit(s[s.len() - 1]));
    }
}

/// Reads a port number as `str::parse::<u16>` does.
pub fn parse_u16(s: &str) -> (port: Option<u16>)
    ensures
        port == parse_u16_spec(s@),
{
    let len = s.unicode_len();
    if len == 0 {
        return None;
    }
    let start: usize = if s.get_char(0) == '+' {
        1
    } else {
        0
    };
    if start == len {
        return None;
    }
    let ghost body = unsigned_digits(s@);
    assert(body =~= s@.subrange(start as int, len as int));
    let mut value: u32 = 0;
    let mut i: usize = start;
    while i < len
        invariant
            start <= i <= len,
            len == s@.len(),
            start < len,
            body =~= s@.subrange(start as int, len as int),
            body == unsigned_digits(s@),
            all_digits(body.take(i - start)),
            value as int == digits_value(body.take(i - start)),
            value <= u16::MAX,
        decreases len - i,
    {
        let c = s.get_char(i);
        if !('0' <= c && c <= '9') {
            assert(!all_digits(body)) by {
                assert(body[i - start] == c);
            }
            return None;
        }
        let ghost k = i - start;
        assert(body.take(k + 1).drop_last() =~= body.take(k));
        assert(body.take(k + 1).last() == c);
        let d: u32 = (c as u32) - ('0' as u32);
        let next: u32 = value * 10 + d;
        assert(all_digits(body.take(k + 1))) by {
            assert forall|j: int| 0 <= j < body.take(k + 1).len() implies is_digit(
                #[trigger] body.take(k + 1)[j],
            ) by {
                if j < k {
                    assert(body.take(k + 1)[j] == body.take(k)[j]);
                }
            }
        }
        if next > 65535 {
            proof {
                if all_digits(body) {
                    lemma_digits_value_prefix_monotone(body, k + 1, body.len() as int);
                    assert(body.take(body.len() as int) =~= body);
                }
            }
            return None;
        }
        value = next;
        i = i + 1;
    }
    assert(body.take(len - start) =~= body);
    Some(value as u16)
}

proof fn lemma_decimal_digits(n: nat)
    ensures
        nat_decimal(n).len() >= 1,
        all_digits(nat_decimal(n)),
        digits_value(nat_decimal(n)) == n,
    decreases n,
{
    let d = digit_char((n % 10) as int);
    assert(digit_value(d) == n % 10);
    if n < 10 {
        assert(nat_decimal(n) == seq![d]);
        assert(nat_decimal(n).drop_last() =~= Seq::<char>::empty());
        assert(nat_decimal(n).last() == d);
        assert(digits_value(Seq::<char>::empty()) == 0);
        assert(is_digit(nat_decimal(n)[0]));
    } else {
        lemma_decimal_digits(n / 10);
        let head = nat_decimal(n / 10);
        let s = head.push(d);
        assert(nat_decimal(n) == s);
        assert((n / 10) * 10 + n % 10 == n);
        assert(s.drop_last() =~= head);
        assert(s.last() == d);
        assert forall|i: int| 0 <= i < s.len() implies is_digit(#[trigger] s[i]) by {
            if i < head.len() {
                assert(s[i] == head[i]);
            }
        }
    }
}

/// Reading a port back from its decimal text gives the port: every number
/// up to 65535, written in decimal with or without a leading `+`, parses to
/// itself, and one past it is refused.
pub proof fn lemma_parse_reads_back_decimal(n: nat)
    ensures
        n <= 65535 ==> parse_u16_spec(nat_decimal(n)) == Some(n as u16),
        n <= 65535 ==> parse_u16_spec(seq!['+'] + nat_decimal(n)) == Some(n as u16),
        n > 65535 ==> parse_u16_spec(nat_decimal(n)) is None,
{
    lemma_decimal_digits(n);
    let s = nat_decimal(n);
    assert(s[0] != '+') by {
        assert(is_digit(s[0]));
    }
    assert(unsigned_digits(s) == s);
    let p = seq!['+'] + s;
    assert(p[0] == '+');
    assert(unsigned_digits(p) =~= s);
}

/// Any nonempty run of decimal digits (leading zeros allowed), alone or
/// after one `+`, parses to its value when that value fits a port; the empty
/// text and a text that starts with `-` are refused.
pub proof fn lemma_parse_accepts_digit_runs(s: Seq<char>)
    ensures
        s.len() > 0 && all_digits(s) && digits_value(s) <= 65535 ==> parse_u16_spec(s) == Some(
            digits_value(s) as u16,
        ) && parse_u16_spec(seq!['+'] + s) == Some(digits_value(s) as u16),
        s.len() == 0 ==> parse_u16_spec(s) is None,
        s.len() > 0 && s[0] == '-' ==> parse_u16_spec(s) is None,
{
    if s.len() > 0 && all_digits(s) {
        assert(is_digit(s[0]));
        assert(unsigned_digits(s) == s);
        let p = seq!['+'] + s;
        assert(unsigned_digits(p) =~= s);
    }
    if s.len() > 0 && s[0] == '-' {
        assert(unsigned_digits(s) == s);
        assert(!is_digit(s[0]));
    }
}

} // verus!
