//! Decimal text of integers: how a process identifier is written down and
//! how it is read back.

use vstd::prelude::*;

verus! {

/// Whether `c` is one of the ASCII digits `0` to `9`.
pub open spec fn is_digit(c: char) -> bool {
    '0' <= c && c <= '9'
}

/// The number that the ASCII digit `c` stands for.
pub open spec fn digit_value(c: char) -> int {
    c as int - '0' as int
}

/// The ASCII digit that stands for `d`, for `0 <= d <= 9`.
pub open spec fn digit_char(d: int) -> char {
    (d + '0' as int) as char
}

/// The decimal digits of `n`, most significant first, without leading
/// zeros; zero is written `0`.
pub open spec fn decimal(n: nat) -> Seq<char>
    decreases n,
{
    if n < 10 {
        seq![digit_char(n as int)]
    } else {
        decimal(n / 10).push(digit_char((n % 10) as int))
    }
}

/// The decimal text of a signed integer: a minus sign before the digits of
/// a negative number, no sign otherwise.
pub open spec fn signed_decimal(n: int) -> Seq<char> {
    if n < 0 {
        seq!['-'] + decimal((-n) as nat)
    } else {
        decimal(n as nat)
    }
}

/// Whether every character of `s` is an ASCII digit.
pub open spec fn all_digits(s: Seq<char>) -> bool {
    forall|i: int| 0 <= i < s.len() ==> is_digit(#[trigger] s[i])
}

/// The number that a sequence of ASCII digits denotes, most significant
/// digit first; the empty sequence denotes zero.
pub open spec fn digits_value(s: Seq<char>) -> int
    decreases s.len(),
{
    if s.len() == 0 {
        0
    } else {
        digits_value(s.drop_last()) * 10 + digit_value(s.last())
    }
}

/// Why a text is not the decimal form of a signed 32-bit integer.
#[derive(Clone, Copy, Debug, PartialEq, Eq, Structural)]
pub enum IntegerFault {
    /// The text is empty.
    Empty,
    /// The text holds a character that is no digit in a place where a digit
    /// must stand, or a sign without digits.
    InvalidDigit,
    /// The digits denote more than the largest 32-bit integer.
    PosOverflow,
    /// The digits denote less than the smallest 32-bit integer.
    NegOverflow,
}

/// The largest magnitude that the digits of a 32-bit integer may denote
/// behind the given sign.
pub open spec fn magnitude_limit(negative: bool) -> int {
    if negative {
        0x8000_0000
    } else {
        0x7fff_ffff
    }
}

/// Whether the first `k` characters of `digits` are all digits and already
/// denote more than `limit`.
pub open spec fn exceeds_at(digits: Seq<char>, k: int, limit: int) -> bool {
    &&& 0 <= k <= digits.len()
    &&& all_digits(digits.take(k))
    &&& digits_value(digits.take(k)) > limit
}

/// Whether some run of leading digits of `digits` denotes more than
/// `limit`.
pub open spec fn overflows(digits: Seq<char>, limit: int) -> bool {
    exists|k: int| exceeds_at(digits, k, limit)
}

/// What reading `digits` as the digits of a signed 32-bit integer gives,
/// behind a minus sign if `negative`. Reading goes left to right, so digits
/// that leave the range are reported as an overflow even where a character
/// that is no digit follows them.
pub open spec fn parsed_digits(digits: Seq<char>, negative: bool) -> Result<i32, IntegerFault> {
    if digits.len() == 0 {
        Err(IntegerFault::InvalidDigit)
    } else if overflows(digits, magnitude_limit(negative)) {
        if negative {
            Err(IntegerFault::NegOverflow)
        } else {
            Err(IntegerFault::PosOverflow)
        }
    } else if !all_digits(digits) {
        Err(IntegerFault::InvalidDigit)
    } else if negative {
        Ok((-digits_value(digits)) as i32)
    } else {
        Ok(digits_value(digits) as i32)
    }
}

/// What reading `s` as a signed 32-bit integer in decimal gives: an
/// optional sign, `+` or `-`, then one or more digits and nothing else.
pub open spec fn parsed_i32(s: Seq<char>) -> Result<i32, IntegerFault> {
    if s.len() == 0 {
        Err(IntegerFault::Empty)
    } else if s[0] == '-' {
        parsed_digits(s.skip(1), true)
    } else if s[0] == '+' {
        parsed_digits(s.skip(1), false)
    } else {
        parsed_digits(s, false)
    }
}

/// Appending a digit to a run of digits multiplies what it denotes by ten
/// and adds the digit.
pub proof fn lemma_value_of_longer_prefix(s: Seq<char>, k: int)
    requires
        0 <= k < s.len(),
    ensures
        digits_value(s.take(k + 1)) == digits_value(s.take(k)) * 10 + digit_value(s[k]),
{
    assert(s.take(k + 1).drop_last() == s.take(k));
    assert(s.take(k + 1).last() == s[k]);
}

/// A prefix of a run of digits denotes no more than the whole run, and
/// nothing negative.
pub proof fn lemma_prefix_value_monotone(s: Seq<char>, k: int)
    requires
        all_digits(s),
        0 <= k <= s.len(),
    ensures
        0 <= digits_value(s.take(k)) <= digits_value(s),
    decreases s.len(),
{
    if s.len() == 0 {
        assert(s.take(k) == s);
    } else {
        assert(is_digit(s.last()));
        if k < s.len() {
            lemma_prefix_value_monotone(s.drop_last(), k);
            assert(s.drop_last().take(k) == s.take(k));
        } else {
            lemma_prefix_value_monotone(s.drop_last(), k - 1);
            assert(s.drop_last().take(k - 1) == s.drop_last());
            assert(s.take(k) == s);
        }
    }
}

/// The decimal text of `n` is a run of one or more digits that denotes `n`.
pub proof fn lemma_decimal_denotes(n: nat)
    ensures
        decimal(n).len() >= 1,
        all_digits(decimal(n)),
        digits_value(decimal(n)) == n,
    decreases n,
{
    if n < 10 {
        let s = decimal(n);
        assert(s.drop_last() == Seq::<char>::empty());
        assert(digits_value(s.drop_last()) == 0);
    } else {
        lemma_decimal_denotes(n / 10);
        let s = decimal(n);
        assert(s.drop_last() == decimal(n / 10));
        assert(s.last() == digit_char((n % 10) as int));
    }
}

/// Reading back the decimal text of an unsigned number gives that number
/// where it fits a signed 32-bit integer, and an overflow where it does not.
pub proof fn lemma_parse_decimal(n: nat)
    ensures
        parsed_i32(decimal(n)) == if n <= i32::MAX {
            Ok::<i32, IntegerFault>(n as i32)
        } else {
            Err::<i32, IntegerFault>(IntegerFault::PosOverflow)
        },
{
    let s = decimal(n);
    lemma_decimal_denotes(n);
    assert(is_digit(s[0]));
    assert(s.take(s.len() as int) == s);
    if n <= i32::MAX {
        assert forall|k: int| !exceeds_at(s, k, magnitude_limit(false)) by {
            if 0 <= k <= s.len() {
                lemma_prefix_value_monotone(s, k);
            }
        }
    } else {
        assert(exceeds_at(s, s.len() as int, magnitude_limit(false)));
    }
}

/// Reading back the decimal text of a signed 32-bit integer gives that
/// integer.
pub proof fn law_signed_decimal_reads_back(n: i32)
    ensures
        parsed_i32(signed_decimal(n as int)) == Ok::<i32, IntegerFault>(n),
{
    if n >= 0 {
        lemma_parse_decimal(n as nat);
    } else {
        let m = (-n) as nat;
        let d = decimal(m);
        let s = signed_decimal(n as int);
        lemma_decimal_denotes(m);
        assert(s.skip(1) == d);
        assert(s[0] == '-');
        assert forall|k: int| !exceeds_at(d, k, magnitude_limit(true)) by {
            if 0 <= k <= d.len() {
                lemma_prefix_value_monotone(d, k);
            }
        }
    }
}

/// The one-character text of the digit `d`.
fn digit_text(d: u32) -> (text: &'static str)
    requires
        d < 10,
    ensures
        text@ == seq![digit_char(d as int)],
{
    proof {
        reveal_strlit("0");
        reveal_strlit("1");
        reveal_strlit("2");
        reveal_strlit("3");
        reveal_strlit("4");
        reveal_strlit("5");
        reveal_strlit("6");
        reveal_strlit("7");
        reveal_strlit("8");
        reveal_strlit("9");
    }
    let text = match d {
        0 => "0",
        1 => "1",
        2 => "2",
        3 => "3",
        4 => "4",
        5 => "5",
        6 => "6",
        7 => "7",
        8 => "8",
        _ => "9",
    };
    assert(text@ =~= seq![digit_char(d as int)]);
    text
}

/// Appends the decimal digits of `n` to `out`.
pub fn push_decimal(out: &mut String, n: u32)
    ensures
        final(out)@ == old(out)@ + decimal(n as nat),
    decreases n,
{
    if n >= 10 {
        push_decimal(out, n / 10);
    }
    out.append(digit_text(n % 10));
    assert(out@ =~= old(out)@ + decimal(n as nat));
}

/// The decimal text of `n`.
pub fn u32_to_decimal(n: u32) -> (text: String)
    ensures
        text@ == decimal(n as nat),
{
    let mut text = String::new();
    push_decimal(&mut text, n);
    assert(text@ =~= decimal(n as nat));
    text
}

/// The decimal text of `n`, with a leading minus sign if `n` is negative.
pub fn i32_to_decimal(n: i32) -> (text: String)
    ensures
        text@ == signed_decimal(n as int),
{
    let mut text = String::new();
    if n < 0 {
        proof {
            reveal_strlit("-");
        }
        text.append("-");
        let magnitude: u32 = if n == i32::MIN {
            0x8000_0000u32
        } else {
            (-n) as u32
        };
        push_decimal(&mut text, magnitude);
        assert(text@ =~= signed_decimal(n as int));
    } else {
        push_decimal(&mut text, n as u32);
        assert(text@ =~= signed_decimal(n as int));
    }
    text
}

/// Reads `chars[start..end]` as a signed 32-bit integer in decimal.
#[verifier::loop_isolation(false)]
pub fn parse_i32_range(chars: &Vec<char>, start: usize, end: usize) -> (result: Result<
    i32,
    IntegerFault,
>)
    requires
        start <= end <= chars.len(),
    ensures
        result == parsed_i32(chars@.subrange(start as int, end as int)),
{
    let ghost s = chars@.subrange(start as int, end as int);
    if start == end {
        return Err(IntegerFault::Empty);
    }
    let first = chars[start];
    let negative = first == '-';
    let signed = first == '-' || first == '+';
    let from: usize = if signed {
        start + 1
    } else {
        start
    };
    let ghost digits = chars@.subrange(from as int, end as int);
    assert(signed ==> digits == s.skip(1));
    assert(!signed ==> digits == s);
    if from == end {
        return Err(IntegerFault::InvalidDigit);
    }
    let limit: u64 = if negative {
        0x8000_0000
    } else {
        0x7fff_ffff
    };
    let overflow = if negative {
        IntegerFault::NegOverflow
    } else {
        IntegerFault::PosOverflow
    };
    let mut value: u64 = 0;
    let mut i: usize = from;
    assert(digits.take(0) == Seq::<char>::empty());
    while i < end
        invariant
            from <= i <= end <= chars.len(),
            digits == chars@.subrange(from as int, end as int),
            all_digits(digits.take(i - from)),
            value == digits_value(digits.take(i - from)),
            value <= limit <= 0x8000_0000,
        decreases end - i,
    {
        let c = chars[i];
        let ghost k = i - from;
        assert(digits[k] == c);
        if !(c >= '0' && c <= '9') {
            proof {
                assert forall|j: int| !exceeds_at(digits, j, limit as int) by {
                    if 0 <= j <= k {
                        lemma_prefix_value_monotone(digits.take(k), j);
                        assert(digits.take(k).take(j) == digits.take(j));
                    } else if k < j <= digits.len() {
                        assert(digits.take(j)[k] == c);
                    }
                }
                assert(!is_digit(digits[k]));
            }
            return Err(IntegerFault::InvalidDigit);
        }
        proof {
            lemma_value_of_longer_prefix(digits, k);
            let longer = digits.take(k + 1);
            assert forall|j: int| 0 <= j < k + 1 implies is_digit(#[trigger] longer[j]) by {
                if j < k {
                    assert(digits.take(k)[j] == longer[j]);
                }
            }
        }
        value = value * 10 + ((c as u32) - ('0' as u32)) as u64;
        if value > limit {
            assert(exceeds_at(digits, k + 1, limit as int));
            return Err(overflow);
        }
        i += 1;
    }
    proof {
        assert(digits.take(digits.len() as int) == digits);
        assert forall|j: int| !exceeds_at(digits, j, limit as int) by {
            if 0 <= j <= digits.len() {
                lemma_prefix_value_monotone(digits, j);
            }
        }
    }
    if negative {
        Ok((-(value as i64)) as i32)
    } else {
        Ok(value as i32)
    }
}

} // verus!
