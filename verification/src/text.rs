//! Text: comparing, trimming, reading and writing decimal numbers.

use vstd::prelude::*;
use vstd::string::*;

verus! {

/// `String::push` appends the one character to the string and changes nothing else.
pub assume_specification[ String::push ](s: &mut String, ch: char)
    ensures
        final(s)@ == old(s)@.push(ch),
;

/// White space as Unicode defines it (the property `White_Space`).
pub open spec fn is_whitespace(c: char) -> bool {
    let u = c as u32;
    (0x09 <= u <= 0x0D) || u == 0x20 || u == 0x85 || u == 0xA0 || u == 0x1680 || (0x2000 <= u
        <= 0x200A) || u == 0x2028 || u == 0x2029 || u == 0x202F || u == 0x205F || u == 0x3000
}

/// Number of white-space characters at the start of `s`.
pub open spec fn leading_whitespace(s: Seq<char>) -> nat
    decreases s.len(),
{
    if s.len() > 0 && is_whitespace(s[0]) {
        1 + leading_whitespace(s.drop_first())
    } else {
        0
    }
}

/// Number of white-space characters at the end of `s`.
pub open spec fn trailing_whitespace(s: Seq<char>) -> nat
    decreases s.len(),
{
    if s.len() > 0 && is_whitespace(s.last()) {
        1 + trailing_whitespace(s.drop_last())
    } else {
        0
    }
}

/// `s` without the white space at its start and at its end.
pub open spec fn trimmed(s: Seq<char>) -> Seq<char> {
    let rest = s.subrange(leading_whitespace(s) as int, s.len() as int);
    rest.subrange(0, rest.len() - trailing_whitespace(rest))
}

/// A decimal digit.
pub open spec fn is_digit(c: char) -> bool {
    '0' <= c <= '9'
}

/// Every character is a decimal digit.
pub open spec fn all_digits(s: Seq<char>) -> bool {
    forall|i: int| 0 <= i < s.len() ==> is_digit(#[trigger] s[i])
}

/// The number that a sequence of decimal digits writes.
pub open spec fn digits_value(s: Seq<char>) -> nat
    decreases s.len(),
{
    if s.len() == 0 {
        0
    } else {
        (digits_value(s.drop_last()) * 10 + (s.last() as u32 - '0' as u32)) as nat
    }
}

/// The number that `s` writes without a minus sign: an optional `+`, then one
/// or more decimal digits.
pub open spec fn unsigned_value(s: Seq<char>) -> Option<nat> {
    let digits = if s.len() > 0 && s[0] == '+' {
        s.drop_first()
    } else {
        s
    };
    if digits.len() > 0 && all_digits(digits) {
        Some(digits_value(digits))
    } else {
        None
    }
}

/// The number that `s` writes: an optional `+` or `-`, then one or more
/// decimal digits.
pub open spec fn signed_value(s: Seq<char>) -> Option<int> {
    if s.len() > 0 && s[0] == '-' {
        let digits = s.drop_first();
        if digits.len() > 0 && all_digits(digits) {
            Some(-(digits_value(digits) as int))
        } else {
            None
        }
    } else {
        match unsigned_value(s) {
            Some(v) => Some(v as int),
            None => None,
        }
    }
}

/// The decimal digit for a value below 10.
pub open spec fn digit_char(v: int) -> char {
    if v == 0 {
        '0'
    } else if v == 1 {
        '1'
    } else if v == 2 {
        '2'
    } else if v == 3 {
        '3'
    } else if v == 4 {
        '4'
    } else if v == 5 {
        '5'
    } else if v == 6 {
        '6'
    } else if v == 7 {
        '7'
    } else if v == 8 {
        '8'
    } else {
        '9'
    }
}

/// A number in decimal digits, without leading zeros.
pub open spec fn decimal(n: nat) -> Seq<char>
    decreases n,
{
    if n < 10 {
        seq![digit_char(n as int)]
    } else {
        decimal(n / 10).push(digit_char(n as int % 10))
    }
}

/// Whether two texts hold the same characters.
pub fn same_text(a: &str, b: &str) -> (same: bool)
    ensures
        same == (a@ == b@),
{
    let n = a.unicode_len();
    if n != b.unicode_len() {
        return false;
    }
    let mut i: usize = 0;
    while i < n
        invariant
            n == a@.len(),
            n == b@.len(),
            i <= n,
            forall|j: int| 0 <= j < i ==> a@[j] == b@[j],
        decreases n - i,
    {
        if a.get_char(i) != b.get_char(i) {
            return false;
        }
        i = i + 1;
    }
    assert(a@ =~= b@);
    true
}

/// The characters of a text.
pub fn chars_of(s: &str) -> (chars: Vec<char>)
    ensures
        chars@ == s@,
{
    let n = s.unicode_len();
    let mut chars: Vec<char> = Vec::new();
    let mut i: usize = 0;
    while i < n
        invariant
            n == s@.len(),
            i <= n,
            chars@ == s@.subrange(0, i as int),
        decreases n - i,
    {
        chars.push(s.get_char(i));
        i = i + 1;
    }
    chars
}

/// Whether a character is white space.
pub fn is_space(c: char) -> (b: bool)
    ensures
        b == is_whitespace(c),
{
    let u = c as u32;
    (0x09 <= u && u <= 0x0D) || u == 0x20 || u == 0x85 || u == 0xA0 || u == 0x1680 || (0x2000
        <= u && u <= 0x200A) || u == 0x2028 || u == 0x2029 || u == 0x202F || u == 0x205F || u
        == 0x3000
}

proof fn lemma_leading_step(s: Seq<char>, i: int)
    requires
        0 <= i <= s.len(),
        forall|j: int| 0 <= j < i ==> is_whitespace(#[trigger] s[j]),
    ensures
        leading_whitespace(s) == i + leading_whitespace(s.subrange(i, s.len() as int)),
    decreases i,
{
    if i == 0 {
        assert(s.subrange(0, s.len() as int) =~= s);
    } else {
        lemma_leading_step(s, i - 1);
        let t = s.subrange(i - 1, s.len() as int);
        assert(t.drop_first() =~= s.subrange(i, s.len() as int));
    }
}

proof fn lemma_trailing_step(s: Seq<char>, i: int)
    requires
        0 <= i <= s.len(),
        forall|j: int| s.len() - i <= j < s.len() ==> is_whitespace(#[trigger] s[j]),
    ensures
        trailing_whitespace(s) == i + trailing_whitespace(s.subrange(0, s.len() - i)),
    decreases i,
{
    if i == 0 {
        assert(s.subrange(0, s.len() as int) =~= s);
    } else {
        lemma_trailing_step(s, i - 1);
        let t = s.subrange(0, s.len() - i + 1);
        assert(t.drop_last() =~= s.subrange(0, s.len() - i));
    }
}

/// Where the trimmed text begins and ends.
pub fn trim_range(chars: &Vec<char>) -> (range: (usize, usize))
    ensures
        range.0 <= range.1 <= chars@.len(),
        chars@.subrange(range.0 as int, range.1 as int) == trimmed(chars@),
{
    let n = chars.len();
    let mut start: usize = 0;
    while start < n && is_space(chars[start])
        invariant
            n == chars@.len(),
            start <= n,
            forall|j: int| 0 <= j < start ==> is_whitespace(#[trigger] chars@[j]),
        decreases n - start,
    {
        start = start + 1;
    }
    let ghost rest = chars@.subrange(start as int, n as int);
    proof {
        lemma_leading_step(chars@, start as int);
    }
    let mut end: usize = n;
    while end > start && is_space(chars[end - 1])
        invariant
            n == chars@.len(),
            start <= end <= n,
            rest == chars@.subrange(start as int, n as int),
            forall|j: int| end <= j < n ==> is_whitespace(#[trigger] chars@[j]),
        decreases end,
    {
        end = end - 1;
    }
    proof {
        assert forall|j: int| rest.len() - (n - end) <= j < rest.len() implies is_whitespace(
            #[trigger] rest[j],
        ) by {
            assert(rest[j] == chars@[j + start]);
        }
        lemma_trailing_step(rest, (n - end) as int);
    }
    (start, end)
}

/// The text that `chars[start..end]` holds.
pub fn text_between(chars: &Vec<char>, start: usize, end: usize) -> (text: String)
    requires
        start <= end <= chars@.len(),
    ensures
        text@ == chars@.subrange(start as int, end as int),
{
    let mut text = String::new();
    let mut i: usize = start;
    while i < end
        invariant
            start <= i <= end <= chars@.len(),
            text@ == chars@.subrange(start as int, i as int),
        decreases end - i,
    {
        text.push(chars[i]);
        i = i + 1;
    }
    text
}

proof fn lemma_digits_push(s: Seq<char>, c: char)
    requires
        is_digit(c),
    ensures
        digits_value(s.push(c)) == digits_value(s) * 10 + (c as u32 - '0' as u32),
{
    assert(s.push(c).drop_last() =~= s);
}

/// More digits never write a smaller number.
proof fn lemma_digits_monotonic(s: Seq<char>, i: int)
    requires
        all_digits(s),
        0 <= i <= s.len(),
    ensures
        digits_value(s.subrange(0, i)) <= digits_value(s),
    decreases s.len() - i,
{
    if i == s.len() {
        assert(s.subrange(0, i) =~= s);
    } else {
        lemma_digits_monotonic(s, i + 1);
        assert(s.subrange(0, i + 1).drop_last() =~= s.subrange(0, i));
    }
}

/// Reads the digits in `chars[start..end]`. Returns `None` when they are not
/// all digits, when there is none, or when the number does not fit.
fn read_digits(chars: &Vec<char>, start: usize, end: usize) -> (value: Option<u64>)
    requires
        start <= end <= chars@.len(),
    ensures
        ({
            let digits = chars@.subrange(start as int, end as int);
            value == if digits.len() > 0 && all_digits(digits) && digits_value(digits)
                <= u64::MAX {
                Some(digits_value(digits) as u64)
            } else {
                None
            }
        }),
{
    let ghost digits = chars@.subrange(start as int, end as int);
    if start == end {
        return None;
    }
    let mut acc: u64 = 0;
    let mut i: usize = start;
    while i < end
        invariant
            start <= i <= end <= chars@.len(),
            digits == chars@.subrange(start as int, end as int),
            all_digits(digits.subrange(0, i - start)),
            acc == digits_value(digits.subrange(0, i - start)),
        decreases end - i,
    {
        let c = chars[i];
        assert(c == digits[i - start]);
        if !('0' <= c && c <= '9') {
            return None;
        }
        let d = (c as u32 - '0' as u32) as u64;
        let ghost prefix = digits.subrange(0, i - start);
        let ghost next = digits.subrange(0, i - start + 1);
        proof {
            assert(next =~= prefix.push(c));
            lemma_digits_push(prefix, c);
            assert forall|j: int| 0 <= j < next.len() implies is_digit(#[trigger] next[j]) by {
                if j < prefix.len() {
                    assert(next[j] == prefix[j]);
                }
            }
        }
        let widened = match acc.checked_mul(10) {
            Some(m) => m.checked_add(d),
            None => None,
        };
        match widened {
            Some(v) => {
                acc = v;
            },
            None => {
                proof {
                    if all_digits(digits) {
                        lemma_digits_monotonic(digits, i - start + 1);
                    }
                }
                return None;
            },
        }
        i = i + 1;
    }
    assert(digits.subrange(0, end - start) =~= digits);
    Some(acc)
}

/// Reads a number without a minus sign from a text, white space around it
/// set aside. Returns `None` when the text writes no such number or the
/// number is above `u64::MAX`.
pub fn parse_unsigned(s: &str) -> (value: Option<u64>)
    ensures
        value == match unsigned_value(trimmed(s@)) {
            Some(v) => if v <= u64::MAX {
                Some(v as u64)
            } else {
                None
            },
            None => None,
        },
{
    let chars = chars_of(s);
    let (start, end) = trim_range(&chars);
    let ghost t = trimmed(s@);
    if start < end && chars[start] == '+' {
        assert(t.drop_first() =~= chars@.subrange(start as int + 1, end as int));
        read_digits(&chars, start + 1, end)
    } else {
        read_digits(&chars, start, end)
    }
}

/// Reads a number from a text, white space around it set aside. Returns
/// `None` when the text writes no number or the number is outside `i64`.
pub fn parse_signed(s: &str) -> (value: Option<i64>)
    ensures
        value == match signed_value(trimmed(s@)) {
            Some(v) => if i64::MIN <= v <= i64::MAX {
                Some(v as i64)
            } else {
                None
            },
            None => None,
        },
{
    let chars = chars_of(s);
    let (start, end) = trim_range(&chars);
    let ghost t = trimmed(s@);
    if start < end {
        assert(t.drop_first() =~= chars@.subrange(start as int + 1, end as int));
    }
    if start < end && chars[start] == '-' {
        match read_digits(&chars, start + 1, end) {
            Some(m) => if m <= 0x8000_0000_0000_0000 {
                if m == 0x8000_0000_0000_0000 {
                    Some(i64::MIN)
                } else {
                    Some(0 - (m as i64))
                }
            } else {
                None
            },
            None => None,
        }
    } else {
        let magnitude = if start < end && chars[start] == '+' {
            read_digits(&chars, start + 1, end)
        } else {
            read_digits(&chars, start, end)
        };
        match magnitude {
            Some(m) => if m <= 0x7FFF_FFFF_FFFF_FFFF {
                Some(m as i64)
            } else {
                None
            },
            None => None,
        }
    }
}

fn digit_of(v: u128) -> (c: char)
    requires
        v < 10,
    ensures
        c == digit_char(v as int),
{
    if v == 0 {
        '0'
    } else if v == 1 {
        '1'
    } else if v == 2 {
        '2'
    } else if v == 3 {
        '3'
    } else if v == 4 {
        '4'
    } else if v == 5 {
        '5'
    } else if v == 6 {
        '6'
    } else if v == 7 {
        '7'
    } else if v == 8 {
        '8'
    } else {
        '9'
    }
}

/// Appends a number in decimal digits.
pub fn push_decimal(s: &mut String, n: u128)
    ensures
        final(s)@ == old(s)@ + decimal(n as nat),
    decreases n,
{
    if n >= 10 {
        push_decimal(s, n / 10);
    }
    s.push(digit_of(n % 10));
}

/// A number in decimal digits.
pub fn decimal_string(n: u128) -> (s: String)
    ensures
        s@ == decimal(n as nat),
{
    let mut s = String::new();
    push_decimal(&mut s, n);
    s
}

} // verus!
