//! Decimal integers in text: parsing as `str::parse::<i64>` does, and
//! formatting as `i64::to_string` does.
use vstd::prelude::*;

verus! {

/// An ASCII decimal digit.
pub open spec fn is_digit(c: char) -> bool {
    '0' <= c && c <= '9'
}

/// The value of a decimal digit.
pub open spec fn digit_val(c: char) -> int {
    c as int - '0' as int
}

/// Every character of `s` is a decimal digit.
pub open spec fn all_digits(s: Seq<char>) -> bool {
    forall|i: int| 0 <= i < s.len() ==> is_digit(#[trigger] s[i])
}

/// The value of a string of decimal digits.
pub open spec fn digits_value(s: Seq<char>) -> int
    decreases s.len(),
{
    if s.len() == 0 {
        0
    } else {
        digits_value(s.drop_last()) * 10 + digit_val(s.last())
    }
}

/// The integer that `s` denotes: an optional sign `+` or `-`, then one or more
/// decimal digits, and nothing else.
pub open spec fn parse_int(s: Seq<char>) -> Option<int> {
    if s.len() == 0 {
        None
    } else if s[0] == '+' || s[0] == '-' {
        let r = s.drop_first();
        if r.len() > 0 && all_digits(r) {
            Some(if s[0] == '-' { -digits_value(r) } else { digits_value(r) })
        } else {
            None
        }
    } else if all_digits(s) {
        Some(digits_value(s))
    } else {
        None
    }
}

/// What `str::parse::<i64>` gives: the integer that `s` denotes, if it fits.
pub open spec fn parse_i64(s: Seq<char>) -> Option<i64> {
    match parse_int(s) {
        Some(x) => if i64::MIN <= x <= i64::MAX { Some(x as i64) } else { None },
        None => None,
    }
}

/// What `str::parse::<i32>` gives: the integer that `s` denotes, if it fits.
pub open spec fn parse_i32(s: Seq<char>) -> Option<i32> {
    match parse_int(s) {
        Some(x) => if i32::MIN <= x <= i32::MAX { Some(x as i32) } else { None },
        None => None,
    }
}

/// The character of a decimal digit.
pub open spec fn digit_char(d: int) -> char {
    ('0' as int + d) as char
}

/// The decimal digits of `n`, without leading zeros.
pub open spec fn dec_digits(n: nat) -> Seq<char>
    decreases n,
{
    if n < 10 {
        seq![digit_char(n as int)]
    } else {
        dec_digits(n / 10).push(digit_char((n % 10) as int))
    }
}

/// The decimal text of `x`, as `to_string` writes an integer.
pub open spec fn fmt_int(x: int) -> Seq<char> {
    if x < 0 {
        seq!['-'] + dec_digits((-x) as nat)
    } else {
        dec_digits(x as nat)
    }
}

proof fn lemma_digits_value_nonneg(s: Seq<char>)
    requires
        all_digits(s),
    ensures
        digits_value(s) >= 0,
    decreases s.len(),
{
    if s.len() > 0 {
        lemma_digits_value_nonneg(s.drop_last());
    }
}

proof fn lemma_digit_char(k: int)
    requires
        0 <= k < 10,
    ensures
        is_digit(digit_char(k)),
        digit_val(digit_char(k)) == k,
{
}

proof fn lemma_dec_digits(n: nat)
    ensures
        dec_digits(n).len() >= 1,
        all_digits(dec_digits(n)),
        is_digit(dec_digits(n)[0]),
        digits_value(dec_digits(n)) == n,
    decreases n,
{
    if n < 10 {
        lemma_digit_char(n as int);
        assert(dec_digits(n).drop_last() == Seq::<char>::empty());
        assert(digits_value(Seq::<char>::empty()) == 0);
        assert(digits_value(dec_digits(n)) == n);
    } else {
        lemma_digit_char((n % 10) as int);
        lemma_dec_digits(n / 10);
        let d = dec_digits(n / 10);
        assert(dec_digits(n).drop_last() == d);
        assert(dec_digits(n)[0] == d[0]);
        assert(n == (n / 10) * 10 + n % 10);
        assert(digits_value(dec_digits(n)) == digits_value(d) * 10 + (n % 10));
        assert(digits_value(dec_digits(n)) == n);
        assert(all_digits(dec_digits(n)));
    }
}

/// Parsing the decimal text of an integer gives the integer back.
pub proof fn lemma_parse_fmt(x: int)
    ensures
        parse_int(fmt_int(x)) == Some(x),
{
    if x < 0 {
        lemma_dec_digits((-x) as nat);
        let s = fmt_int(x);
        assert(s.drop_first() == dec_digits((-x) as nat));
    } else {
        lemma_dec_digits(x as nat);
    }
}

/// Parsing the text that `format_i64` writes gives the number back.
pub proof fn law_parse_format_i64(x: i64)
    ensures
        parse_i64(fmt_int(x as int)) == Some(x),
{
    lemma_parse_fmt(x as int);
}

/// Whether `c` is a decimal digit.
pub fn is_digit_exec(c: char) -> (b: bool)
    ensures
        b == is_digit(c),
{
    '0' <= c && c <= '9'
}

/// The integer that `s` denotes, if it fits an `i64` (`str::parse::<i64>`).
pub fn parse_i64_chars(s: &[char]) -> (r: Option<i64>)
    ensures
        r == parse_i64(s@),
{
    let n = s.len();
    if n == 0 {
        return None;
    }
    let neg = s[0] == '-';
    let start: usize = if s[0] == '+' || s[0] == '-' { 1 } else { 0 };
    if start == 1 && n == 1 {
        return None;
    }
    let ghost body = s@.skip(start as int);
    assert(start == 1 ==> body == s@.drop_first());
    assert(start == 0 ==> body == s@);
    let limit: i128 = 0x8000_0000_0000_0000;
    let mut acc: i128 = 0;
    let mut over = false;
    let mut i = start;
    while i < n
        invariant
            start <= i <= n,
            n == s@.len(),
            n > 0,
            start <= 1,
            (start == 1) == (s@[0] == '+' || s@[0] == '-'),
            neg == (s@[0] == '-'),
            body == s@.skip(start as int),
            all_digits(s@.subrange(start as int, i as int)),
            !over ==> acc == digits_value(s@.subrange(start as int, i as int)),
            !over ==> 0 <= acc <= limit,
            over ==> digits_value(s@.subrange(start as int, i as int)) > limit,
            limit == 0x8000_0000_0000_0000,
        decreases n - i,
    {
        let c = s[i];
        if !is_digit_exec(c) {
            assert(body[i - start] == c);
            assert(!all_digits(body));
            if start == 1 {
                assert(s@[0] == '+' || s@[0] == '-');
                assert(parse_int(s@) is None);
            } else {
                assert(!(s@[0] == '+' || s@[0] == '-'));
                assert(!all_digits(s@));
                assert(parse_int(s@) is None);
            }
            return None;
        }
        let ghost prev = s@.subrange(start as int, i as int);
        let ghost next = s@.subrange(start as int, i + 1);
        assert(next.drop_last() == prev);
        assert(next.last() == c);
        proof {
            lemma_digits_value_nonneg(prev);
        }
        if !over {
            let d = (c as u32 - '0' as u32) as i128;
            let v = acc * 10 + d;
            if v > limit {
                over = true;
            } else {
                acc = v;
            }
        }
        i = i + 1;
    }
    assert(s@.subrange(start as int, n as int) == body);
    if over {
        return None;
    }
    if neg {
        Some((-acc) as i64)
    } else if acc <= 0x7fff_ffff_ffff_ffff {
        Some(acc as i64)
    } else {
        None
    }
}

/// The integer that `s` denotes, if it fits an `i32` (`str::parse::<i32>`).
pub fn parse_i32_chars(s: &[char]) -> (r: Option<i32>)
    ensures
        r == parse_i32(s@),
{
    match parse_i64_chars(s) {
        Some(v) => {
            if -0x8000_0000 <= v && v <= 0x7fff_ffff {
                Some(v as i32)
            } else {
                None
            }
        },
        None => None,
    }
}

/// The digit character of `d`.
fn digit_to_char(d: u64) -> (c: char)
    requires
        d < 10,
    ensures
        c == digit_char(d as int),
{
    match d {
        0 => '0',
        1 => '1',
        2 => '2',
        3 => '3',
        4 => '4',
        5 => '5',
        6 => '6',
        7 => '7',
        8 => '8',
        _ => '9',
    }
}

/// The decimal digits of `mag`, after a minus sign when `neg`.
fn format_mag_chars(neg: bool, mag: u64) -> (res: Vec<char>)
    ensures
        res@ == (if neg { seq!['-'] + dec_digits(mag as nat) } else { dec_digits(mag as nat) }),
{
    let mut m = mag;
    let mut acc: Vec<char> = Vec::new();
    loop
        invariant_except_break
            dec_digits(mag as nat) == dec_digits(m as nat) + acc@,
        ensures
            dec_digits(mag as nat) == acc@,
        decreases m,
    {
        let c = digit_to_char(m % 10);
        let ghost old_acc = acc@;
        acc.insert(0, c);
        assert(acc@ == seq![c] + old_acc);
        if m < 10 {
            assert(dec_digits(mag as nat) == acc@);
            break;
        }
        assert(dec_digits(m as nat) == dec_digits((m / 10) as nat).push(c));
        assert(dec_digits(mag as nat) == dec_digits((m / 10) as nat) + acc@);
        m = m / 10;
    }
    if neg {
        acc.insert(0, '-');
    }
    acc
}

/// The decimal digits of `x` as characters (`i64::to_string`).
pub fn format_i64_chars(x: i64) -> (res: Vec<char>)
    ensures
        res@ == fmt_int(x as int),
{
    let mag: u64 = if x < 0 { (-(x as i128)) as u64 } else { x as u64 };
    format_mag_chars(x < 0, mag)
}

/// The decimal text of `x` (`usize::to_string`).
pub fn format_usize(x: usize) -> (res: String)
    ensures
        res@ == fmt_int(x as int),
{
    let v = format_mag_chars(false, x as u64);
    crate::text::string_of(v.as_slice())
}

/// The decimal text of `x` (`i64::to_string`).
pub fn format_i64(x: i64) -> (res: String)
    ensures
        res@ == fmt_int(x as int),
{
    let v = format_i64_chars(x);
    crate::text::string_of(v.as_slice())
}

} // verus!
