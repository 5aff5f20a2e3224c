use vstd::prelude::*;

use crate::text::string_of;

verus! {

/// An ASCII decimal digit.
pub open spec fn is_digit(c: char) -> bool {
    '0' <= c <= '9'
}

/// The value of an ASCII decimal digit.
pub open spec fn digit_value(c: char) -> int {
    c as int - '0' as int
}

/// Every character is an ASCII decimal digit.
pub open spec fn all_digits(s: Seq<char>) -> bool {
    forall|i: int| 0 <= i < s.len() ==> is_digit(#[trigger] s[i])
}

/// The value of a run of decimal digits, most significant first.
pub open spec fn digits_value(s: Seq<char>) -> int
    decreases s.len(),
{
    if s.len() == 0 {
        0
    } else {
        digits_value(s.drop_last()) * 10 + digit_value(s.last())
    }
}

/// What `i64::from_str` yields for `s`: an optional `+` or `-` sign followed
/// by one or more ASCII digits whose value fits in an `i64`.
pub open spec fn i64_from_decimal(s: Seq<char>) -> Option<i64> {
    if s.len() > 0 && s[0] == '-' {
        let d = s.drop_first();
        if d.len() > 0 && all_digits(d) && digits_value(d) <= 0x8000_0000_0000_0000 {
            Some((-digits_value(d)) as i64)
        } else {
            None
        }
    } else {
        let d = if s.len() > 0 && s[0] == '+' {
            s.drop_first()
        } else {
            s
        };
        if d.len() > 0 && all_digits(d) && digits_value(d) <= 0x7fff_ffff_ffff_ffff {
            Some(digits_value(d) as i64)
        } else {
            None
        }
    }
}

/// What `u64::from_str` yields for `s`: an optional `+` sign followed by one
/// or more ASCII digits whose value fits in a `u64`.
pub open spec fn u64_from_decimal(s: Seq<char>) -> Option<u64> {
    let d = if s.len() > 0 && s[0] == '+' {
        s.drop_first()
    } else {
        s
    };
    if d.len() > 0 && all_digits(d) && digits_value(d) <= 0xffff_ffff_ffff_ffff {
        Some(digits_value(d) as u64)
    } else {
        None
    }
}

/// The digit character for `d < 10`.
pub open spec fn digit_char(d: nat) -> char {
    ('0' as nat + d) as char
}

/// The shortest decimal representation of `n`.
pub open spec fn decimal_of(n: nat) -> Seq<char>
    decreases n,
{
    if n < 10 {
        seq![digit_char(n)]
    } else {
        decimal_of(n / 10).push(digit_char(n % 10))
    }
}

/// The decimal representation of an `i64`, with a leading `-` when negative,
/// as `i64`'s `Display` writes it.
pub open spec fn i64_decimal(v: i64) -> Seq<char> {
    if v < 0 {
        seq!['-'] + decimal_of((-v) as nat)
    } else {
        decimal_of(v as nat)
    }
}

proof fn lemma_digits_value_nonneg(s: Seq<char>)
    requires
        all_digits(s),
    ensures
        digits_value(s) >= 0,
    decreases s.len(),
{
    if s.len() > 0 {
        lemma_digits_value_nonneg(s.drop_last());
    }
}

/// Appending digits never lowers the value.
proof fn lemma_digits_value_grows(s: Seq<char>, k: int)
    requires
        all_digits(s),
        0 <= k <= s.len(),
    ensures
        digits_value(s.take(k)) <= digits_value(s),
    decreases s.len() - k,
{
    if k < s.len() {
        let t = s.take(k + 1);
        assert(t.drop_last() =~= s.take(k));
        lemma_digits_value_nonneg(s.take(k));
        lemma_digits_value_grows(s, k + 1);
    } else {
        assert(s.take(k) =~= s);
    }
}

/// The representation of `n` is all digits, reads back as `n`, and does not
/// start with a sign.
pub proof fn lemma_decimal_of(n: nat)
    ensures
        decimal_of(n).len() > 0,
        all_digits(decimal_of(n)),
        digits_value(decimal_of(n)) == n,
        is_digit(decimal_of(n)[0]),
    decreases n,
{
    lemma_digit_char(n % 10);
    if n >= 10 {
        lemma_decimal_of(n / 10);
        let s = decimal_of(n);
        assert(s.drop_last() =~= decimal_of(n / 10));
        assert(s[0] == decimal_of(n / 10)[0]);
        assert(s.last() == digit_char(n % 10));
        assert(n == (n / 10) * 10 + n % 10);
        assert(digits_value(s) == digits_value(decimal_of(n / 10)) * 10 + digit_value(
            digit_char(n % 10),
        ));
    } else {
        lemma_digit_char(n);
        let s = decimal_of(n);
        assert(s.drop_last() =~= Seq::<char>::empty());
        assert(digits_value(Seq::<char>::empty()) == 0);
        assert(digits_value(s) == digits_value(s.drop_last()) * 10 + digit_value(s.last()));
    }
}

/// A digit character reads back as its digit.
proof fn lemma_digit_char(d: nat)
    requires
        d < 10,
    ensures
        is_digit(digit_char(d)),
        digit_value(digit_char(d)) == d,
{
}

/// Reading back what formatting wrote gives the same number.
pub proof fn lemma_i64_decimal_round_trip(v: i64)
    ensures
        i64_from_decimal(i64_decimal(v)) == Some(v),
{
    if v < 0 {
        let n = (-v) as nat;
        lemma_decimal_of(n);
        let s = i64_decimal(v);
        assert(s.drop_first() =~= decimal_of(n));
    } else {
        lemma_decimal_of(v as nat);
    }
}

/// Parses `value` as `i64::from_str` does.
pub fn parse_i64(value: &str) -> (r: Option<i64>)
    ensures
        r == i64_from_decimal(value@),
{
    let chars = crate::text::chars_of(value);
    let n = chars.len();
    let mut start: usize = 0;
    let mut negative = false;
    if n > 0 && chars[0] == '-' {
        negative = true;
        start = 1;
    } else if n > 0 && chars[0] == '+' {
        start = 1;
    }
    let ghost d = chars@.subrange(start as int, n as int);
    assert(negative ==> d =~= value@.drop_first());
    assert(!negative && start == 1 ==> d =~= value@.drop_first());
    assert(start == 0 ==> d =~= value@);
    if start == n {
        return None;
    }
    let limit: u128 = if negative {
        0x8000_0000_0000_0000
    } else {
        0x7fff_ffff_ffff_ffff
    };
    let mut acc: u128 = 0;
    let mut i = start;
    while i < n
        invariant
            start <= i <= n,
            n == chars@.len(),
            d == chars@.subrange(start as int, n as int),
            all_digits(d.take(i - start)),
            acc == digits_value(d.take(i - start)),
            acc <= limit,
            limit <= 0x8000_0000_0000_0000,
            chars@ == value@,
            negative ==> value@.len() > 0 && value@[0] == '-' && d == value@.drop_first() && limit
                == 0x8000_0000_0000_0000,
            !negative ==> !(value@.len() > 0 && value@[0] == '-') && limit
                == 0x7fff_ffff_ffff_ffff && d == (if value@.len() > 0 && value@[0] == '+' {
                value@.drop_first()
            } else {
                value@
            }),
        decreases n - i,
    {
        let c = chars[i];
        let ghost k = i - start;
        assert(d[k] == c);
        if !('0' <= c && c <= '9') {
            assert(!all_digits(d));
            return None;
        }
        let digit = (c as u32 - '0' as u32) as u128;
        let next = acc * 10 + digit;
        assert(d.take(k + 1).drop_last() =~= d.take(k));
        assert(d.take(k + 1).last() == c);
        assert(all_digits(d.take(k + 1)));
        if next > limit {
            proof {
                if all_digits(d) {
                    lemma_digits_value_grows(d, k + 1);
                }
            }
            return None;
        }
        acc = next;
        i = i + 1;
    }
    assert(d.take(n - start) =~= d);
    if negative {
        if acc == 0x8000_0000_0000_0000 {
            Some(i64::MIN)
        } else {
            Some(-(acc as i64))
        }
    } else {
        Some(acc as i64)
    }
}

/// Parses `value` as `u64::from_str` does.
pub fn parse_u64(value: &str) -> (r: Option<u64>)
    ensures
        r == u64_from_decimal(value@),
{
    let chars = crate::text::chars_of(value);
    let n = chars.len();
    let mut start: usize = 0;
    if n > 0 && chars[0] == '+' {
        start = 1;
    }
    let ghost d = chars@.subrange(start as int, n as int);
    assert(start == 1 ==> d =~= value@.drop_first());
    assert(start == 0 ==> d =~= value@);
    if start == n {
        return None;
    }
    let limit: u128 = 0xffff_ffff_ffff_ffff;
    let mut acc: u128 = 0;
    let mut i = start;
    while i < n
        invariant
            start <= i <= n,
            n == chars@.len(),
            d == chars@.subrange(start as int, n as int),
            all_digits(d.take(i - start)),
            acc == digits_value(d.take(i - start)),
            acc <= limit,
            limit == 0xffff_ffff_ffff_ffff,
            chars@ == value@,
            d == (if value@.len() > 0 && value@[0] == '+' {
                value@.drop_first()
            } else {
                value@
            }),
        decreases n - i,
    {
        let c = chars[i];
        let ghost k = i - start;
        assert(d[k] == c);
        if !('0' <= c && c <= '9') {
            assert(!all_digits(d));
            return None;
        }
        let digit = (c as u32 - '0' as u32) as u128;
        let next = acc * 10 + digit;
        assert(d.take(k + 1).drop_last() =~= d.take(k));
        assert(d.take(k + 1).last() == c);
        assert(all_digits(d.take(k + 1)));
        if next > limit {
            proof {
                if all_digits(d) {
                    lemma_digits_value_grows(d, k + 1);
                }
            }
            return None;
        }
        acc = next;
        i = i + 1;
    }
    assert(d.take(n - start) =~= d);
    Some(acc as u64)
}

/// The decimal digits of `n`, most significant first.
pub fn format_u64(n: u64) -> (r: String)
    ensures
        r@ == decimal_of(n as nat),
{
    let mut digits: Vec<char> = Vec::new();
    let mut m = n;
    let ghost mut rest: Seq<char> = Seq::empty();
    while m >= 10
        invariant
            decimal_of(n as nat) == decimal_of(m as nat) + rest,
            digits@ == rest.reverse(),
        decreases m,
    {
        let d = m % 10;
        let c = ((d as u32) + ('0' as u32)) as u8 as char;
        assert(c == digit_char(d as nat));
        proof {
            assert(decimal_of(m as nat) == decimal_of((m / 10) as nat).push(c));
            assert(decimal_of(n as nat) =~= decimal_of((m / 10) as nat) + (seq![c] + rest));
            rest = seq![c] + rest;
        }
        digits.push(c);
        assert(digits@ =~= rest.reverse());
        m = m / 10;
    }
    let c = ((m as u32) + ('0' as u32)) as u8 as char;
    assert(c == digit_char(m as nat));
    proof {
        assert(decimal_of(n as nat) =~= seq![c] + rest);
        rest = seq![c] + rest;
    }
    digits.push(c);
    assert(digits@ =~= rest.reverse());
    let mut ordered: Vec<char> = Vec::new();
    let mut i = digits.len();
    while i > 0
        invariant
            i <= digits@.len(),
            digits@ == rest.reverse(),
            ordered@ == rest.take(digits@.len() - i),
        decreases i,
    {
        i = i - 1;
        ordered.push(digits[i]);
        assert(ordered@ =~= rest.take(digits@.len() - i));
    }
    assert(rest.take(rest.len() as int) =~= rest);
    string_of(&ordered)
}

/// The decimal representation of `v`, as `i64`'s `Display` writes it.
pub fn format_i64(v: i64) -> (r: String)
    ensures
        r@ == i64_decimal(v),
{
    if v < 0 {
        let magnitude: u64 = if v == i64::MIN {
            0x8000_0000_0000_0000
        } else {
            (-v) as u64
        };
        let digits = format_u64(magnitude);
        let mut r = String::new();
        crate::text::push_char(&mut r, '-');
        let chars = crate::text::chars_of(digits.as_str());
        let mut i: usize = 0;
        while i < chars.len()
            invariant
                i <= chars@.len(),
                chars@ == decimal_of(magnitude as nat),
                r@ == seq!['-'] + chars@.take(i as int),
            decreases chars.len() - i,
        {
            crate::text::push_char(&mut r, chars[i]);
            assert(r@ =~= seq!['-'] + chars@.take(i + 1));
            i = i + 1;
        }
        assert(chars@.take(chars@.len() as int) =~= chars@);
        r
    } else {
        format_u64(v as u64)
    }
}

} // verus!
