//! Decimal text of 64-bit integers: the rendering that `{:?}` gives an `i64`
//! and the parsing that `str::parse::<i64>` does.

use vstd::prelude::*;

verus! {

/// The character of a decimal digit `d` (0 to 9).
pub open spec fn digit_char(d: int) -> char {
    (48 + d) as char
}

/// Whether `c` is one of `'0'` to `'9'`.
pub open spec fn is_digit(c: char) -> bool {
    '0' <= c && c <= '9'
}

/// The value of a digit character.
pub open spec fn digit_value(c: char) -> int {
    c as int - 48
}

/// Decimal digits of a natural number, most significant first, no leading zero.
pub open spec fn nat_decimal(n: nat) -> Seq<char>
    decreases n,
{
    if n < 10 {
        seq![digit_char(n as int)]
    } else {
        nat_decimal(n / 10) + seq![digit_char((n % 10) as int)]
    }
}

/// Decimal text of an integer: a `-` before the digits of a negative number.
pub open spec fn int_decimal(n: int) -> Seq<char> {
    if n < 0 {
        seq!['-'] + nat_decimal((-n) as nat)
    } else {
        nat_decimal(n as nat)
    }
}

/// Whether every character of `s` is a decimal digit.
pub open spec fn all_digits(s: Seq<char>) -> bool {
    forall|i: int| 0 <= i < s.len() ==> is_digit(#[trigger] s[i])
}

/// The number that a run of digits denotes.
pub open spec fn digits_value(s: Seq<char>) -> int
    decreases s.len(),
{
    if s.len() == 0 {
        0
    } else {
        digits_value(s.drop_last()) * 10 + digit_value(s.last())
    }
}

/// What `str::parse::<i64>` gives for the text `s`: an optional `+` or `-`,
/// then one or more digits, whose value must fit in an `i64`.
pub open spec fn parse_i64_spec(s: Seq<char>) -> Option<int> {
    let negative = s.len() > 0 && s[0] == '-';
    let signed = s.len() > 0 && (s[0] == '-' || s[0] == '+');
    let body = if signed { s.skip(1) } else { s };
    let value = if negative { -digits_value(body) } else { digits_value(body) };
    if body.len() == 0 || !all_digits(body) {
        None
    } else if i64::MIN <= value && value <= i64::MAX {
        Some(value)
    } else {
        None
    }
}

fn digit_str(d: u64) -> (r: &'static str)
    requires
        d < 10,
    ensures
        r@ == seq![digit_char(d as int)],
{
    proof {
        reveal_strlit("0");
        reveal_strlit("1");
        reveal_strlit("2");
        reveal_strlit("3");
        reveal_strlit("4");
        reveal_strlit("5");
        reveal_strlit("6");
        reveal_strlit("7");
        reveal_strlit("8");
        reveal_strlit("9");
    }
    let r = match d {
        0 => "0",
        1 => "1",
        2 => "2",
        3 => "3",
        4 => "4",
        5 => "5",
        6 => "6",
        7 => "7",
        8 => "8",
        _ => "9",
    };
    assert(r@ =~= seq![digit_char(d as int)]);
    r
}

fn push_nat_decimal(n: u64, out: &mut String)
    ensures
        final(out)@ == old(out)@ + nat_decimal(n as nat),
    decreases n,
{
    if n >= 10 {
        push_nat_decimal(n / 10, out);
    }
    out.append(digit_str(n % 10));
    proof {
        assert(final(out)@ =~= old(out)@ + nat_decimal(n as nat));
    }
}

/// Appends the decimal text of `n` to `out`.
pub fn push_decimal(n: i64, out: &mut String)
    ensures
        final(out)@ == old(out)@ + int_decimal(n as int),
{
    if n < 0 {
        proof {
            reveal_strlit("-");
        }
        out.append("-");
        let magnitude: u64 = if n == i64::MIN {
            9223372036854775808u64
        } else {
            (-n) as u64
        };
        push_nat_decimal(magnitude, out);
        assert(final(out)@ =~= old(out)@ + int_decimal(n as int));
    } else {
        push_nat_decimal(n as u64, out);
    }
}

/// The decimal text of `n`, as `format!("{:?}", n)` writes it.
pub fn i64_to_decimal(n: i64) -> (r: String)
    ensures
        r@ == int_decimal(n as int),
{
    let mut s = String::new();
    push_decimal(n, &mut s);
    assert(s@ =~= int_decimal(n as int));
    s
}


proof fn lemma_digit_char(d: int)
    requires
        0 <= d < 10,
    ensures
        is_digit(digit_char(d)),
        digit_value(digit_char(d)) == d,
{
}

/// The digits of `n` are digits, at least one, and denote `n`.
pub proof fn lemma_nat_decimal(n: nat)
    ensures
        nat_decimal(n).len() >= 1,
        all_digits(nat_decimal(n)),
        digits_value(nat_decimal(n)) == n,
    decreases n,
{
    if n < 10 {
        lemma_digit_char(n as int);
        let s = nat_decimal(n);
        assert(s.drop_last() =~= Seq::<char>::empty());
        assert(digits_value(s.drop_last()) == 0);
    } else {
        lemma_nat_decimal(n / 10);
        lemma_digit_char((n % 10) as int);
        let s = nat_decimal(n);
        assert(s.drop_last() =~= nat_decimal(n / 10));
        assert forall|i: int| 0 <= i < s.len() implies is_digit(#[trigger] s[i]) by {
            if i < s.len() - 1 {
                assert(s[i] == nat_decimal(n / 10)[i]);
            }
        }
    }
}

/// A longer run of digits denotes at least as much as its prefixes.
pub proof fn lemma_digits_value_prefix(s: Seq<char>, k: int)
    requires
        all_digits(s),
        0 <= k <= s.len(),
    ensures
        0 <= digits_value(s.take(k)) <= digits_value(s),
    decreases s.len(),
{
    if s.len() == 0 {
        assert(s.take(k) =~= s);
    } else if k == s.len() {
        assert(s.take(k) =~= s);
        lemma_digits_value_prefix(s.drop_last(), k - 1);
        assert(is_digit(s[s.len() - 1]));
    } else {
        lemma_digits_value_prefix(s.drop_last(), k);
        assert(s.drop_last().take(k) =~= s.take(k));
        lemma_digits_value_prefix(s.drop_last(), s.len() - 1);
        assert(s.drop_last().take(s.len() - 1) =~= s.drop_last());
        assert(is_digit(s[s.len() - 1]));
    }
}

/// Parsing the decimal text of an `i64` gives the number back.
pub proof fn lemma_parse_int_decimal(n: i64)
    ensures
        parse_i64_spec(int_decimal(n as int)) == Some(n as int),
{
    if n < 0 {
        let m = (-n) as nat;
        lemma_nat_decimal(m);
        let s = int_decimal(n as int);
        assert(s.skip(1) =~= nat_decimal(m));
    } else {
        lemma_nat_decimal(n as nat);
        let s = nat_decimal(n as nat);
        assert(is_digit(s[0]));
    }
}

/// Whether `s` is decimal text in the plain form that `{}` writes: no `+`,
/// no `-0`, and no leading zero.
pub open spec fn plain_decimal(s: Seq<char>) -> bool {
    let digits = if s.len() > 0 && s[0] == '-' { s.skip(1) } else { s };
    &&& s.len() > 0
    &&& s[0] != '+'
    &&& digits.len() >= 1
    &&& (digits.len() == 1 || digits[0] != '0')
    &&& (s.len() > 0 && s[0] == '-' ==> digits != seq!['0'])
}

/// The digits of a positive number do not start with `0`.
proof fn lemma_nat_decimal_leading(n: nat)
    requires
        n >= 1,
    ensures
        nat_decimal(n)[0] != '0',
    decreases n,
{
    if n >= 10 {
        lemma_nat_decimal_leading(n / 10);
        lemma_nat_decimal(n / 10);
        assert(nat_decimal(n)[0] == nat_decimal(n / 10)[0]);
    } else {
        lemma_digit_char(n as int);
    }
}

/// The decimal text of every `i64` parses back to it and is in plain form.
pub proof fn lemma_int_decimal_plain(n: i64)
    ensures
        parse_i64_spec(int_decimal(n as int)) == Some(n as int),
        plain_decimal(int_decimal(n as int)),
{
    lemma_parse_int_decimal(n);
    if n < 0 {
        let m = (-n) as nat;
        lemma_nat_decimal(m);
        lemma_nat_decimal_leading(m);
        let s = int_decimal(n as int);
        assert(s.skip(1) =~= nat_decimal(m));
        if nat_decimal(m) =~= seq!['0'] {
            assert(nat_decimal(m)[0] == '0');
        }
    } else {
        lemma_nat_decimal(n as nat);
        if n >= 1 {
            lemma_nat_decimal_leading(n as nat);
        } else {
            assert(nat_decimal(0).len() == 1);
        }
        let s = nat_decimal(n as nat);
        lemma_digit_char(0);
        assert(is_digit(s[0]));
    }
}

/// `str::parse::<i64>`: the number that `s` spells, if it spells one.
pub fn parse_i64(s: &str) -> (r: Option<i64>)
    ensures
        r is Some <==> parse_i64_spec(s@) is Some,
        r is Some ==> r->0 as int == parse_i64_spec(s@)->0,
{
    let len = s.unicode_len();
    if len == 0 {
        return None;
    }
    let first = s.get_char(0);
    let negative = first == '-';
    let start: usize = if first == '-' || first == '+' {
        1
    } else {
        0
    };
    let ghost body = if start == 1 {
        s@.skip(1)
    } else {
        s@
    };
    assert(body =~= s@.subrange(start as int, len as int));
    if start == len {
        return None;
    }
    let mut acc: u64 = 0;
    let mut i: usize = start;
    while i < len
        invariant
            start <= i <= len,
            len == s@.len(),
            body == s@.subrange(start as int, len as int),
            len > 0,
            start == (if s@[0] == '-' || s@[0] == '+' { 1usize } else { 0usize }),
            body == (if start == 1 { s@.skip(1) } else { s@ }),
            acc as int == digits_value(s@.subrange(start as int, i as int)),
            all_digits(s@.subrange(start as int, i as int)),
            acc <= 9223372036854775808u64,
        decreases len - i,
    {
        let c = s.get_char(i);
        let ghost prev = s@.subrange(start as int, i as int);
        let ghost next = s@.subrange(start as int, i + 1);
        assert(next.drop_last() =~= prev);
        assert(next.last() == c);
        if !('0' <= c && c <= '9') {
            proof {
                assert(body[i - start] == c);
                assert(!is_digit(body[i - start]));
            }
            return None;
        }
        let d: u64 = (c as u32 - 48) as u64;
        assert(all_digits(next)) by {
            assert forall|j: int| 0 <= j < next.len() implies is_digit(#[trigger] next[j]) by {
                if j < next.len() - 1 {
                    assert(next[j] == prev[j]);
                }
            }
        }
        if acc > (9223372036854775808u64 - d) / 10 {
            proof {
                assert(acc * 10 + d > 9223372036854775808) by (nonlinear_arith)
                    requires
                        acc > (9223372036854775808u64 - d) / 10,
                        d < 10,
                ;
                assert(digits_value(next) == acc * 10 + d);
                if all_digits(body) {
                    lemma_digits_value_prefix(body, i + 1 - start);
                    assert(body.take(i + 1 - start) =~= next);
                }
            }
            return None;
        }
        acc = acc * 10 + d;
        i = i + 1;
    }
    assert(s@.subrange(start as int, i as int) =~= body);
    if negative {
        if acc == 9223372036854775808u64 {
            Some(i64::MIN)
        } else {
            Some(-(acc as i64))
        }
    } else if acc > 9223372036854775807u64 {
        None
    } else {
        Some(acc as i64)
    }
}

} // verus!
