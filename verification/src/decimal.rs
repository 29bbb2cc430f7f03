//! Decimal notation for unsigned 64-bit integers.

use vstd::prelude::*;

verus! {

/// Whether `c` is one of the ten ASCII digits.
pub open spec fn is_digit(c: char) -> bool {
    '0' <= c && c <= '9'
}

/// The number a digit stands for.
pub open spec fn digit_value(c: char) -> nat
    recommends
        is_digit(c),
{
    (c as u32 - '0' as u32) as nat
}

/// The digit that writes a number below ten.
pub open spec fn digit_char(d: nat) -> char
    recommends
        d < 10,
{
    if d == 0 {
        '0'
    } else if d == 1 {
        '1'
    } else if d == 2 {
        '2'
    } else if d == 3 {
        '3'
    } else if d == 4 {
        '4'
    } else if d == 5 {
        '5'
    } else if d == 6 {
        '6'
    } else if d == 7 {
        '7'
    } else if d == 8 {
        '8'
    } else {
        '9'
    }
}

/// Whether every character of `s` is a digit.
pub open spec fn all_digits(s: Seq<char>) -> bool {
    forall|i: int| 0 <= i < s.len() ==> is_digit(#[trigger] s[i])
}

/// The number that a run of digits writes in base ten, most significant digit first.
pub open spec fn digits_value(s: Seq<char>) -> nat
    decreases s.len(),
{
    if s.len() == 0 {
        0
    } else {
        digits_value(s.drop_last()) * 10 + digit_value(s.last())
    }
}

/// The digits of a numeral: the text itself, without one leading plus sign if it has one.
pub open spec fn numeral_digits(s: Seq<char>) -> Seq<char> {
    if s.len() > 0 && s[0] == '+' {
        s.drop_first()
    } else {
        s
    }
}

/// The value of a decimal numeral, if the text is one and the value fits in 64 bits.
///
/// A numeral is one or more digits, optionally preceded by a single plus sign.
pub open spec fn parse_u64_spec(s: Seq<char>) -> Option<u64> {
    let d = numeral_digits(s);
    if d.len() > 0 && all_digits(d) && digits_value(d) <= u64::MAX {
        Some(digits_value(d) as u64)
    } else {
        None
    }
}

/// The shortest decimal text of a number.
pub open spec fn decimal_text(n: nat) -> Seq<char>
    decreases n,
{
    if n < 10 {
        seq![digit_char(n)]
    } else {
        decimal_text(n / 10).push(digit_char(n % 10))
    }
}

/// A run of digits is worth at least as much as any of its prefixes.
pub proof fn lemma_digits_value_prefix(s: Seq<char>, k: int)
    requires
        0 <= k <= s.len(),
    ensures
        digits_value(s.take(k)) <= digits_value(s),
    decreases s.len(),
{
    if k == s.len() {
        assert(s.take(k) == s);
    } else {
        lemma_digits_value_prefix(s.drop_last(), k);
        assert(s.drop_last().take(k) == s.take(k));
    }
}

/// The decimal text of a number consists of digits and is worth that number.
pub proof fn lemma_decimal_text_value(n: nat)
    ensures
        decimal_text(n).len() > 0,
        all_digits(decimal_text(n)),
        digits_value(decimal_text(n)) == n,
        decimal_text(n)[0] != '+',
    decreases n,
{
    if n < 10 {
        let t = decimal_text(n);
        assert(t.drop_last() == Seq::<char>::empty());
        assert(digits_value(t.drop_last()) == 0);
        assert(digit_value(digit_char(n)) == n);
    } else {
        lemma_decimal_text_value(n / 10);
        let t = decimal_text(n);
        let p = decimal_text(n / 10);
        assert(t.drop_last() == p);
        assert(t.last() == digit_char(n % 10));
        assert(digit_value(digit_char(n % 10)) == n % 10);
        assert(t[0] == p[0]);
    }
}

/// Reading back the decimal text of a 64-bit number gives the number.
pub proof fn lemma_parse_decimal_text(v: u64)
    ensures
        parse_u64_spec(decimal_text(v as nat)) == Some(v),
{
    lemma_decimal_text_value(v as nat);
}

fn digit_of(c: char) -> (d: Option<u8>)
    ensures
        d is Some <==> is_digit(c),
        d is Some ==> d->Some_0 as nat == digit_value(c),
{
    if '0' <= c && c <= '9' {
        Some((c as u32 - '0' as u32) as u8)
    } else {
        None
    }
}

fn char_of_digit(d: u8) -> (c: char)
    requires
        d < 10,
    ensures
        c == digit_char(d as nat),
{
    if d == 0 {
        '0'
    } else if d == 1 {
        '1'
    } else if d == 2 {
        '2'
    } else if d == 3 {
        '3'
    } else if d == 4 {
        '4'
    } else if d == 5 {
        '5'
    } else if d == 6 {
        '6'
    } else if d == 7 {
        '7'
    } else if d == 8 {
        '8'
    } else {
        '9'
    }
}

/// Reads a decimal numeral.
pub fn parse_u64(s: &Vec<char>) -> (out: Option<u64>)
    ensures
        out == parse_u64_spec(s@),
{
    let start: usize = if s.len() > 0 && s[0] == '+' {
        1
    } else {
        0
    };
    let ghost d = numeral_digits(s@);
    assert(d == s@.subrange(start as int, s@.len() as int));
    if start == s.len() {
        return None;
    }
    let mut acc: u64 = 0;
    let mut i: usize = start;
    while i < s.len()
        invariant
            start <= i <= s@.len(),
            d == numeral_digits(s@),
            d == s@.subrange(start as int, s@.len() as int),
            all_digits(d.take(i - start)),
            acc as nat == digits_value(d.take(i - start)),
        decreases s@.len() - i,
    {
        let ghost prefix = d.take(i - start + 1);
        proof {
            assert(prefix.drop_last() == d.take(i - start));
            assert(prefix.last() == s@[i as int]);
        }
        match digit_of(s[i]) {
            None => {
                proof {
                    assert(!is_digit(d[i - start]));
                }
                return None;
            },
            Some(v) => {
                proof {
                    lemma_digits_value_prefix(d, i - start + 1);
                    assert(digits_value(prefix) == acc as nat * 10 + v as nat);
                    assert forall|j: int| 0 <= j < prefix.len() implies is_digit(
                        #[trigger] prefix[j],
                    ) by {
                        if j < i - start {
                            assert(prefix[j] == d.take(i - start)[j]);
                        }
                    }
                }
                if acc > (u64::MAX - v as u64) / 10 {
                    return None;
                }
                acc = acc * 10 + v as u64;
            },
        }
        i += 1;
    }
    proof {
        assert(d.take(i - start) == d);
    }
    Some(acc)
}

/// Writes a number in decimal.
pub fn u64_chars(v: u64) -> (out: Vec<char>)
    ensures
        out@ == decimal_text(v as nat),
{
    let mut rev: Vec<char> = Vec::new();
    let mut rest: u64 = v;
    // `tail` holds the digits produced so far, least significant first.
    let ghost mut tail: Seq<char> = Seq::empty();
    while rest >= 10
        invariant
            rev@ == tail,
            decimal_text(v as nat) == decimal_text(rest as nat) + tail.reverse(),
        decreases rest,
    {
        let c = char_of_digit((rest % 10) as u8);
        rev.push(c);
        proof {
            let t2 = tail.push(c);
            assert(t2.reverse() == seq![c] + tail.reverse());
            assert(decimal_text(rest as nat) == decimal_text((rest / 10) as nat).push(c));
            assert(decimal_text((rest / 10) as nat).push(c) + tail.reverse() == decimal_text(
                (rest / 10) as nat,
            ) + t2.reverse());
            tail = t2;
        }
        rest = rest / 10;
    }
    let c = char_of_digit(rest as u8);
    rev.push(c);
    proof {
        let t2 = tail.push(c);
        assert(t2.reverse() == seq![c] + tail.reverse());
        assert(decimal_text(rest as nat) == seq![c]);
        tail = t2;
        assert(decimal_text(v as nat) == tail.reverse());
    }
    let mut out: Vec<char> = Vec::new();
    let mut i: usize = rev.len();
    while i > 0
        invariant
            i <= rev@.len(),
            rev@ == tail,
            out@ == tail.reverse().take(rev@.len() - i),
        decreases i,
    {
        i -= 1;
        out.push(rev[i]);
        proof {
            let r = tail.reverse();
            assert(r.take(rev@.len() - i) == r.take(rev@.len() - i - 1).push(r[rev@.len() - i - 1]));
        }
    }
    proof {
        assert(tail.reverse().take(rev@.len() as int) == tail.reverse());
    }
    out
}

} // verus!
