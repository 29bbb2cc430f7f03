//! Character-level helpers: conversions between strings and character vectors.

use vstd::prelude::*;
use vstd::std_specs::iter::IteratorSpec;

verus! {

/// Returns the characters of `s` in order.
pub fn to_chars(s: &str) -> (out: Vec<char>)
    ensures
        out@ == s@,
{
    broadcast use vstd::string::axiom_spec_iter, vstd::string::next_postcondition;

    let mut out: Vec<char> = Vec::new();
    let mut it = s.chars();
    loop
        invariant
            out@ + it.remaining() == s@,
            it.decrease() is Some,
        ensures
            out@ == s@,
        decreases it.decrease()->0,
    {
        match it.next() {
            Some(c) => {
                out.push(c);
            },
            None => {
                break ;
            },
        }
    }
    out
}

/// Collects characters into a `String` with `String::from_iter`; the string holds exactly
/// the given characters, in order.
#[verifier::external_body]
pub(crate) fn string_of(chars: &Vec<char>) -> (out: String)
    ensures
        out@ == chars@,
{
    String::from_iter(chars.iter())
}

/// Tells whether `chars` spells exactly the text `lit`.
pub fn eq_lit(chars: &Vec<char>, lit: &str) -> (same: bool)
    ensures
        same == (chars@ == lit@),
{
    broadcast use vstd::string::axiom_spec_iter, vstd::string::next_postcondition;

    let mut it = lit.chars();
    let mut i: usize = 0;
    let ghost mut seen: Seq<char> = Seq::empty();
    loop
        invariant
            seen + it.remaining() == lit@,
            it.decrease() is Some,
            i <= chars@.len(),
            seen == chars@.take(i as int),
        decreases it.decrease()->0,
    {
        match it.next() {
            Some(c) => {
                if i >= chars.len() || chars[i] != c {
                    proof {
                        assert(lit@[i as int] == c);
                        assert(lit@.len() > i);
                    }
                    return false;
                }
                proof {
                    seen = seen.push(c);
                    assert(seen == chars@.take(i + 1));
                }
                i += 1;
            },
            None => {
                proof {
                    assert(seen == lit@);
                    if i == chars@.len() {
                        assert(chars@.take(i as int) == chars@);
                    }
                }
                return i == chars.len();
            },
        }
    }
}

/// Appends the characters of `lit` to `buf`.
pub fn push_lit(buf: &mut Vec<char>, lit: &str)
    ensures
        final(buf)@ == old(buf)@ + lit@,
{
    broadcast use vstd::string::axiom_spec_iter, vstd::string::next_postcondition;

    let mut it = lit.chars();
    let ghost mut seen: Seq<char> = Seq::empty();
    loop
        invariant
            seen + it.remaining() == lit@,
            it.decrease() is Some,
            buf@ == old(buf)@ + seen,
        ensures
            buf@ == old(buf)@ + lit@,
        decreases it.decrease()->0,
    {
        match it.next() {
            Some(c) => {
                buf.push(c);
                proof {
                    seen = seen.push(c);
                }
            },
            None => {
                break ;
            },
        }
    }
}

/// Appends the characters of `more` to `buf`.
pub fn push_all(buf: &mut Vec<char>, more: &Vec<char>)
    ensures
        final(buf)@ == old(buf)@ + more@,
{
    let mut i: usize = 0;
    while i < more.len()
        invariant
            i <= more@.len(),
            buf@ == old(buf)@ + more@.take(i as int),
        decreases more@.len() - i,
    {
        buf.push(more[i]);
        i += 1;
        proof {
            assert(more@.take(i as int) == more@.take(i - 1).push(more@[i - 1]));
        }
    }
    proof {
        assert(more@.take(i as int) == more@);
    }
}


/// The texts of a sequence of strings.
pub open spec fn strs(v: Seq<String>) -> Seq<Seq<char>> {
    Seq::new(v.len(), |i: int| v[i]@)
}

/// Appending a string to a sequence appends its text to the texts.
pub proof fn lemma_strs_push(v: Seq<String>, s: String)
    ensures
        strs(v.push(s)) == strs(v).push(s@),
{
    assert(strs(v.push(s)) =~= strs(v).push(s@));
}

} // verus!
