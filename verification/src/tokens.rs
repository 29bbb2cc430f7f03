//! Splitting source text into tokens.
//!
//! Tokens are maximal runs of characters that are neither whitespace nor part of a comment.
//! A comment starts at `#` and runs to the end of its line.

use crate::errors::{AssemblyError, ErrorSpec};
use crate::text::{lemma_strs_push, string_of, strs};
use vstd::prelude::*;
use vstd::std_specs::iter::IteratorSpec;

verus! {

/// What the scanner knows after reading a prefix of the source.
pub struct LexState {
    /// The tokens that are complete.
    pub done: Seq<Seq<char>>,
    /// The characters of the token being read.
    pub current: Seq<char>,
    /// Whether the scanner is inside a comment.
    pub in_comment: bool,
}

/// ASCII whitespace: space, tab, line feed, form feed and carriage return.
pub open spec fn is_space(c: char) -> bool {
    c == ' ' || c == '\t' || c == '\n' || c == '\x0c' || c == '\r'
}

/// Ends the token being read, if there is one.
pub open spec fn close_token(st: LexState) -> LexState {
    if st.current.len() > 0 {
        LexState { done: st.done.push(st.current), current: Seq::empty(), in_comment: st.in_comment }
    } else {
        st
    }
}

/// The scanner's reaction to one character.
pub open spec fn lex_step(st: LexState, c: char) -> LexState {
    if st.in_comment {
        if c == '\n' {
            LexState { in_comment: false, ..st }
        } else {
            st
        }
    } else if c == '#' {
        LexState { in_comment: true, ..close_token(st) }
    } else if is_space(c) {
        close_token(st)
    } else {
        LexState { current: st.current.push(c), ..st }
    }
}

/// The scanner's state after reading all of `s`.
pub open spec fn lex_state(s: Seq<char>) -> LexState
    decreases s.len(),
{
    if s.len() == 0 {
        LexState { done: Seq::empty(), current: Seq::empty(), in_comment: false }
    } else {
        lex_step(lex_state(s.drop_last()), s.last())
    }
}

/// The tokens of a source text.
pub open spec fn tokens_of(s: Seq<char>) -> Seq<Seq<char>> {
    close_token(lex_state(s)).done
}

/// What comment removal knows after reading a prefix of the source.
pub struct StripState {
    /// The characters kept so far.
    pub out: Seq<char>,
    /// Whether the last character read was inside a comment.
    pub in_comment: bool,
}

/// Comment removal's reaction to one character: a comment is dropped from its `#` up to,
/// not including, the line feed that ends it.
pub open spec fn strip_step(st: StripState, c: char) -> StripState {
    if st.in_comment {
        if c == '\n' {
            StripState { out: st.out.push(c), in_comment: false }
        } else {
            st
        }
    } else if c == '#' {
        StripState { in_comment: true, ..st }
    } else {
        StripState { out: st.out.push(c), ..st }
    }
}

/// Comment removal's state after reading all of `s`.
pub open spec fn strip_state(s: Seq<char>) -> StripState
    decreases s.len(),
{
    if s.len() == 0 {
        StripState { out: Seq::empty(), in_comment: false }
    } else {
        strip_step(strip_state(s.drop_last()), s.last())
    }
}

/// The source text without its comments.
pub open spec fn strip_comments_spec(s: Seq<char>) -> Seq<char> {
    strip_state(s).out
}

/// How scanning the stripped text relates to scanning the text itself.
proof fn lemma_strip_simulates(s: Seq<char>)
    ensures
        strip_state(s).in_comment == lex_state(s).in_comment,
        lex_state(s).in_comment ==> lex_state(s).current.len() == 0,
        !lex_state(strip_state(s).out).in_comment,
        !lex_state(s).in_comment ==> lex_state(strip_state(s).out) == lex_state(s),
        lex_state(s).in_comment ==> close_token(lex_state(strip_state(s).out)) == (LexState {
            in_comment: false,
            ..lex_state(s)
        }),
    decreases s.len(),
{
    if s.len() > 0 {
        let r = s.drop_last();
        let c = s.last();
        lemma_strip_simulates(r);
        let kept = strip_state(r).out;
        if strip_state(s).out != kept {
            assert(strip_state(s).out == kept.push(c));
            assert(kept.push(c).drop_last() == kept);
            assert(lex_state(kept.push(c)) == lex_step(lex_state(kept), c));
        }
    }
}

/// Comments are invisible to the scanner: a text and the same text without its comments
/// have the same tokens.
pub proof fn lemma_comments_invisible(s: Seq<char>)
    ensures
        tokens_of(strip_comments_spec(s)) == tokens_of(s),
{
    lemma_strip_simulates(s);
}

/// Splits `source` into its tokens.
pub fn tokenize(source: &str) -> (out: Vec<String>)
    ensures
        strs(out@) == tokens_of(source@),
{
    broadcast use vstd::string::axiom_spec_iter, vstd::string::next_postcondition;

    let mut done: Vec<String> = Vec::new();
    let mut current: Vec<char> = Vec::new();
    let mut in_comment = false;
    let mut it = source.chars();
    let ghost mut seen: Seq<char> = Seq::empty();
    loop
        invariant_except_break
            lex_state(seen).done =~= strs(done@),
            lex_state(seen).current =~= current@,
            lex_state(seen).in_comment == in_comment,
        invariant
            seen + it.remaining() == source@,
            it.decrease() is Some,
        ensures
            strs(done@) == tokens_of(source@),
        decreases it.decrease()->0,
    {
        match it.next() {
            Some(c) => {
                proof {
                    assert(seen.push(c).drop_last() == seen);
                    seen = seen.push(c);
                }
                if in_comment {
                    if c == '\n' {
                        in_comment = false;
                    }
                } else if c == '#' || c == ' ' || c == '\t' || c == '\n' || c == '\x0c' || c
                    == '\r' {
                    if current.len() > 0 {
                        let token = string_of(&current);
                        proof {
                            lemma_strs_push(done@, token);
                        }
                        done.push(token);
                        current = Vec::new();
                    }
                    in_comment = c == '#';
                } else {
                    current.push(c);
                }
            },
            None => {
                proof {
                    assert(seen == source@);
                }
                if current.len() > 0 {
                    let token = string_of(&current);
                    proof {
                        lemma_strs_push(done@, token);
                    }
                    done.push(token);
                }
                break ;
            },
        }
    }
    done
}

/// Removes the comments from `source`, keeping the line feed that ends each.
pub fn strip_comments(source: &str) -> (out: String)
    ensures
        out@ == strip_comments_spec(source@),
{
    broadcast use vstd::string::axiom_spec_iter, vstd::string::next_postcondition;

    let mut kept: Vec<char> = Vec::new();
    let mut in_comment = false;
    let mut it = source.chars();
    let ghost mut seen: Seq<char> = Seq::empty();
    loop
        invariant
            seen + it.remaining() == source@,
            it.decrease() is Some,
            strip_state(seen) == (StripState { out: kept@, in_comment }),
        ensures
            kept@ == strip_comments_spec(source@),
        decreases it.decrease()->0,
    {
        match it.next() {
            Some(c) => {
                proof {
                    assert(seen.push(c).drop_last() == seen);
                    seen = seen.push(c);
                }
                if in_comment {
                    if c == '\n' {
                        kept.push(c);
                        in_comment = false;
                    }
                } else if c == '#' {
                    in_comment = true;
                } else {
                    kept.push(c);
                }
            },
            None => {
                proof {
                    assert(seen == source@);
                }
                break ;
            },
        }
    }
    string_of(&kept)
}

/// A forward cursor over the tokens of a source text.
#[derive(Debug)]
pub struct TokenStream {
    tokens: Vec<String>,
    pos: usize,
}

impl TokenStream {
    #[verifier::type_invariant]
    spec fn inv(&self) -> bool {
        0 < self.tokens@.len() && self.pos <= self.tokens@.len()
    }

    /// All tokens of the stream, read or not.
    pub closed spec fn tokens(&self) -> Seq<Seq<char>> {
        strs(self.tokens@)
    }

    /// The number of tokens that have been passed.
    pub closed spec fn passed(&self) -> nat {
        self.pos as nat
    }

    /// Returns a stream over the tokens of `source`, positioned at the first of them, or
    /// `EmptySource` if the text holds no token.
    pub fn new(source: &str) -> (out: Result<TokenStream, AssemblyError>)
        ensures
            match out {
                Ok(stream) => stream.tokens() == tokens_of(source@) && stream.passed() == 0
                    && tokens_of(source@).len() > 0,
                Err(error) => error@ == ErrorSpec::EmptySource && tokens_of(source@).len() == 0,
            },
    {
        let tokens = tokenize(source);
        if tokens.len() == 0 {
            Err(AssemblyError::EmptySource)
        } else {
            Ok(TokenStream { tokens, pos: 0 })
        }
    }

    /// Returns the number of tokens that have been passed.
    pub fn pos(&self) -> (out: usize)
        ensures
            out == self.passed(),
            out <= self.tokens().len(),
    {
        proof {
            use_type_invariant(self);
        }
        self.pos
    }

    /// Returns the number of tokens of the stream, read or not.
    pub fn num_tokens(&self) -> (out: usize)
        ensures
            out == self.tokens().len(),
            out > 0,
    {
        proof {
            use_type_invariant(self);
        }
        self.tokens.len()
    }

    /// Tells whether all tokens have been passed.
    pub fn eof(&self) -> (out: bool)
        ensures
            out == (self.passed() >= self.tokens().len()),
    {
        proof {
            use_type_invariant(self);
        }
        self.pos >= self.tokens.len()
    }

    /// Returns the token at the cursor without passing it, or `None` when all tokens have
    /// been passed.
    pub fn read(&self) -> (out: Option<&String>)
        ensures
            match out {
                Some(token) => self.passed() < self.tokens().len() && token@ == self.tokens()[self.passed() as int],
                None => self.passed() >= self.tokens().len(),
            },
    {
        proof {
            use_type_invariant(self);
        }
        if self.pos < self.tokens.len() {
            Some(&self.tokens[self.pos])
        } else {
            None
        }
    }

    /// Passes the token at the cursor; does nothing when all tokens have been passed.
    pub fn advance(&mut self)
        ensures
            final(self).tokens() == old(self).tokens(),
            final(self).passed() == if old(self).passed() < old(self).tokens().len() {
                old(self).passed() + 1
            } else {
                old(self).passed()
            },
    {
        proof {
            use_type_invariant(&*self);
        }
        if self.pos < self.tokens.len() {
            self.pos = self.pos + 1;
        }
    }
}

} // verus!
