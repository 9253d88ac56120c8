//! The tokenizer: source text to the token alphabet of the declaration
//! grammars.
//!
//! Identifiers follow the usual letter-then-alphanumeric rule, a run of
//! digits is a literal, a double-quoted run of characters is a literal
//! carried with its quotes, whitespace separates, and any other character
//! stands alone as punctuation. An unterminated string literal fails the
//! whole tokenization. The spec functions define the token sequence of a
//! text; the tokenizer is proved to return exactly it.

use crate::tokens::Token;
use vstd::prelude::*;
use vstd::string::StrSliceExecFns;

verus! {

/// The mathematical shape of a token.
pub ghost enum TokenV {
    Ident(Seq<char>),
    Lit(Seq<char>),
    Punct(char),
}

/// The shape of one token.
pub open spec fn token_view(t: Token) -> TokenV {
    match t {
        Token::Ident(s) => TokenV::Ident(s@),
        Token::Lit(s) => TokenV::Lit(s@),
        Token::Punct(c) => TokenV::Punct(c),
    }
}

/// The shapes of a token sequence.
pub open spec fn tokens_view(ts: Seq<Token>) -> Seq<TokenV> {
    Seq::new(ts.len(), |i: int| token_view(ts[i]))
}

/// Whether a character can open an identifier.
pub open spec fn is_ident_start(c: char) -> bool {
    ('a' <= c && c <= 'z') || ('A' <= c && c <= 'Z') || c == '_'
}

/// Whether a character can continue an identifier.
pub open spec fn is_ident_char(c: char) -> bool {
    is_ident_start(c) || ('0' <= c && c <= '9')
}

/// Whether a character is a decimal digit.
pub open spec fn is_digit(c: char) -> bool {
    '0' <= c && c <= '9'
}

/// Whether a character is blank.
pub open spec fn is_space(c: char) -> bool {
    c == ' ' || c == '\n' || c == '\t' || c == '\r'
}

/// The position just past the identifier characters running from `p`.
pub open spec fn ident_end(s: Seq<char>, p: int) -> int
    decreases s.len() - p,
{
    if 0 <= p < s.len() && is_ident_char(s[p]) {
        ident_end(s, p + 1)
    } else {
        p
    }
}

/// The position just past the digits running from `p`.
pub open spec fn digits_end(s: Seq<char>, p: int) -> int
    decreases s.len() - p,
{
    if 0 <= p < s.len() && is_digit(s[p]) {
        digits_end(s, p + 1)
    } else {
        p
    }
}

/// The position of the closing quote at or after `p`, if there is one.
pub open spec fn string_end(s: Seq<char>, p: int) -> Option<int>
    decreases s.len() - p,
{
    if !(0 <= p < s.len()) {
        None
    } else if s[p] == '"' {
        Some(p)
    } else {
        string_end(s, p + 1)
    }
}

proof fn lemma_ident_end_bounds(s: Seq<char>, p: int)
    ensures
        p <= ident_end(s, p),
        0 <= p <= s.len() ==> ident_end(s, p) <= s.len(),
    decreases s.len() - p,
{
    if 0 <= p < s.len() && is_ident_char(s[p]) {
        lemma_ident_end_bounds(s, p + 1);
    }
}

proof fn lemma_digits_end_bounds(s: Seq<char>, p: int)
    ensures
        p <= digits_end(s, p),
        0 <= p <= s.len() ==> digits_end(s, p) <= s.len(),
    decreases s.len() - p,
{
    if 0 <= p < s.len() && is_digit(s[p]) {
        lemma_digits_end_bounds(s, p + 1);
    }
}

proof fn lemma_string_end_bounds(s: Seq<char>, p: int)
    ensures
        string_end(s, p) matches Some(q) ==> p <= q < s.len(),
    decreases s.len() - p,
{
    if 0 <= p < s.len() && s[p] != '"' {
        lemma_string_end_bounds(s, p + 1);
    }
}

/// The token shapes of a text from position `p` on, or nothing when a
/// string literal never closes.
pub open spec fn sp_lex(s: Seq<char>, p: int) -> Option<Seq<TokenV>>
    decreases s.len() - p,
    when true
    via sp_lex_decreases
{
    if !(0 <= p < s.len()) {
        Some(Seq::empty())
    } else if is_space(s[p]) {
        sp_lex(s, p + 1)
    } else if is_ident_start(s[p]) {
        let e = ident_end(s, p + 1);
        match sp_lex(s, e) {
            Some(rest) => Some(seq![TokenV::Ident(s.subrange(p, e))] + rest),
            None => None,
        }
    } else if is_digit(s[p]) {
        let e = digits_end(s, p + 1);
        match sp_lex(s, e) {
            Some(rest) => Some(seq![TokenV::Lit(s.subrange(p, e))] + rest),
            None => None,
        }
    } else if s[p] == '"' {
        match string_end(s, p + 1) {
            None => None,
            Some(q) => match sp_lex(s, q + 1) {
                Some(rest) => Some(seq![TokenV::Lit(s.subrange(p, q + 1))] + rest),
                None => None,
            },
        }
    } else {
        match sp_lex(s, p + 1) {
            Some(rest) => Some(seq![TokenV::Punct(s[p])] + rest),
            None => None,
        }
    }
}

#[via_fn]
proof fn sp_lex_decreases(s: Seq<char>, p: int) {
    lemma_ident_end_bounds(s, p + 1);
    lemma_digits_end_bounds(s, p + 1);
    lemma_string_end_bounds(s, p + 1);
}

fn scan_ident_end(src: &str, start: usize, n: usize) -> (r: usize)
    requires
        start <= n,
        n == src@.len(),
    ensures
        ident_end(src@, start as int) == r as int,
        start <= r <= n,
{
    let mut p = start;
    loop
        invariant
            start <= p <= n,
            n == src@.len(),
            ident_end(src@, start as int) == ident_end(src@, p as int),
        decreases n - p,
    {
        if p >= n {
            return p;
        }
        let c = src.get_char(p);
        if c >= 'a' && c <= 'z' || c >= 'A' && c <= 'Z' || c == '_' || c >= '0' && c <= '9' {
            p = p + 1;
        } else {
            return p;
        }
    }
}

fn scan_digits_end(src: &str, start: usize, n: usize) -> (r: usize)
    requires
        start <= n,
        n == src@.len(),
    ensures
        digits_end(src@, start as int) == r as int,
        start <= r <= n,
{
    let mut p = start;
    loop
        invariant
            start <= p <= n,
            n == src@.len(),
            digits_end(src@, start as int) == digits_end(src@, p as int),
        decreases n - p,
    {
        if p >= n {
            return p;
        }
        let c = src.get_char(p);
        if c >= '0' && c <= '9' {
            p = p + 1;
        } else {
            return p;
        }
    }
}

fn scan_string_end(src: &str, start: usize, n: usize) -> (r: Option<usize>)
    requires
        start <= n,
        n == src@.len(),
    ensures
        match r {
            Some(q) => string_end(src@, start as int) == Some(q as int) && start <= q < n,
            None => string_end(src@, start as int) is None,
        },
{
    let mut p = start;
    loop
        invariant
            start <= p <= n,
            n == src@.len(),
            string_end(src@, start as int) == string_end(src@, p as int),
        decreases n - p,
    {
        if p >= n {
            return None;
        }
        if src.get_char(p) == '"' {
            proof {
                lemma_string_end_bounds(src@, p as int);
            }
            return Some(p);
        }
        p = p + 1;
    }
}

/// Turns source text into its token sequence; `None` when a string
/// literal never closes.
pub fn tokenize(src: &str) -> (r: Option<Vec<Token>>)
    ensures
        match r {
            Some(ts) => sp_lex(src@, 0) == Some(tokens_view(ts@)),
            None => sp_lex(src@, 0) is None,
        },
{
    let n = src.unicode_len();
    let mut out: Vec<Token> = Vec::new();
    let mut p: usize = 0;
    loop
        invariant
            p <= n,
            n == src@.len(),
            sp_lex(src@, 0) == match sp_lex(src@, p as int) {
                Some(rest) => Some(tokens_view(out@) + rest),
                None => None::<Seq<TokenV>>,
            },
        decreases n - p,
    {
        if p >= n {
            proof {
                assert(tokens_view(out@) + Seq::<TokenV>::empty() =~= tokens_view(out@));
            }
            return Some(out);
        }
        let c = src.get_char(p);
        let ghost before = out@;
        let ghost p0 = p as int;
        if c == ' ' || c == '\n' || c == '\t' || c == '\r' {
            p = p + 1;
        } else if c >= 'a' && c <= 'z' || c >= 'A' && c <= 'Z' || c == '_' {
            let e = scan_ident_end(src, p + 1, n);
            let word = src.substring_char(p, e).to_owned();
            out.push(Token::Ident(word));
            proof {
                let t = out@[before.len() as int];
                lemma_push_view(before, t);
                assert(token_view(t) == TokenV::Ident(src@.subrange(p0, e as int)));
                assert(sp_lex(src@, e as int) matches Some(rest) ==> tokens_view(out@) + rest
                    =~= tokens_view(before) + (seq![token_view(t)] + rest));
            }
            p = e;
        } else if c >= '0' && c <= '9' {
            let e = scan_digits_end(src, p + 1, n);
            let digits = src.substring_char(p, e).to_owned();
            out.push(Token::Lit(digits));
            proof {
                let t = out@[before.len() as int];
                lemma_push_view(before, t);
                assert(token_view(t) == TokenV::Lit(src@.subrange(p0, e as int)));
                assert(sp_lex(src@, e as int) matches Some(rest) ==> tokens_view(out@) + rest
                    =~= tokens_view(before) + (seq![token_view(t)] + rest));
            }
            p = e;
        } else if c == '"' {
            match scan_string_end(src, p + 1, n) {
                None => {
                    return None;
                },
                Some(q) => {
                    let raw = src.substring_char(p, q + 1).to_owned();
                    out.push(Token::Lit(raw));
                    proof {
                        let t = out@[before.len() as int];
                        lemma_push_view(before, t);
                        assert(token_view(t) == TokenV::Lit(src@.subrange(p0, q as int + 1)));
                        assert(sp_lex(src@, q as int + 1) matches Some(rest) ==> tokens_view(out@)
                            + rest =~= tokens_view(before) + (seq![token_view(t)] + rest));
                    }
                    p = q + 1;
                },
            }
        } else {
            out.push(Token::Punct(c));
            proof {
                let t = out@[before.len() as int];
                lemma_push_view(before, t);
                assert(token_view(t) == TokenV::Punct(src@[p0]));
                assert(sp_lex(src@, p0 + 1) matches Some(rest) ==> tokens_view(out@) + rest
                    =~= tokens_view(before) + (seq![token_view(t)] + rest));
            }
            p = p + 1;
        }
    }
}

proof fn lemma_push_view(before: Seq<Token>, t: Token)
    ensures
        tokens_view(before.push(t)) == tokens_view(before) + seq![token_view(t)],
{
    let after = before.push(t);
    assert forall|i: int| 0 <= i < after.len() implies tokens_view(after)[i] == (tokens_view(before)
        + seq![token_view(t)])[i] by {
        if i < before.len() {
            assert(after[i] == before[i]);
        }
    }
    assert(tokens_view(after) =~= tokens_view(before) + seq![token_view(t)]);
}

} // verus!
