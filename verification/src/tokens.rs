//! The lexical alphabet of the declaration grammars.
//!
//! A declaration reaches the parsers as a sequence of tokens: identifiers
//! (keywords among them), literals carried as their raw source text, and
//! single punctuation characters. String literals keep their quotes here;
//! the parsers strip exactly one leading and one trailing quote and treat
//! anything else as a malformed literal.

use vstd::prelude::*;
use vstd::string::StrSliceExecFns;
use vstd::string::StringExecFns;

verus! {

/// One lexical token.
#[derive(Debug)]
pub enum Token {
    /// An identifier or keyword.
    Ident(String),
    /// A literal, as its raw source text; a string literal includes its quotes.
    Lit(String),
    /// One punctuation character.
    Punct(char),
}

impl Token {
    /// Whether this token is the identifier spelled `name`.
    pub open spec fn is_ident_text(&self, name: Seq<char>) -> bool {
        match self {
            Token::Ident(s) => s@ == name,
            _ => false,
        }
    }

    /// Whether this token is the given punctuation character.
    pub open spec fn is_punct_char(&self, c: char) -> bool {
        match self {
            Token::Punct(p) => p == c,
            _ => false,
        }
    }
}

impl DeepView for Token {
    type V = Token;

    open spec fn deep_view(&self) -> Token {
        *self
    }
}

/// Whether a raw literal text is exactly a double-quoted string: one leading
/// and one trailing quote around anything else.
pub open spec fn quoted_lit(raw: Seq<char>) -> bool {
    raw.len() >= 2 && raw[0] == '"' && raw[raw.len() - 1] == '"'
}

/// The content of a quoted literal, quotes stripped.
pub open spec fn lit_content(raw: Seq<char>) -> Seq<char> {
    raw.subrange(1, raw.len() - 1)
}

/// Copies one token.
pub fn clone_token(t: &Token) -> (r: Token)
    ensures
        r == *t,
{
    match t {
        Token::Ident(s) => Token::Ident(s.clone()),
        Token::Lit(s) => Token::Lit(s.clone()),
        Token::Punct(c) => Token::Punct(*c),
    }
}

/// Copies the token range `[from, to)` of a vector.
pub fn clone_token_range(tokens: &Vec<Token>, from: usize, to: usize) -> (r: Vec<Token>)
    requires
        from <= to <= tokens@.len(),
    ensures
        r@ == tokens@.subrange(from as int, to as int),
{
    let mut out: Vec<Token> = Vec::new();
    let mut i: usize = from;
    while i < to
        invariant
            from <= i <= to <= tokens@.len(),
            out@ =~= tokens@.subrange(from as int, i as int),
        decreases to - i,
    {
        out.push(clone_token(&tokens[i]));
        assert(out@ =~= tokens@.subrange(from as int, i as int + 1));
        i = i + 1;
    }
    assert(out@ =~= tokens@.subrange(from as int, to as int));
    out
}

/// Compares two pieces of text character by character.
pub fn text_eq(a: &str, b: &str) -> (r: bool)
    ensures
        r == (a@ == b@),
{
    let an = a.unicode_len();
    let bn = b.unicode_len();
    if an != bn {
        assert(a@ != b@);
        return false;
    }
    let mut i: usize = 0;
    while i < an
        invariant
            an == a@.len(),
            bn == b@.len(),
            an == bn,
            i <= an,
            forall|j: int| 0 <= j < i ==> a@[j] == b@[j],
        decreases an - i,
    {
        if a.get_char(i) != b.get_char(i) {
            assert(a@[i as int] != b@[i as int]);
            return false;
        }
        i = i + 1;
    }
    assert(a@ =~= b@);
    true
}

/// Strips the quotes of a raw string literal, or reports that the literal is
/// not a plain double-quoted string.
pub fn strip_quotes(raw: &String) -> (r: Option<String>)
    ensures
        match r {
            Some(s) => quoted_lit(raw@) && s@ == lit_content(raw@),
            None => !quoted_lit(raw@),
        },
{
    let rs = raw.as_str();
    let n = rs.unicode_len();
    if n < 2 {
        return None;
    }
    if rs.get_char(0) != '"' {
        return None;
    }
    if rs.get_char(n - 1) != '"' {
        return None;
    }
    let inner = rs.substring_char(1, n - 1);
    Some(inner.to_owned())
}

} // verus!
