//! The component-declaration grammar and its recursive-descent parser.
//!
//! A declaration reads
//!
//! ```text
//! name = Ident for "tag" [with "modifier" ...];
//! field has Type for "tag" [with "modifier" ...];*
//! ```
//!
//! The parser is written twice: once as spec functions over `Seq<Token>`,
//! which are the grammar's definition, and once as executable code proved to
//! return exactly what the spec functions say. Modifier lists and field
//! lists are parsed zero-or-more until the first failure, backing off
//! without consuming; a malformed string literal is a hard error. A field
//! list may therefore end before the tokens do: the parser reports how many
//! tokens it consumed.

use crate::tokens::{clone_token_range, lit_content, quoted_lit, strip_quotes, text_eq, Token};
use vstd::prelude::*;

verus! {

/// A flag attached to a component or one of its fields. A quoted string
/// that matches no known modifier parses as `Undetermined` and carries no
/// behavior.
#[derive(Clone, Copy, Debug, PartialEq, Eq, Structural)]
pub enum Modifier {
    IntoModifier,
    Undetermined,
    Public,
    Transparency,
    UsingFn,
}

/// A grammar error: the required construct that was not found.
#[derive(Clone, Copy, Debug, PartialEq, Eq, Structural)]
pub enum ParseError {
    MissingNameKeyword,
    MissingEquals,
    MissingName,
    MissingFor,
    MissingTag,
    MalformedStringLit,
    MissingWith,
    MissingSemicolon,
    MissingBracket,
    MissingBrace,
    MissingExpr,
    TooDeep,
}

/// One `field has Type for "tag" with ...;` clause.
#[derive(Debug)]
pub struct PropertyDeclaration {
    pub name: String,
    pub data_type: Vec<Token>,
    pub property_id: String,
    pub modifiers: Vec<Modifier>,
}

/// One parsed component declaration.
#[derive(Debug)]
pub struct ComponentData {
    pub name: String,
    pub property_id: String,
    pub props: Vec<PropertyDeclaration>,
    pub modifiers: Vec<Modifier>,
}

/// The mathematical shape of a field declaration.
pub ghost struct PropertyV {
    pub name: Seq<char>,
    pub data_type: Seq<Token>,
    pub property_id: Seq<char>,
    pub modifiers: Seq<Modifier>,
}

/// The mathematical shape of a component declaration.
pub ghost struct ComponentV {
    pub name: Seq<char>,
    pub property_id: Seq<char>,
    pub props: Seq<PropertyV>,
    pub modifiers: Seq<Modifier>,
}

impl View for PropertyDeclaration {
    type V = PropertyV;

    open spec fn view(&self) -> PropertyV {
        PropertyV {
            name: self.name@,
            data_type: self.data_type@,
            property_id: self.property_id@,
            modifiers: self.modifiers@,
        }
    }
}

impl DeepView for PropertyDeclaration {
    type V = PropertyV;

    open spec fn deep_view(&self) -> PropertyV {
        self.view()
    }
}

impl View for ComponentData {
    type V = ComponentV;

    open spec fn view(&self) -> ComponentV {
        ComponentV {
            name: self.name@,
            property_id: self.property_id@,
            props: self.props.deep_view(),
            modifiers: self.modifiers@,
        }
    }
}

/// Outcome of a required production: a value and the next position, or a
/// grammar error.
pub ghost enum Parsed<T> {
    Done(T, int),
    Fail(ParseError),
}

/// Outcome of a speculative production: a value and the next position, a
/// clean miss that consumes nothing, or a hard error.
pub ghost enum Probe<T> {
    Hit(T, int),
    Miss,
    Fatal(ParseError),
}

/// The modifier a quoted string stands for.
pub open spec fn modifier_of(text: Seq<char>) -> Modifier {
    if text == "into"@ {
        Modifier::IntoModifier
    } else if text == "public"@ {
        Modifier::Public
    } else if text == "using"@ {
        Modifier::UsingFn
    } else if text == "transparency"@ {
        Modifier::Transparency
    } else {
        Modifier::Undetermined
    }
}

/// Zero or more modifiers: quoted literals, read until the next token is no
/// literal. An unquoted literal in modifier position is a hard error.
pub open spec fn spec_modifiers(tk: Seq<Token>, p: int) -> Parsed<Seq<Modifier>>
    decreases tk.len() - p,
{
    if 0 <= p < tk.len() && tk[p] is Lit {
        let raw = tk[p]->Lit_0@;
        if quoted_lit(raw) {
            match spec_modifiers(tk, p + 1) {
                Parsed::Done(ms, q) => Parsed::Done(seq![modifier_of(lit_content(raw))] + ms, q),
                Parsed::Fail(e) => Parsed::Fail(e),
            }
        } else {
            Parsed::Fail(ParseError::MalformedStringLit)
        }
    } else {
        Parsed::Done(Seq::empty(), p)
    }
}

/// How a token changes the bracket depth of a type expression.
pub open spec fn depth_delta(t: Token) -> int {
    if t.is_punct_char('<') || t.is_punct_char('[') || t.is_punct_char('(') {
        1
    } else if t.is_punct_char('>') || t.is_punct_char(']') || t.is_punct_char(')') {
        -1
    } else {
        0
    }
}

/// The position of the `for` keyword that ends a type expression: the first
/// `for` at bracket depth zero. `None` when brackets close too often or the
/// tokens end first.
pub open spec fn spec_type_end(tk: Seq<Token>, p: int, depth: int) -> Option<int>
    decreases tk.len() - p,
{
    if !(0 <= p < tk.len()) {
        None
    } else if depth == 0 && tk[p].is_ident_text("for"@) {
        Some(p)
    } else {
        let d = depth + depth_delta(tk[p]);
        if d < 0 {
            None
        } else {
            spec_type_end(tk, p + 1, d)
        }
    }
}

/// The tail of a field declaration after its tag: either an immediate `;`,
/// or a modifier list, its leading `with` optional, closed by `;`.
pub open spec fn spec_property_tail(tk: Seq<Token>, r: int, base: PropertyV) -> Probe<PropertyV> {
    if 0 <= r < tk.len() && tk[r].is_punct_char(';') {
        Probe::Hit(base, r + 1)
    } else {
        let r2 = if 0 <= r < tk.len() && tk[r].is_ident_text("with"@) {
            r + 1
        } else {
            r
        };
        match spec_modifiers(tk, r2) {
            Parsed::Fail(e) => Probe::Fatal(e),
            Parsed::Done(ms, r3) => {
                if 0 <= r3 < tk.len() && tk[r3].is_punct_char(';') {
                    Probe::Hit(
                        PropertyV {
                            name: base.name,
                            data_type: base.data_type,
                            property_id: base.property_id,
                            modifiers: ms,
                        },
                        r3 + 1,
                    )
                } else {
                    Probe::Miss
                }
            },
        }
    }
}

/// One field declaration, tried speculatively: a structural mismatch is a
/// clean miss, a malformed string literal a hard error.
pub open spec fn spec_property(tk: Seq<Token>, p: int) -> Probe<PropertyV> {
    if 0 <= p && p + 1 < tk.len() && tk[p] is Ident && tk[p + 1].is_ident_text("has"@) {
        match spec_type_end(tk, p + 2, 0) {
            None => Probe::Miss,
            Some(q) => {
                if q == p + 2 {
                    Probe::Miss
                } else if q + 1 < tk.len() && tk[q + 1] is Lit {
                    let raw = tk[q + 1]->Lit_0@;
                    if quoted_lit(raw) {
                        spec_property_tail(
                            tk,
                            q + 2,
                            PropertyV {
                                name: tk[p]->Ident_0@,
                                data_type: tk.subrange(p + 2, q),
                                property_id: lit_content(raw),
                                modifiers: Seq::empty(),
                            },
                        )
                    } else {
                        Probe::Fatal(ParseError::MalformedStringLit)
                    }
                } else {
                    Probe::Miss
                }
            },
        }
    } else {
        Probe::Miss
    }
}

proof fn lemma_modifiers_bounds(tk: Seq<Token>, p: int)
    ensures
        spec_modifiers(tk, p) matches Parsed::Done(ms, q) ==> p <= q <= vstd::math::max(
            p,
            tk.len() as int,
        ),
    decreases tk.len() - p,
{
    if 0 <= p < tk.len() && tk[p] is Lit {
        let raw = tk[p]->Lit_0@;
        if quoted_lit(raw) {
            lemma_modifiers_bounds(tk, p + 1);
        }
    }
}

proof fn lemma_type_end_bounds(tk: Seq<Token>, p: int, depth: int)
    ensures
        spec_type_end(tk, p, depth) matches Some(q) ==> p <= q < tk.len(),
    decreases tk.len() - p,
{
    if 0 <= p < tk.len() {
        if !(depth == 0 && tk[p].is_ident_text("for"@)) {
            let d = depth + depth_delta(tk[p]);
            if d >= 0 {
                lemma_type_end_bounds(tk, p + 1, d);
            }
        }
    }
}

proof fn lemma_property_bounds(tk: Seq<Token>, p: int)
    ensures
        spec_property(tk, p) matches Probe::Hit(v, p2) ==> p < p2 <= tk.len(),
{
    if 0 <= p && p + 1 < tk.len() && tk[p] is Ident && tk[p + 1].is_ident_text("has"@) {
        lemma_type_end_bounds(tk, p + 2, 0);
        if let Some(q) = spec_type_end(tk, p + 2, 0) {
            if q > p + 2 && q + 1 < tk.len() {
                let r = q + 2;
                let r2 = if 0 <= r < tk.len() && tk[r].is_ident_text("with"@) {
                    r + 1
                } else {
                    r
                };
                lemma_modifiers_bounds(tk, r2);
            }
        }
    }
}

/// Zero or more field declarations, read until the first miss.
pub open spec fn spec_properties(tk: Seq<Token>, p: int) -> Parsed<Seq<PropertyV>>
    decreases tk.len() - p,
    when true
    via spec_properties_decreases
{
    match spec_property(tk, p) {
        Probe::Miss => Parsed::Done(Seq::empty(), p),
        Probe::Fatal(e) => Parsed::Fail(e),
        Probe::Hit(v, p2) => match spec_properties(tk, p2) {
            Parsed::Done(vs, pend) => Parsed::Done(seq![v] + vs, pend),
            Parsed::Fail(e) => Parsed::Fail(e),
        },
    }
}

#[via_fn]
proof fn spec_properties_decreases(tk: Seq<Token>, p: int) {
    lemma_property_bounds(tk, p);
}

/// The whole component declaration: the `name = Ident for "tag"` header,
/// its modifier clause closed by `;`, then the field declarations. The
/// position in the result says how many tokens were consumed; a malformed
/// trailing field silently ends the field list there.
pub open spec fn spec_component(tk: Seq<Token>) -> Parsed<ComponentV> {
    if !(0 < tk.len() && tk[0].is_ident_text("name"@)) {
        Parsed::Fail(ParseError::MissingNameKeyword)
    } else if !(1 < tk.len() && tk[1].is_punct_char('=')) {
        Parsed::Fail(ParseError::MissingEquals)
    } else if !(2 < tk.len() && tk[2] is Ident) {
        Parsed::Fail(ParseError::MissingName)
    } else if !(3 < tk.len() && tk[3].is_ident_text("for"@)) {
        Parsed::Fail(ParseError::MissingFor)
    } else if !(4 < tk.len() && tk[4] is Lit) {
        Parsed::Fail(ParseError::MissingTag)
    } else if !quoted_lit(tk[4]->Lit_0@) {
        Parsed::Fail(ParseError::MalformedStringLit)
    } else {
        let name = tk[2]->Ident_0@;
        let tag = lit_content(tk[4]->Lit_0@);
        if 5 < tk.len() && tk[5].is_punct_char(';') {
            spec_component_fields(tk, 6, name, tag, Seq::empty())
        } else if 5 < tk.len() && tk[5].is_ident_text("with"@) {
            match spec_modifiers(tk, 6) {
                Parsed::Fail(e) => Parsed::Fail(e),
                Parsed::Done(ms, q) => {
                    if 0 <= q < tk.len() && tk[q].is_punct_char(';') {
                        spec_component_fields(tk, q + 1, name, tag, ms)
                    } else {
                        Parsed::Fail(ParseError::MissingSemicolon)
                    }
                },
            }
        } else {
            Parsed::Fail(ParseError::MissingWith)
        }
    }
}

/// The field declarations of a component, wrapped into the final value.
pub open spec fn spec_component_fields(
    tk: Seq<Token>,
    p: int,
    name: Seq<char>,
    tag: Seq<char>,
    mods: Seq<Modifier>,
) -> Parsed<ComponentV> {
    match spec_properties(tk, p) {
        Parsed::Fail(e) => Parsed::Fail(e),
        Parsed::Done(props, pend) => Parsed::Done(
            ComponentV { name, property_id: tag, props, modifiers: mods },
            pend,
        ),
    }
}

/// The modifier a stripped literal text stands for.
pub fn classify_modifier(text: &str) -> (m: Modifier)
    ensures
        m == modifier_of(text@),
{
    if text_eq(text, "into") {
        Modifier::IntoModifier
    } else if text_eq(text, "public") {
        Modifier::Public
    } else if text_eq(text, "using") {
        Modifier::UsingFn
    } else if text_eq(text, "transparency") {
        Modifier::Transparency
    } else {
        Modifier::Undetermined
    }
}

/// Reads zero or more modifiers from position `p`.
fn parse_modifiers(tokens: &Vec<Token>, p: usize) -> (r: Result<(Vec<Modifier>, usize), ParseError>)
    requires
        p <= tokens@.len(),
    ensures
        match r {
            Ok((ms, q)) => {
                &&& spec_modifiers(tokens@, p as int) == Parsed::Done(ms@, q as int)
                &&& p <= q <= tokens@.len()
            },
            Err(e) => spec_modifiers(tokens@, p as int) == Parsed::<Seq<Modifier>>::Fail(e),
        },
    decreases tokens@.len() - p,
{
    if p < tokens.len() {
        match &tokens[p] {
            Token::Lit(raw) => {
                match strip_quotes(raw) {
                    Some(content) => {
                        let m = classify_modifier(content.as_str());
                        match parse_modifiers(tokens, p + 1) {
                            Ok((ms, q)) => {
                                let ghost ms0 = ms@;
                                let mut v = ms;
                                v.insert(0, m);
                                proof {
                                    assert(v@ =~= seq![m] + ms0);
                                }
                                Ok((v, q))
                            },
                            Err(e) => Err(e),
                        }
                    },
                    None => Err(ParseError::MalformedStringLit),
                }
            },
            _ => Ok((Vec::new(), p)),
        }
    } else {
        Ok((Vec::new(), p))
    }
}

/// Finds the `for` keyword that ends a type expression starting at `start`.
fn find_type_end(tokens: &Vec<Token>, start: usize) -> (r: Option<usize>)
    requires
        start <= tokens@.len(),
    ensures
        match r {
            Some(q) => spec_type_end(tokens@, start as int, 0) == Some(q as int) && start <= q
                < tokens@.len(),
            None => spec_type_end(tokens@, start as int, 0) is None,
        },
{
    proof {
        lemma_type_end_bounds(tokens@, start as int, 0);
    }
    let mut p: usize = start;
    let mut depth: usize = 0;
    loop
        invariant
            start <= p <= tokens@.len(),
            depth <= p - start,
            spec_type_end(tokens@, start as int, 0) == spec_type_end(
                tokens@,
                p as int,
                depth as int,
            ),
        decreases tokens@.len() - p,
    {
        if p >= tokens.len() {
            return None;
        }
        let deeper: i32 = match &tokens[p] {
            Token::Punct(c) => {
                if *c == '<' || *c == '[' || *c == '(' {
                    1
                } else if *c == '>' || *c == ']' || *c == ')' {
                    -1
                } else {
                    0
                }
            },
            _ => 0,
        };
        proof {
            assert(deeper as int == depth_delta(tokens@[p as int]));
        }
        if depth == 0 {
            let found = match &tokens[p] {
                Token::Ident(s) => text_eq(s.as_str(), "for"),
                _ => false,
            };
            if found {
                proof {
                    lemma_type_end_bounds(tokens@, start as int, 0);
                }
                return Some(p);
            }
        }
        if deeper < 0 {
            if depth == 0 {
                return None;
            }
            depth = depth - 1;
        } else if deeper > 0 {
            depth = depth + 1;
        }
        p = p + 1;
    }
}

/// Outcome of trying one field declaration.
pub enum PropertyProbe {
    Hit(PropertyDeclaration, usize),
    Miss,
    Fatal(ParseError),
}

/// Tries to read one field declaration at position `p`, consuming nothing
/// on a miss.
fn parse_property(tokens: &Vec<Token>, p: usize) -> (r: PropertyProbe)
    requires
        p <= tokens@.len(),
    ensures
        match r {
            PropertyProbe::Hit(d, q) => {
                &&& spec_property(tokens@, p as int) == Probe::Hit(d@, q as int)
                &&& p < q <= tokens@.len()
            },
            PropertyProbe::Miss => spec_property(tokens@, p as int) is Miss,
            PropertyProbe::Fatal(e) => spec_property(tokens@, p as int) == Probe::<
                PropertyV,
            >::Fatal(e),
        },
{
    proof {
        lemma_property_bounds(tokens@, p as int);
    }
    if tokens.len() - p < 2 {
        return PropertyProbe::Miss;
    }
    let name: String = match &tokens[p] {
        Token::Ident(s) => s.clone(),
        _ => {
            return PropertyProbe::Miss;
        },
    };
    let has_kw = match &tokens[p + 1] {
        Token::Ident(s) => text_eq(s.as_str(), "has"),
        _ => false,
    };
    if !has_kw {
        return PropertyProbe::Miss;
    }
    let q = match find_type_end(tokens, p + 2) {
        Some(q) => q,
        None => {
            return PropertyProbe::Miss;
        },
    };
    if q == p + 2 {
        return PropertyProbe::Miss;
    }
    if !(q + 1 < tokens.len()) {
        return PropertyProbe::Miss;
    }
    let raw = match &tokens[q + 1] {
        Token::Lit(raw) => raw,
        _ => {
            return PropertyProbe::Miss;
        },
    };
    let property_id = match strip_quotes(raw) {
        Some(s) => s,
        None => {
            return PropertyProbe::Fatal(ParseError::MalformedStringLit);
        },
    };
    let data_type = clone_token_range(tokens, p + 2, q);
    let base = PropertyDeclaration { name, data_type, property_id, modifiers: Vec::new() };
    // The tail: `;` at once, or modifiers with an optional `with`, then `;`.
    let r = q + 2;
    if r < tokens.len() {
        let semi = match &tokens[r] {
            Token::Punct(c) => *c == ';',
            _ => false,
        };
        if semi {
            return PropertyProbe::Hit(base, r + 1);
        }
    }
    let mut r2 = r;
    if r < tokens.len() {
        let with_kw = match &tokens[r] {
            Token::Ident(s) => text_eq(s.as_str(), "with"),
            _ => false,
        };
        if with_kw {
            r2 = r + 1;
        }
    }
    if r2 > tokens.len() {
        return PropertyProbe::Miss;
    }
    match parse_modifiers(tokens, r2) {
        Err(e) => PropertyProbe::Fatal(e),
        Ok((ms, r3)) => {
            if r3 < tokens.len() {
                let semi = match &tokens[r3] {
                    Token::Punct(c) => *c == ';',
                    _ => false,
                };
                if semi {
                    let d = PropertyDeclaration {
                        name: base.name,
                        data_type: base.data_type,
                        property_id: base.property_id,
                        modifiers: ms,
                    };
                    return PropertyProbe::Hit(d, r3 + 1);
                }
            }
            PropertyProbe::Miss
        },
    }
}

/// Reads zero or more field declarations from position `p`, stopping at the
/// first miss.
fn parse_properties(tokens: &Vec<Token>, p: usize) -> (r: Result<
    (Vec<PropertyDeclaration>, usize),
    ParseError,
>)
    requires
        p <= tokens@.len(),
    ensures
        match r {
            Ok((ds, q)) => {
                &&& spec_properties(tokens@, p as int) == Parsed::Done(ds.deep_view(), q as int)
                &&& p <= q <= tokens@.len()
            },
            Err(e) => spec_properties(tokens@, p as int) == Parsed::<Seq<PropertyV>>::Fail(e),
        },
    decreases tokens@.len() - p,
{
    match parse_property(tokens, p) {
        PropertyProbe::Miss => {
            let empty: Vec<PropertyDeclaration> = Vec::new();
            proof {
                assert(empty.deep_view() =~= Seq::<PropertyV>::empty());
            }
            Ok((empty, p))
        },
        PropertyProbe::Fatal(e) => Err(e),
        PropertyProbe::Hit(d, p2) => {
            match parse_properties(tokens, p2) {
                Ok((ds, q)) => {
                    let ghost dv = d@;
                    let ghost ds0 = ds.deep_view();
                    let mut v = ds;
                    v.insert(0, d);
                    proof {
                        assert(v.deep_view() =~= seq![dv] + ds0);
                    }
                    Ok((v, q))
                },
                Err(e) => Err(e),
            }
        },
    }
}

/// Parses a whole component declaration. On success the returned count says
/// how many tokens were consumed: a malformed trailing field ends the field
/// list silently, leaving the rest of the tokens unread.
pub fn parse_component(tokens: &Vec<Token>) -> (r: Result<(ComponentData, usize), ParseError>)
    ensures
        match r {
            Ok((c, n)) => spec_component(tokens@) == Parsed::Done(c@, n as int) && n
                <= tokens@.len(),
            Err(e) => spec_component(tokens@) == Parsed::<ComponentV>::Fail(e),
        },
{
    if !(tokens.len() > 0) {
        return Err(ParseError::MissingNameKeyword);
    }
    let name_kw = match &tokens[0] {
        Token::Ident(s) => text_eq(s.as_str(), "name"),
        _ => false,
    };
    if !name_kw {
        return Err(ParseError::MissingNameKeyword);
    }
    if !(tokens.len() > 1 && match &tokens[1] {
        Token::Punct(c) => *c == '=',
        _ => false,
    }) {
        return Err(ParseError::MissingEquals);
    }
    if !(tokens.len() > 2) {
        return Err(ParseError::MissingName);
    }
    let name: String = match &tokens[2] {
        Token::Ident(s) => s.clone(),
        _ => {
            return Err(ParseError::MissingName);
        },
    };
    if !(tokens.len() > 3 && match &tokens[3] {
        Token::Ident(s) => text_eq(s.as_str(), "for"),
        _ => false,
    }) {
        return Err(ParseError::MissingFor);
    }
    if !(tokens.len() > 4) {
        return Err(ParseError::MissingTag);
    }
    let raw: &String = match &tokens[4] {
        Token::Lit(s) => s,
        _ => {
            return Err(ParseError::MissingTag);
        },
    };
    let property_id = match strip_quotes(raw) {
        Some(s) => s,
        None => {
            return Err(ParseError::MalformedStringLit);
        },
    };
    let semi_next = tokens.len() > 5 && match &tokens[5] {
        Token::Punct(c) => *c == ';',
        _ => false,
    };
    let mut modifiers: Vec<Modifier> = Vec::new();
    let fields_from: usize;
    if semi_next {
        fields_from = 6;
    } else {
        let with_kw = tokens.len() > 5 && match &tokens[5] {
            Token::Ident(s) => text_eq(s.as_str(), "with"),
            _ => false,
        };
        if !with_kw {
            return Err(ParseError::MissingWith);
        }
        match parse_modifiers(tokens, 6) {
            Err(e) => {
                return Err(e);
            },
            Ok((ms, q)) => {
                if !(q < tokens.len() && match &tokens[q] {
                    Token::Punct(c) => *c == ';',
                    _ => false,
                }) {
                    return Err(ParseError::MissingSemicolon);
                }
                modifiers = ms;
                fields_from = q + 1;
            },
        }
    }
    match parse_properties(tokens, fields_from) {
        Err(e) => Err(e),
        Ok((props, pend)) => {
            let c = ComponentData { name, property_id, props, modifiers };
            Ok((c, pend))
        },
    }
}

} // verus!
