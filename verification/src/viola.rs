//! The object-literal grammar: a struct literal with partially bound
//! fields, a vector of literals, or a `Type via factory` shorthand, each
//! optionally finalized by a trailing `!`.
//!
//! ```text
//! Literal  := "vector" "[" (Literal ("," Literal)*)? "]"
//!           | Ident "via" Ident "!"?
//!           | "@"? Ident "{" (Property ("," Property)*)? "}" "!"?
//! Property := Ident "=" "+"? "$"? (Expr | "@" Literal)
//! ```
//!
//! As in the component grammar, the parser exists twice: spec functions
//! define the grammar, executable code is proved to match them. The spec
//! parser carries a recursion allowance; the entry point hands it one large
//! enough for any input it accepts.

use crate::component::{Parsed, ParseError};
use crate::tokens::{clone_token_range, text_eq, Token};
use vstd::prelude::*;

verus! {

/// The head of a literal: the target type and whether the trailing `!`
/// asks for the finalize call.
#[derive(Debug)]
pub struct Declaration {
    pub ident: String,
    pub should_build: bool,
}

/// The sigils of one property binding: `$` converts the value into the
/// field's type, `+` wraps it in `Some`.
#[derive(Debug)]
pub struct Prop {
    pub ident: String,
    pub wrap_in_into: bool,
    pub wrap_in_some: bool,
}

/// One parsed object literal.
#[derive(Debug)]
pub enum ViolaDeclaration {
    Struct(Declaration, Vec<Property>),
    Vector(Vec<ViolaDeclaration>),
    ViaStmt(Declaration, String),
}

/// One property binding: an expression value, or a nested literal marked
/// by `@`.
#[derive(Debug)]
pub enum Property {
    Expr(Prop, Vec<Token>),
    Viola(Prop, ViolaDeclaration),
}

/// The mathematical shape of a literal head.
pub ghost struct DeclarationV {
    pub ident: Seq<char>,
    pub should_build: bool,
}

/// The mathematical shape of a binding's sigils.
pub ghost struct PropV {
    pub ident: Seq<char>,
    pub wrap_in_into: bool,
    pub wrap_in_some: bool,
}

/// The mathematical shape of a literal.
pub ghost enum ViolaV {
    Struct(DeclarationV, Seq<PropertyViewV>),
    Vector(Seq<ViolaV>),
    ViaStmt(DeclarationV, Seq<char>),
}

/// The mathematical shape of a property binding.
pub ghost enum PropertyViewV {
    Expr(PropV, Seq<Token>),
    Viola(PropV, ViolaV),
}

pub open spec fn decl_view(d: Declaration) -> DeclarationV {
    DeclarationV { ident: d.ident@, should_build: d.should_build }
}

pub open spec fn prop_view(p: Prop) -> PropV {
    PropV { ident: p.ident@, wrap_in_into: p.wrap_in_into, wrap_in_some: p.wrap_in_some }
}

/// The shape of a literal.
pub open spec fn viola_view(v: ViolaDeclaration) -> ViolaV
    decreases v, 0int,
{
    match v {
        ViolaDeclaration::Struct(d, props) => ViolaV::Struct(decl_view(d), property_views(props@)),
        ViolaDeclaration::Vector(es) => ViolaV::Vector(viola_views(es@)),
        ViolaDeclaration::ViaStmt(d, f) => ViolaV::ViaStmt(decl_view(d), f@),
    }
}

/// The shapes of a sequence of literals.
pub open spec fn viola_views(es: Seq<ViolaDeclaration>) -> Seq<ViolaV>
    decreases es, 1int,
{
    if es.len() == 0 {
        Seq::empty()
    } else {
        seq![viola_view(es[0])] + viola_views(es.subrange(1, es.len() as int))
    }
}

/// The shape of one property binding.
pub open spec fn property_view(p: Property) -> PropertyViewV
    decreases p, 0int,
{
    match p {
        Property::Expr(pr, ts) => PropertyViewV::Expr(prop_view(pr), ts@),
        Property::Viola(pr, vd) => PropertyViewV::Viola(prop_view(pr), viola_view(vd)),
    }
}

/// The shapes of a sequence of property bindings.
pub open spec fn property_views(ps: Seq<Property>) -> Seq<PropertyViewV>
    decreases ps, 1int,
{
    if ps.len() == 0 {
        Seq::empty()
    } else {
        seq![property_view(ps[0])] + property_views(ps.subrange(1, ps.len() as int))
    }
}

impl View for ViolaDeclaration {
    type V = ViolaV;

    open spec fn view(&self) -> ViolaV {
        viola_view(*self)
    }
}

impl View for Property {
    type V = PropertyViewV;

    open spec fn view(&self) -> PropertyViewV {
        property_view(*self)
    }
}

/// How a token changes the bracket depth of an expression.
pub open spec fn expr_delta(t: Token) -> int {
    if t.is_punct_char('(') || t.is_punct_char('[') || t.is_punct_char('{') {
        1
    } else if t.is_punct_char(')') || t.is_punct_char(']') || t.is_punct_char('}') {
        -1
    } else {
        0
    }
}

/// The end of an expression value: the first `,`, `}` or `]` at bracket
/// depth zero, which stays unconsumed.
pub open spec fn sp_expr_end(tk: Seq<Token>, p: int, depth: int) -> Option<int>
    decreases tk.len() - p,
{
    if !(0 <= p < tk.len()) {
        None
    } else if depth == 0 && (tk[p].is_punct_char(',') || tk[p].is_punct_char('}')
        || tk[p].is_punct_char(']')) {
        Some(p)
    } else {
        let d = depth + expr_delta(tk[p]);
        if d < 0 {
            None
        } else {
            sp_expr_end(tk, p + 1, d)
        }
    }
}

/// One literal, starting at `p`, with the given recursion allowance.
pub open spec fn sp_viola(tk: Seq<Token>, p: int, fuel: nat) -> Parsed<ViolaV>
    decreases fuel,
{
    if fuel == 0 {
        Parsed::Fail(ParseError::TooDeep)
    } else {
        let f = (fuel - 1) as nat;
        if 0 <= p < tk.len() && tk[p].is_ident_text("vector"@) {
            if p + 1 < tk.len() && tk[p + 1].is_punct_char('[') {
                match sp_viola_list(tk, p + 2, f) {
                    Parsed::Fail(e) => Parsed::Fail(e),
                    Parsed::Done(es, q) => {
                        if 0 <= q < tk.len() && tk[q].is_punct_char(']') {
                            Parsed::Done(ViolaV::Vector(es), q + 1)
                        } else {
                            Parsed::Fail(ParseError::MissingBracket)
                        }
                    },
                }
            } else {
                Parsed::Fail(ParseError::MissingBracket)
            }
        } else if 0 <= p && p + 1 < tk.len() && tk[p + 1].is_ident_text("via"@) {
            if tk[p] is Ident {
                if p + 2 < tk.len() && tk[p + 2] is Ident {
                    let bang = p + 3 < tk.len() && tk[p + 3].is_punct_char('!');
                    Parsed::Done(
                        ViolaV::ViaStmt(
                            DeclarationV { ident: tk[p]->Ident_0@, should_build: bang },
                            tk[p + 2]->Ident_0@,
                        ),
                        if bang {
                            p + 4
                        } else {
                            p + 3
                        },
                    )
                } else {
                    Parsed::Fail(ParseError::MissingName)
                }
            } else {
                Parsed::Fail(ParseError::MissingName)
            }
        } else {
            let p1 = if 0 <= p < tk.len() && tk[p].is_punct_char('@') {
                p + 1
            } else {
                p
            };
            if 0 <= p1 < tk.len() && tk[p1] is Ident {
                if p1 + 1 < tk.len() && tk[p1 + 1].is_punct_char('{') {
                    match sp_props(tk, p1 + 2, f) {
                        Parsed::Fail(e) => Parsed::Fail(e),
                        Parsed::Done(ps, q) => {
                            if 0 <= q < tk.len() && tk[q].is_punct_char('}') {
                                let bang = q + 1 < tk.len() && tk[q + 1].is_punct_char('!');
                                Parsed::Done(
                                    ViolaV::Struct(
                                        DeclarationV { ident: tk[p1]->Ident_0@, should_build: bang },
                                        ps,
                                    ),
                                    if bang {
                                        q + 2
                                    } else {
                                        q + 1
                                    },
                                )
                            } else {
                                Parsed::Fail(ParseError::MissingBrace)
                            }
                        },
                    }
                } else {
                    Parsed::Fail(ParseError::MissingBrace)
                }
            } else {
                Parsed::Fail(ParseError::MissingName)
            }
        }
    }
}

/// The comma-separated literals of a vector, ending before `]`. A trailing
/// comma is allowed.
pub open spec fn sp_viola_list(tk: Seq<Token>, p: int, fuel: nat) -> Parsed<Seq<ViolaV>>
    decreases fuel,
{
    if fuel == 0 {
        Parsed::Fail(ParseError::TooDeep)
    } else {
        let f = (fuel - 1) as nat;
        if 0 <= p < tk.len() && tk[p].is_punct_char(']') {
            Parsed::Done(Seq::empty(), p)
        } else {
            match sp_viola(tk, p, f) {
                Parsed::Fail(e) => Parsed::Fail(e),
                Parsed::Done(v, q) => {
                    if 0 <= q < tk.len() && tk[q].is_punct_char(',') {
                        match sp_viola_list(tk, q + 1, f) {
                            Parsed::Fail(e) => Parsed::Fail(e),
                            Parsed::Done(vs, r) => Parsed::Done(seq![v] + vs, r),
                        }
                    } else {
                        Parsed::Done(seq![v], q)
                    }
                },
            }
        }
    }
}

/// The comma-separated property bindings of a struct literal, ending
/// before `}`. A trailing comma is allowed.
pub open spec fn sp_props(tk: Seq<Token>, p: int, fuel: nat) -> Parsed<Seq<PropertyViewV>>
    decreases fuel,
{
    if fuel == 0 {
        Parsed::Fail(ParseError::TooDeep)
    } else {
        let f = (fuel - 1) as nat;
        if 0 <= p < tk.len() && tk[p].is_punct_char('}') {
            Parsed::Done(Seq::empty(), p)
        } else {
            match sp_prop(tk, p, f) {
                Parsed::Fail(e) => Parsed::Fail(e),
                Parsed::Done(v, q) => {
                    if 0 <= q < tk.len() && tk[q].is_punct_char(',') {
                        match sp_props(tk, q + 1, f) {
                            Parsed::Fail(e) => Parsed::Fail(e),
                            Parsed::Done(vs, r) => Parsed::Done(seq![v] + vs, r),
                        }
                    } else {
                        Parsed::Done(seq![v], q)
                    }
                },
            }
        }
    }
}

/// One property binding: name, `=`, the sigils with `+` before `$`, then a
/// nested literal after `@` or an expression.
pub open spec fn sp_prop(tk: Seq<Token>, p: int, fuel: nat) -> Parsed<PropertyViewV>
    decreases fuel,
{
    if fuel == 0 {
        Parsed::Fail(ParseError::TooDeep)
    } else {
        let f = (fuel - 1) as nat;
        if 0 <= p < tk.len() && tk[p] is Ident {
            if p + 1 < tk.len() && tk[p + 1].is_punct_char('=') {
                let r0 = p + 2;
                let some = r0 < tk.len() && tk[r0].is_punct_char('+');
                let r1 = if some {
                    r0 + 1
                } else {
                    r0
                };
                let into = r1 < tk.len() && tk[r1].is_punct_char('$');
                let r2 = if into {
                    r1 + 1
                } else {
                    r1
                };
                let prop = PropV { ident: tk[p]->Ident_0@, wrap_in_into: into, wrap_in_some: some };
                if r2 < tk.len() && tk[r2].is_punct_char('@') {
                    match sp_viola(tk, r2 + 1, f) {
                        Parsed::Fail(e) => Parsed::Fail(e),
                        Parsed::Done(v, q) => Parsed::Done(PropertyViewV::Viola(prop, v), q),
                    }
                } else {
                    match sp_expr_end(tk, r2, 0) {
                        None => Parsed::Fail(ParseError::MissingExpr),
                        Some(e) => {
                            if e == r2 {
                                Parsed::Fail(ParseError::MissingExpr)
                            } else {
                                Parsed::Done(
                                    PropertyViewV::Expr(prop, tk.subrange(r2, e)),
                                    e,
                                )
                            }
                        },
                    }
                }
            } else {
                Parsed::Fail(ParseError::MissingEquals)
            }
        } else {
            Parsed::Fail(ParseError::MissingName)
        }
    }
}

/// The recursion allowance that suffices for any token sequence.
pub open spec fn viola_fuel(tk: Seq<Token>) -> nat {
    2 * tk.len() + 4
}

/// Finds the end of an expression value starting at `start`.
fn find_expr_end(tokens: &Vec<Token>, start: usize) -> (r: Option<usize>)
    requires
        start <= tokens@.len(),
    ensures
        match r {
            Some(q) => sp_expr_end(tokens@, start as int, 0) == Some(q as int) && start <= q
                < tokens@.len(),
            None => sp_expr_end(tokens@, start as int, 0) is None,
        },
{
    let mut p: usize = start;
    let mut depth: usize = 0;
    loop
        invariant
            start <= p <= tokens@.len(),
            depth <= p - start,
            sp_expr_end(tokens@, start as int, 0) == sp_expr_end(tokens@, p as int, depth as int),
        decreases tokens@.len() - p,
    {
        if p >= tokens.len() {
            return None;
        }
        let deeper: i32 = match &tokens[p] {
            Token::Punct(c) => {
                if *c == '(' || *c == '[' || *c == '{' {
                    1
                } else if *c == ')' || *c == ']' || *c == '}' {
                    -1
                } else {
                    0
                }
            },
            _ => 0,
        };
        proof {
            assert(deeper as int == expr_delta(tokens@[p as int]));
        }
        if depth == 0 {
            let ends = match &tokens[p] {
                Token::Punct(c) => *c == ',' || *c == '}' || *c == ']',
                _ => false,
            };
            if ends {
                return Some(p);
            }
        }
        if deeper < 0 {
            if depth == 0 {
                return None;
            }
            depth = depth - 1;
        } else if deeper > 0 {
            depth = depth + 1;
        }
        p = p + 1;
    }
}

fn is_punct_at(tokens: &Vec<Token>, p: usize, c: char) -> (r: bool)
    ensures
        r == (p < tokens@.len() && tokens@[p as int].is_punct_char(c)),
{
    p < tokens.len() && match &tokens[p] {
        Token::Punct(d) => *d == c,
        _ => false,
    }
}

fn ex_viola(tokens: &Vec<Token>, p: usize, fuel: usize) -> (r: Result<
    (ViolaDeclaration, usize),
    ParseError,
>)
    requires
        p <= tokens@.len(),
        tokens@.len() <= 1000000000,
    ensures
        match r {
            Ok((v, q)) => sp_viola(tokens@, p as int, fuel as nat) == Parsed::Done(v@, q as int)
                && q <= tokens@.len(),
            Err(e) => sp_viola(tokens@, p as int, fuel as nat) == Parsed::<ViolaV>::Fail(e),
        },
    decreases fuel, 0int,
{
    if fuel == 0 {
        return Err(ParseError::TooDeep);
    }
    let f = fuel - 1;
    if p >= tokens.len() {
        return Err(ParseError::MissingName);
    }
    let vector_kw = p < tokens.len() && match &tokens[p] {
        Token::Ident(s) => text_eq(s.as_str(), "vector"),
        _ => false,
    };
    if vector_kw {
        if !is_punct_at(tokens, p + 1, '[') {
            return Err(ParseError::MissingBracket);
        }
        match ex_viola_list(tokens, p + 2, f) {
            Err(e) => Err(e),
            Ok((es, q)) => {
                if is_punct_at(tokens, q, ']') {
                    Ok((ViolaDeclaration::Vector(es), q + 1))
                } else {
                    Err(ParseError::MissingBracket)
                }
            },
        }
    } else {
        let via_kw = p + 1 < tokens.len() && match &tokens[p + 1] {
            Token::Ident(s) => text_eq(s.as_str(), "via"),
            _ => false,
        };
        if via_kw {
            let ident: String = match &tokens[p] {
                Token::Ident(s) => s.clone(),
                _ => {
                    return Err(ParseError::MissingName);
                },
            };
            if !(p + 2 < tokens.len()) {
                return Err(ParseError::MissingName);
            }
            let func: String = match &tokens[p + 2] {
                Token::Ident(s) => s.clone(),
                _ => {
                    return Err(ParseError::MissingName);
                },
            };
            let bang = is_punct_at(tokens, p + 3, '!');
            let d = Declaration { ident, should_build: bang };
            if bang {
                Ok((ViolaDeclaration::ViaStmt(d, func), p + 4))
            } else {
                Ok((ViolaDeclaration::ViaStmt(d, func), p + 3))
            }
        } else {
            let p1 = if is_punct_at(tokens, p, '@') {
                p + 1
            } else {
                p
            };
            if !(p1 < tokens.len()) {
                return Err(ParseError::MissingName);
            }
            let ident: String = match &tokens[p1] {
                Token::Ident(s) => s.clone(),
                _ => {
                    return Err(ParseError::MissingName);
                },
            };
            if !is_punct_at(tokens, p1 + 1, '{') {
                return Err(ParseError::MissingBrace);
            }
            match ex_props(tokens, p1 + 2, f) {
                Err(e) => Err(e),
                Ok((ps, q)) => {
                    if is_punct_at(tokens, q, '}') {
                        let bang = is_punct_at(tokens, q + 1, '!');
                        let d = Declaration { ident, should_build: bang };
                        if bang {
                            Ok((ViolaDeclaration::Struct(d, ps), q + 2))
                        } else {
                            Ok((ViolaDeclaration::Struct(d, ps), q + 1))
                        }
                    } else {
                        Err(ParseError::MissingBrace)
                    }
                },
            }
        }
    }
}

fn ex_viola_list(tokens: &Vec<Token>, p: usize, fuel: usize) -> (r: Result<
    (Vec<ViolaDeclaration>, usize),
    ParseError,
>)
    requires
        p <= tokens@.len(),
        tokens@.len() <= 1000000000,
    ensures
        match r {
            Ok((es, q)) => sp_viola_list(tokens@, p as int, fuel as nat) == Parsed::Done(
                viola_views(es@),
                q as int,
            ) && q <= tokens@.len(),
            Err(e) => sp_viola_list(tokens@, p as int, fuel as nat) == Parsed::<
                Seq<ViolaV>,
            >::Fail(e),
        },
    decreases fuel, 1int,
{
    if fuel == 0 {
        return Err(ParseError::TooDeep);
    }
    let f = fuel - 1;
    if is_punct_at(tokens, p, ']') {
        let empty: Vec<ViolaDeclaration> = Vec::new();
        proof {
            assert(viola_views(empty@) =~= Seq::<ViolaV>::empty());
        }
        return Ok((empty, p));
    }
    match ex_viola(tokens, p, f) {
        Err(e) => Err(e),
        Ok((v, q)) => {
            if is_punct_at(tokens, q, ',') {
                match ex_viola_list(tokens, q + 1, f) {
                    Err(e) => Err(e),
                    Ok((es, r2)) => {
                        let ghost es0 = es@;
                        let ghost vv = v@;
                        let mut out = es;
                        out.insert(0, v);
                        proof {
                            assert(out@ =~= seq![out@[0]] + es0);
                            assert(out@.subrange(1, out@.len() as int) =~= es0);
                            assert(viola_views(out@) == seq![viola_view(out@[0])] + viola_views(
                                es0,
                            ));
                            assert(viola_views(out@) =~= seq![vv] + viola_views(es0));
                        }
                        Ok((out, r2))
                    },
                }
            } else {
                let ghost vv = v@;
                let mut out: Vec<ViolaDeclaration> = Vec::new();
                out.push(v);
                proof {
                    assert(out@.subrange(1, out@.len() as int) =~= Seq::<ViolaDeclaration>::empty());
                    assert(viola_views(Seq::<ViolaDeclaration>::empty()) == Seq::<ViolaV>::empty());
                    assert(viola_views(out@) == seq![viola_view(out@[0])] + Seq::<ViolaV>::empty());
                    assert(viola_views(out@) =~= seq![vv]);
                }
                Ok((out, q))
            }
        },
    }
}

fn ex_props(tokens: &Vec<Token>, p: usize, fuel: usize) -> (r: Result<
    (Vec<Property>, usize),
    ParseError,
>)
    requires
        p <= tokens@.len(),
        tokens@.len() <= 1000000000,
    ensures
        match r {
            Ok((ps, q)) => sp_props(tokens@, p as int, fuel as nat) == Parsed::Done(
                property_views(ps@),
                q as int,
            ) && q <= tokens@.len(),
            Err(e) => sp_props(tokens@, p as int, fuel as nat) == Parsed::<
                Seq<PropertyViewV>,
            >::Fail(e),
        },
    decreases fuel, 1int,
{
    if fuel == 0 {
        return Err(ParseError::TooDeep);
    }
    let f = fuel - 1;
    if is_punct_at(tokens, p, '}') {
        let empty: Vec<Property> = Vec::new();
        proof {
            assert(property_views(empty@) =~= Seq::<PropertyViewV>::empty());
        }
        return Ok((empty, p));
    }
    match ex_prop(tokens, p, f) {
        Err(e) => Err(e),
        Ok((v, q)) => {
            if is_punct_at(tokens, q, ',') {
                match ex_props(tokens, q + 1, f) {
                    Err(e) => Err(e),
                    Ok((ps, r2)) => {
                        let ghost ps0 = ps@;
                        let ghost vv = v@;
                        let mut out = ps;
                        out.insert(0, v);
                        proof {
                            assert(out@ =~= seq![out@[0]] + ps0);
                            assert(out@.subrange(1, out@.len() as int) =~= ps0);
                            assert(property_views(out@) == seq![property_view(out@[0])]
                                + property_views(ps0));
                            assert(property_views(out@) =~= seq![vv] + property_views(ps0));
                        }
                        Ok((out, r2))
                    },
                }
            } else {
                let ghost vv = v@;
                let mut out: Vec<Property> = Vec::new();
                out.push(v);
                proof {
                    assert(out@.subrange(1, out@.len() as int) =~= Seq::<Property>::empty());
                    assert(property_views(Seq::<Property>::empty()) == Seq::<PropertyViewV>::empty());
                    assert(property_views(out@) == seq![property_view(out@[0])] + Seq::<
                        PropertyViewV,
                    >::empty());
                    assert(property_views(out@) =~= seq![vv]);
                }
                Ok((out, q))
            }
        },
    }
}

fn ex_prop(tokens: &Vec<Token>, p: usize, fuel: usize) -> (r: Result<(Property, usize), ParseError>)
    requires
        p <= tokens@.len(),
        tokens@.len() <= 1000000000,
    ensures
        match r {
            Ok((v, q)) => sp_prop(tokens@, p as int, fuel as nat) == Parsed::Done(v@, q as int)
                && q <= tokens@.len(),
            Err(e) => sp_prop(tokens@, p as int, fuel as nat) == Parsed::<PropertyViewV>::Fail(e),
        },
    decreases fuel, 0int,
{
    if fuel == 0 {
        return Err(ParseError::TooDeep);
    }
    let f = fuel - 1;
    if !(p < tokens.len()) {
        return Err(ParseError::MissingName);
    }
    let ident: String = match &tokens[p] {
        Token::Ident(s) => s.clone(),
        _ => {
            return Err(ParseError::MissingName);
        },
    };
    if !is_punct_at(tokens, p + 1, '=') {
        return Err(ParseError::MissingEquals);
    }
    let r0 = p + 2;
    let some = is_punct_at(tokens, r0, '+');
    let r1 = if some {
        r0 + 1
    } else {
        r0
    };
    let into = is_punct_at(tokens, r1, '$');
    let r2 = if into {
        r1 + 1
    } else {
        r1
    };
    let prop = Prop { ident, wrap_in_into: into, wrap_in_some: some };
    if is_punct_at(tokens, r2, '@') {
        proof {
            assert(r2 + 1 <= tokens@.len());
        }
        match ex_viola(tokens, r2 + 1, f) {
            Err(e) => Err(e),
            Ok((v, q)) => Ok((Property::Viola(prop, v), q)),
        }
    } else {
        if r2 > tokens.len() {
            return Err(ParseError::MissingExpr);
        }
        match find_expr_end(tokens, r2) {
            None => Err(ParseError::MissingExpr),
            Some(e) => {
                if e == r2 {
                    Err(ParseError::MissingExpr)
                } else {
                    let ts = clone_token_range(tokens, r2, e);
                    Ok((Property::Expr(prop, ts), e))
                }
            },
        }
    }
}

/// Parses a whole object literal, reporting how many tokens it consumed.
pub fn parse_viola(tokens: &Vec<Token>) -> (r: Result<(ViolaDeclaration, usize), ParseError>)
    requires
        tokens@.len() <= 1000000000,
    ensures
        match r {
            Ok((v, q)) => sp_viola(tokens@, 0, viola_fuel(tokens@)) == Parsed::Done(v@, q as int)
                && q <= tokens@.len(),
            Err(e) => sp_viola(tokens@, 0, viola_fuel(tokens@)) == Parsed::<ViolaV>::Fail(e),
        },
{
    let fuel: usize = 2 * tokens.len() + 4;
    ex_viola(tokens, 0, fuel)
}

} // verus!
