//! Rendering of the construction expression an object literal expands to.
//!
//! A struct literal becomes a construction expression that lists the bound
//! properties and fills every other field from the type's default provider;
//! a vector literal becomes an ordered `vec!` of its expanded elements; a
//! `via` literal becomes a zero-argument factory call. A trailing `!`
//! appends the uniform finalize call. A property value is first converted
//! under the `$` sigil and then wrapped in `Some` under the `+` sigil.

use crate::emit_text::tokens_text;
use crate::text::push_char;
use crate::viola::{
    decl_view, Property, PropertyViewV, PropV, ViolaDeclaration, ViolaV,
};
use vstd::prelude::*;
use vstd::string::StringExecFns;

verus! {

/// The finalize call a trailing `!` asks for.
pub open spec fn build_suffix(b: bool) -> Seq<char> {
    if b {
        ".build()"@
    } else {
        Seq::<char>::empty()
    }
}

/// A property value with its sigils applied: converted first, wrapped in
/// `Some` second.
pub open spec fn wrapped_value(pr: PropV, inner: Seq<char>) -> Seq<char> {
    let converted = if pr.wrap_in_into {
        seq!['('] + inner + ").into()"@
    } else {
        inner
    };
    if pr.wrap_in_some {
        "Some("@ + converted + seq![')']
    } else {
        converted
    }
}

/// The expansion of one literal.
pub open spec fn viola_source(v: ViolaV) -> Seq<char>
    decreases v, 0int,
{
    match v {
        ViolaV::Struct(d, props) => d.ident + " { "@ + props_source(props)
            + "..ViolaDefault::viola_default() }"@ + build_suffix(d.should_build),
        ViolaV::Vector(es) => "vec!["@ + list_source(es) + seq![']'],
        ViolaV::ViaStmt(d, f) => d.ident + "::"@ + f + "()"@ + build_suffix(d.should_build),
    }
}

/// The expansions of a vector's elements, in their order, comma separated.
pub open spec fn list_source(es: Seq<ViolaV>) -> Seq<char>
    decreases es, 1int,
{
    if es.len() == 0 {
        Seq::empty()
    } else if es.len() == 1 {
        viola_source(es[0])
    } else {
        viola_source(es[0]) + ", "@ + list_source(es.subrange(1, es.len() as int))
    }
}

/// The bound properties of a struct literal, each followed by a comma, so
/// that the default-fill spread closes the list.
pub open spec fn props_source(ps: Seq<PropertyViewV>) -> Seq<char>
    decreases ps, 1int,
{
    if ps.len() == 0 {
        Seq::empty()
    } else {
        prop_source(ps[0]) + ", "@ + props_source(ps.subrange(1, ps.len() as int))
    }
}

/// One bound property: its name and its value with the sigils applied.
pub open spec fn prop_source(p: PropertyViewV) -> Seq<char>
    decreases p, 0int,
{
    match p {
        PropertyViewV::Expr(pr, ts) => pr.ident + ": "@ + wrapped_value(pr, tokens_text(ts)),
        PropertyViewV::Viola(pr, vd) => pr.ident + ": "@ + wrapped_value(pr, viola_source(vd)),
    }
}

fn push_tokens(s: &mut String, ts: &Vec<crate::tokens::Token>, from: usize)
    requires
        from <= ts@.len(),
    ensures
        final(s)@ == old(s)@ + tokens_text(ts@.subrange(from as int, ts@.len() as int)),
    decreases ts@.len() - from,
{
    if from < ts.len() {
        match &ts[from] {
            crate::tokens::Token::Ident(t) => s.append(t.as_str()),
            crate::tokens::Token::Lit(t) => s.append(t.as_str()),
            crate::tokens::Token::Punct(c) => push_char(s, *c),
        }
        let ghost rest = ts@.subrange(from as int, ts@.len() as int);
        if from + 1 < ts.len() {
            push_char(s, ' ');
            push_tokens(s, ts, from + 1);
            proof {
                assert(rest[0] == ts@[from as int]);
                assert(rest.subrange(1, rest.len() as int) =~= ts@.subrange(
                    from as int + 1,
                    ts@.len() as int,
                ));
                assert(final(s)@ =~= old(s)@ + tokens_text(rest));
            }
        } else {
            proof {
                assert(rest.len() == 1);
                assert(rest[0] == ts@[from as int]);
            }
        }
    }
}

/// Appends the expansion of one literal.
pub fn push_viola_source(s: &mut String, v: &ViolaDeclaration)
    ensures
        final(s)@ == old(s)@ + viola_source(v@),
    decreases *v, 0int,
{
    match v {
        ViolaDeclaration::Struct(d, props) => {
            proof {
                reveal_strlit(" { ");
                reveal_strlit("..ViolaDefault::viola_default() }");
                reveal_strlit(".build()");
            }
            s.append(d.ident.as_str());
            s.append(" { ");
            push_props_source(s, props, 0);
            s.append("..ViolaDefault::viola_default() }");
            if d.should_build {
                s.append(".build()");
            }
            proof {
                lemma_property_views_len(props@);
                assert(crate::viola::property_views(props@).subrange(0, props@.len() as int)
                    =~= crate::viola::property_views(props@));
                assert(viola_source(v@) == decl_view(*d).ident + " { "@ + props_source(
                    crate::viola::property_views(props@),
                ) + "..ViolaDefault::viola_default() }"@ + build_suffix(d.should_build));
                assert(final(s)@ =~= old(s)@ + viola_source(v@));
            }
        },
        ViolaDeclaration::Vector(es) => {
            proof {
                reveal_strlit("vec![");
            }
            s.append("vec![");
            push_list_source(s, es, 0);
            push_char(s, ']');
            proof {
                lemma_viola_views_len(es@);
                assert(crate::viola::viola_views(es@).subrange(0, es@.len() as int)
                    =~= crate::viola::viola_views(es@));
                assert(final(s)@ =~= old(s)@ + viola_source(v@));
            }
        },
        ViolaDeclaration::ViaStmt(d, f) => {
            proof {
                reveal_strlit("::");
                reveal_strlit("()");
                reveal_strlit(".build()");
            }
            s.append(d.ident.as_str());
            s.append("::");
            s.append(f.as_str());
            s.append("()");
            if d.should_build {
                s.append(".build()");
            }
            proof {
                assert(final(s)@ =~= old(s)@ + viola_source(v@));
            }
        },
    }
}

fn push_list_source(s: &mut String, es: &Vec<ViolaDeclaration>, from: usize)
    requires
        from <= es@.len(),
    ensures
        final(s)@ == old(s)@ + list_source(
            crate::viola::viola_views(es@).subrange(from as int, es@.len() as int),
        ),
    decreases *es, 1int, es@.len() - from,
{
    let ghost views = crate::viola::viola_views(es@);
    proof {
        lemma_viola_views_len(es@);
        lemma_viola_views_index(es@, from as int);
    }
    let ghost rest = views.subrange(from as int, es@.len() as int);
    if from < es.len() {
        push_viola_source(s, &es[from]);
        if from + 1 < es.len() {
            s.append(", ");
            push_list_source(s, es, from + 1);
            proof {
                assert(rest[0] == views[from as int]);
                assert(rest.subrange(1, rest.len() as int) =~= views.subrange(
                    from as int + 1,
                    es@.len() as int,
                ));
                assert(final(s)@ =~= old(s)@ + list_source(rest));
            }
        } else {
            proof {
                assert(rest.len() == 1);
                assert(rest[0] == views[from as int]);
            }
        }
    } else {
        proof {
            assert(rest =~= Seq::<ViolaV>::empty());
        }
    }
}

fn push_props_source(s: &mut String, ps: &Vec<Property>, from: usize)
    requires
        from <= ps@.len(),
    ensures
        final(s)@ == old(s)@ + props_source(
            crate::viola::property_views(ps@).subrange(from as int, ps@.len() as int),
        ),
    decreases *ps, 1int, ps@.len() - from,
{
    let ghost views = crate::viola::property_views(ps@);
    proof {
        lemma_property_views_len(ps@);
        lemma_property_views_index(ps@, from as int);
    }
    let ghost rest = views.subrange(from as int, ps@.len() as int);
    if from < ps.len() {
        push_prop_source(s, &ps[from]);
        s.append(", ");
        push_props_source(s, ps, from + 1);
        proof {
            assert(rest[0] == views[from as int]);
            assert(rest.subrange(1, rest.len() as int) =~= views.subrange(
                from as int + 1,
                ps@.len() as int,
            ));
            assert(final(s)@ =~= old(s)@ + props_source(rest));
        }
    } else {
        proof {
            assert(rest =~= Seq::<PropertyViewV>::empty());
        }
    }
}

fn push_prop_source(s: &mut String, p: &Property)
    ensures
        final(s)@ == old(s)@ + prop_source(p@),
    decreases *p, 2int,
{
    proof {
        reveal_strlit(": ");
        reveal_strlit("Some(");
        reveal_strlit(").into()");
    }
    match p {
        Property::Expr(pr, ts) => {
            s.append(pr.ident.as_str());
            s.append(": ");
            if pr.wrap_in_some {
                s.append("Some(");
            }
            if pr.wrap_in_into {
                push_char(s, '(');
            }
            push_tokens(s, ts, 0);
            if pr.wrap_in_into {
                s.append(").into()");
            }
            if pr.wrap_in_some {
                push_char(s, ')');
            }
            proof {
                assert(ts@.subrange(0, ts@.len() as int) =~= ts@);
                assert(final(s)@ =~= old(s)@ + prop_source(p@));
            }
        },
        Property::Viola(pr, vd) => {
            s.append(pr.ident.as_str());
            s.append(": ");
            if pr.wrap_in_some {
                s.append("Some(");
            }
            if pr.wrap_in_into {
                push_char(s, '(');
            }
            push_viola_source(s, vd);
            if pr.wrap_in_into {
                s.append(").into()");
            }
            if pr.wrap_in_some {
                push_char(s, ')');
            }
            proof {
                assert(final(s)@ =~= old(s)@ + prop_source(p@));
            }
        },
    }
}

proof fn lemma_viola_views_len(es: Seq<ViolaDeclaration>)
    ensures
        crate::viola::viola_views(es).len() == es.len(),
    decreases es.len(),
{
    if es.len() > 0 {
        lemma_viola_views_len(es.subrange(1, es.len() as int));
    }
}

proof fn lemma_viola_views_index(es: Seq<ViolaDeclaration>, i: int)
    ensures
        0 <= i < es.len() ==> crate::viola::viola_views(es)[i] == crate::viola::viola_view(es[i]),
    decreases es.len(),
{
    lemma_viola_views_len(es);
    if es.len() > 0 && 0 < i < es.len() {
        lemma_viola_views_index(es.subrange(1, es.len() as int), i - 1);
        lemma_viola_views_len(es.subrange(1, es.len() as int));
    }
}

proof fn lemma_property_views_len(ps: Seq<Property>)
    ensures
        crate::viola::property_views(ps).len() == ps.len(),
    decreases ps.len(),
{
    if ps.len() > 0 {
        lemma_property_views_len(ps.subrange(1, ps.len() as int));
    }
}

proof fn lemma_property_views_index(ps: Seq<Property>, i: int)
    ensures
        0 <= i < ps.len() ==> crate::viola::property_views(ps)[i] == crate::viola::property_view(
            ps[i],
        ),
    decreases ps.len(),
{
    lemma_property_views_len(ps);
    if ps.len() > 0 && 0 < i < ps.len() {
        lemma_property_views_index(ps.subrange(1, ps.len() as int), i - 1);
        lemma_property_views_len(ps.subrange(1, ps.len() as int));
    }
}

/// Renders the expansion of one literal on its own.
pub fn render_viola_source(v: &ViolaDeclaration) -> (r: String)
    ensures
        r@ == viola_source(v@),
{
    let mut s = String::new();
    push_viola_source(&mut s, v);
    assert(s@ =~= viola_source(v@));
    s
}

/// A vector literal of two elements expands to an ordered pair: the
/// expansions of its elements in the order they were written, inside one
/// sequence literal.
pub proof fn lemma_vector_ordering(a: ViolaV, b: ViolaV)
    ensures
        viola_source(ViolaV::Vector(seq![a, b])) == "vec!["@ + viola_source(a) + ", "@
            + viola_source(b) + seq![']'],
{
    let es = seq![a, b];
    assert(es.subrange(1, 2) =~= seq![b]);
    assert(list_source(seq![b]) == viola_source(b));
    assert(list_source(es) == viola_source(a) + ", "@ + viola_source(b));
}

} // verus!
