//! Rendering of the source text a component declaration expands to: the
//! annotated record type, its serialization impl, the constructor and the
//! fluent mutators. The spec functions define the emitted text exactly; the
//! renderer is proved to produce it.

use crate::component::{ComponentData, Modifier, PropertyV};
use crate::emit::has_modifier;
use crate::text::push_char;
use crate::tokens::Token;
use vstd::prelude::*;
use vstd::string::StringExecFns;

verus! {

/// The text of one token.
pub open spec fn token_text(t: Token) -> Seq<char> {
    match t {
        Token::Ident(s) => s@,
        Token::Lit(s) => s@,
        Token::Punct(c) => seq![c],
    }
}

/// A type expression re-emitted verbatim: its tokens, space separated.
pub open spec fn tokens_text(ts: Seq<Token>) -> Seq<char>
    decreases ts.len(),
{
    if ts.len() == 0 {
        Seq::empty()
    } else if ts.len() == 1 {
        token_text(ts[0])
    } else {
        token_text(ts[0]) + seq![' '] + tokens_text(ts.subrange(1, ts.len() as int))
    }
}

/// The emitted record type's name: the domain prefix, the declared name and
/// the `Component` suffix.
pub open spec fn emitted_name(name: Seq<char>, prefix: Seq<char>) -> Seq<char> {
    prefix + name + "Component"@
}

/// The derive block above the record type.
pub open spec fn derives_text(tag: Seq<char>, transparent: bool) -> Seq<char> {
    "#[derive(serde::Serialize, Debug, Clone)]\n#[serde(rename = \""@ + tag + "\")]\n"@ + if transparent {
        "#[serde(transparent)]\n"@
    } else {
        Seq::<char>::empty()
    }
}

/// One emitted record field with its serialization rename.
pub open spec fn field_line(p: PropertyV) -> Seq<char> {
    "    #[serde(rename(serialize = \""@ + p.property_id + "\"))]\n    "@ + if p.modifiers.contains(
        Modifier::Public,
    ) {
        "pub "@
    } else {
        Seq::<char>::empty()
    } + p.name + ": "@ + tokens_text(p.data_type) + ",\n"@
}

/// The emitted record fields, in declaration order.
pub open spec fn fields_text(props: Seq<PropertyV>) -> Seq<char>
    decreases props.len(),
{
    if props.len() == 0 {
        Seq::empty()
    } else {
        field_line(props[0]) + fields_text(props.subrange(1, props.len() as int))
    }
}

/// One constructor parameter: `impl Into<T>` under the `into` modifier,
/// the declared type itself otherwise.
pub open spec fn param_text(p: PropertyV) -> Seq<char> {
    p.name + ": "@ + if p.modifiers.contains(Modifier::IntoModifier) {
        "impl Into<"@ + tokens_text(p.data_type) + ">"@
    } else {
        tokens_text(p.data_type)
    }
}

/// The constructor parameters, comma separated, in declaration order.
pub open spec fn params_text(props: Seq<PropertyV>) -> Seq<char>
    decreases props.len(),
{
    if props.len() == 0 {
        Seq::empty()
    } else if props.len() == 1 {
        param_text(props[0])
    } else {
        param_text(props[0]) + ", "@ + params_text(props.subrange(1, props.len() as int))
    }
}

/// One constructor field assignment, converting under the `into` modifier.
pub open spec fn set_line(p: PropertyV) -> Seq<char> {
    "            "@ + p.name + ": "@ + p.name + if p.modifiers.contains(Modifier::IntoModifier) {
        ".into(),\n"@
    } else {
        ",\n"@
    }
}

/// The constructor's field assignments, in declaration order.
pub open spec fn sets_text(props: Seq<PropertyV>) -> Seq<char>
    decreases props.len(),
{
    if props.len() == 0 {
        Seq::empty()
    } else {
        set_line(props[0]) + sets_text(props.subrange(1, props.len() as int))
    }
}

/// One fluent mutator: it clones the receiver, assigns the new value and
/// returns the clone.
pub open spec fn mutator_text(p: PropertyV) -> Seq<char> {
    "    pub fn using_"@ + p.name + "(&mut self, "@ + param_text(p)
        + ") -> Self {\n        let mut sc = self.clone();\n        sc."@ + p.name + " = "@ + p.name
        + if p.modifiers.contains(Modifier::IntoModifier) {
        ".into()"@
    } else {
        Seq::<char>::empty()
    } + ";\n        sc\n    }\n"@
}

/// The mutators of the fields carrying the `using` modifier, in declaration
/// order.
pub open spec fn mutators_text(props: Seq<PropertyV>) -> Seq<char>
    decreases props.len(),
{
    if props.len() == 0 {
        Seq::empty()
    } else if props[0].modifiers.contains(Modifier::UsingFn) {
        mutator_text(props[0]) + mutators_text(props.subrange(1, props.len() as int))
    } else {
        mutators_text(props.subrange(1, props.len() as int))
    }
}

/// The whole expansion of one component declaration, given the domain
/// prefix of the generated type names (`Item` or `Block`): record type,
/// serialization impl, constructor and mutators.
pub open spec fn component_source(
    name: Seq<char>,
    tag: Seq<char>,
    props: Seq<PropertyV>,
    transparent: bool,
    prefix: Seq<char>,
) -> Seq<char> {
    let n = emitted_name(name, prefix);
    derives_text(tag, transparent) + "pub struct "@ + n + " {\n"@ + fields_text(props) + "}\n"@
        + "impl "@ + prefix + "Component for "@ + n
        + " {\n    fn serialize(&self) -> String {\n        format!(\"\\\"{}\\\": {}\", \""@ + tag
        + "\", serde_json::to_string_pretty(&self).unwrap())\n    }\n}\n"@ + "impl Buildable for "@
        + n + " {}\n"@ + "impl "@ + n + " {\n    pub fn new("@ + params_text(props)
        + ") -> Self {\n        Self {\n"@ + sets_text(props) + "        }\n    }\n}\n"@ + "impl "@
        + n + " {\n"@ + mutators_text(props) + "}\n"@
}

fn push_tokens_text(s: &mut String, ts: &Vec<Token>, from: usize)
    requires
        from <= ts@.len(),
    ensures
        final(s)@ == old(s)@ + tokens_text(ts@.subrange(from as int, ts@.len() as int)),
    decreases ts@.len() - from,
{
    if from < ts.len() {
        match &ts[from] {
            Token::Ident(t) => s.append(t.as_str()),
            Token::Lit(t) => s.append(t.as_str()),
            Token::Punct(c) => push_char(s, *c),
        }
        let ghost rest = ts@.subrange(from as int, ts@.len() as int);
        if from + 1 < ts.len() {
            push_char(s, ' ');
            push_tokens_text(s, ts, from + 1);
            proof {
                assert(rest[0] == ts@[from as int]);
                assert(rest.subrange(1, rest.len() as int) =~= ts@.subrange(
                    from as int + 1,
                    ts@.len() as int,
                ));
                assert(final(s)@ =~= old(s)@ + tokens_text(rest));
            }
        } else {
            proof {
                assert(rest.len() == 1);
                assert(rest[0] == ts@[from as int]);
            }
        }
    }
}

fn push_field_lines(
    s: &mut String,
    props: &Vec<crate::component::PropertyDeclaration>,
    from: usize,
)
    requires
        from <= props@.len(),
    ensures
        final(s)@ == old(s)@ + fields_text(
            props.deep_view().subrange(from as int, props@.len() as int),
        ),
    decreases props@.len() - from,
{
    let ghost rest = props.deep_view().subrange(from as int, props@.len() as int);
    if from < props.len() {
        let p = &props[from];
        proof {
            reveal_strlit("    #[serde(rename(serialize = \"");
            reveal_strlit("\"))]\n    ");
        }
        s.append("    #[serde(rename(serialize = \"");
        s.append(p.property_id.as_str());
        s.append("\"))]\n    ");
        if has_modifier(&p.modifiers, Modifier::Public) {
            s.append("pub ");
        }
        s.append(p.name.as_str());
        s.append(": ");
        push_tokens_text(s, &p.data_type, 0);
        s.append(",\n");
        proof {
            assert(p.data_type@.subrange(0, p.data_type@.len() as int) =~= p.data_type@);
            assert(rest[0] == props@[from as int].deep_view());
            assert(s@ =~= old(s)@ + field_line(rest[0]));
        }
        push_field_lines(s, props, from + 1);
        proof {
            assert(rest.subrange(1, rest.len() as int) =~= props.deep_view().subrange(
                from as int + 1,
                props@.len() as int,
            ));
            assert(final(s)@ =~= old(s)@ + fields_text(rest));
        }
    } else {
        proof {
            assert(rest =~= Seq::<PropertyV>::empty());
        }
    }
}

fn push_param(s: &mut String, p: &crate::component::PropertyDeclaration)
    ensures
        final(s)@ == old(s)@ + param_text(p@),
{
    s.append(p.name.as_str());
    s.append(": ");
    if has_modifier(&p.modifiers, Modifier::IntoModifier) {
        proof {
            reveal_strlit("impl Into<");
        }
        s.append("impl Into<");
        push_tokens_text(s, &p.data_type, 0);
        s.append(">");
    } else {
        push_tokens_text(s, &p.data_type, 0);
    }
    proof {
        assert(p.data_type@.subrange(0, p.data_type@.len() as int) =~= p.data_type@);
        assert(final(s)@ =~= old(s)@ + param_text(p@));
    }
}

fn push_params(s: &mut String, props: &Vec<crate::component::PropertyDeclaration>, from: usize)
    requires
        from <= props@.len(),
    ensures
        final(s)@ == old(s)@ + params_text(
            props.deep_view().subrange(from as int, props@.len() as int),
        ),
    decreases props@.len() - from,
{
    let ghost rest = props.deep_view().subrange(from as int, props@.len() as int);
    if from < props.len() {
        push_param(s, &props[from]);
        proof {
            assert(rest[0] == props@[from as int].deep_view());
        }
        if from + 1 < props.len() {
            s.append(", ");
            push_params(s, props, from + 1);
            proof {
                assert(rest.subrange(1, rest.len() as int) =~= props.deep_view().subrange(
                    from as int + 1,
                    props@.len() as int,
                ));
                assert(final(s)@ =~= old(s)@ + params_text(rest));
            }
        } else {
            proof {
                assert(rest.len() == 1);
            }
        }
    } else {
        proof {
            assert(rest =~= Seq::<PropertyV>::empty());
        }
    }
}

fn push_sets(s: &mut String, props: &Vec<crate::component::PropertyDeclaration>, from: usize)
    requires
        from <= props@.len(),
    ensures
        final(s)@ == old(s)@ + sets_text(
            props.deep_view().subrange(from as int, props@.len() as int),
        ),
    decreases props@.len() - from,
{
    let ghost rest = props.deep_view().subrange(from as int, props@.len() as int);
    if from < props.len() {
        let p = &props[from];
        proof {
            reveal_strlit("            ");
        }
        s.append("            ");
        s.append(p.name.as_str());
        s.append(": ");
        s.append(p.name.as_str());
        if has_modifier(&p.modifiers, Modifier::IntoModifier) {
            s.append(".into(),\n");
        } else {
            s.append(",\n");
        }
        proof {
            assert(rest[0] == props@[from as int].deep_view());
            assert(s@ =~= old(s)@ + set_line(rest[0]));
        }
        push_sets(s, props, from + 1);
        proof {
            assert(rest.subrange(1, rest.len() as int) =~= props.deep_view().subrange(
                from as int + 1,
                props@.len() as int,
            ));
            assert(final(s)@ =~= old(s)@ + sets_text(rest));
        }
    } else {
        proof {
            assert(rest =~= Seq::<PropertyV>::empty());
        }
    }
}

fn push_mutators(s: &mut String, props: &Vec<crate::component::PropertyDeclaration>, from: usize)
    requires
        from <= props@.len(),
    ensures
        final(s)@ == old(s)@ + mutators_text(
            props.deep_view().subrange(from as int, props@.len() as int),
        ),
    decreases props@.len() - from,
{
    let ghost rest = props.deep_view().subrange(from as int, props@.len() as int);
    if from < props.len() {
        let p = &props[from];
        proof {
            assert(rest[0] == props@[from as int].deep_view());
        }
        if has_modifier(&p.modifiers, Modifier::UsingFn) {
            proof {
                reveal_strlit("    pub fn using_");
                reveal_strlit("(&mut self, ");
                reveal_strlit(") -> Self {\n        let mut sc = self.clone();\n        sc.");
                reveal_strlit(";\n        sc\n    }\n");
            }
            s.append("    pub fn using_");
            s.append(p.name.as_str());
            s.append("(&mut self, ");
            push_param(s, p);
            s.append(") -> Self {\n        let mut sc = self.clone();\n        sc.");
            s.append(p.name.as_str());
            s.append(" = ");
            s.append(p.name.as_str());
            if has_modifier(&p.modifiers, Modifier::IntoModifier) {
                s.append(".into()");
            }
            s.append(";\n        sc\n    }\n");
            proof {
                assert(s@ =~= old(s)@ + mutator_text(rest[0]));
            }
        }
        push_mutators(s, props, from + 1);
        proof {
            assert(rest.subrange(1, rest.len() as int) =~= props.deep_view().subrange(
                from as int + 1,
                props@.len() as int,
            ));
            assert(final(s)@ =~= old(s)@ + mutators_text(rest));
        }
    } else {
        proof {
            assert(rest =~= Seq::<PropertyV>::empty());
        }
    }
}

/// Appends the verbatim text of a whole token sequence.
pub fn push_tokens_all(s: &mut String, ts: &Vec<Token>)
    ensures
        final(s)@ == old(s)@ + tokens_text(ts@),
{
    push_tokens_text(s, ts, 0);
    proof {
        assert(ts@.subrange(0, ts@.len() as int) =~= ts@);
    }
}

/// Renders the whole expansion of a component declaration, with `prefix`
/// as the domain prefix of the generated type names.
pub fn render_component_source(decl: &ComponentData, prefix: &str) -> (r: String)
    ensures
        r@ == component_source(
            decl.name@,
            decl.property_id@,
            decl@.props,
            decl.modifiers@.contains(Modifier::Transparency),
            prefix@,
        ),
{
    proof {
        reveal_strlit("#[derive(serde::Serialize, Debug, Clone)]\n#[serde(rename = \"");
        reveal_strlit("\")]\n");
        reveal_strlit("#[serde(transparent)]\n");
        reveal_strlit("pub struct ");
        reveal_strlit("Component");
        reveal_strlit(" {\n");
        reveal_strlit("}\n");
        reveal_strlit("impl ");
        reveal_strlit("Component for ");
        reveal_strlit(" {\n    fn serialize(&self) -> String {\n        format!(\"\\\"{}\\\": {}\", \"");
        reveal_strlit("\", serde_json::to_string_pretty(&self).unwrap())\n    }\n}\n");
        reveal_strlit("impl Buildable for ");
        reveal_strlit(" {}\n");
        reveal_strlit(" {\n    pub fn new(");
        reveal_strlit(") -> Self {\n        Self {\n");
        reveal_strlit("        }\n    }\n}\n");
    }
    let mut name = String::new();
    name.append(prefix);
    name.append(decl.name.as_str());
    name.append("Component");
    assert(name@ =~= emitted_name(decl.name@, prefix@));

    let mut s = String::new();
    s.append("#[derive(serde::Serialize, Debug, Clone)]\n#[serde(rename = \"");
    s.append(decl.property_id.as_str());
    s.append("\")]\n");
    let transparent = has_modifier(&decl.modifiers, Modifier::Transparency);
    if transparent {
        s.append("#[serde(transparent)]\n");
    }
    assert(s@ =~= derives_text(decl.property_id@, transparent));
    s.append("pub struct ");
    s.append(name.as_str());
    s.append(" {\n");
    push_field_lines(&mut s, &decl.props, 0);
    s.append("}\n");
    s.append("impl ");
    s.append(prefix);
    s.append("Component for ");
    s.append(name.as_str());
    s.append(" {\n    fn serialize(&self) -> String {\n        format!(\"\\\"{}\\\": {}\", \"");
    s.append(decl.property_id.as_str());
    s.append("\", serde_json::to_string_pretty(&self).unwrap())\n    }\n}\n");
    s.append("impl Buildable for ");
    s.append(name.as_str());
    s.append(" {}\n");
    s.append("impl ");
    s.append(name.as_str());
    s.append(" {\n    pub fn new(");
    push_params(&mut s, &decl.props, 0);
    s.append(") -> Self {\n        Self {\n");
    push_sets(&mut s, &decl.props, 0);
    s.append("        }\n    }\n}\n");
    s.append("impl ");
    s.append(name.as_str());
    s.append(" {\n");
    push_mutators(&mut s, &decl.props, 0);
    s.append("}\n");
    proof {
        assert(decl.props.deep_view().subrange(0, decl.props@.len() as int)
            =~= decl.props.deep_view());
        assert(s@ =~= component_source(
            decl.name@,
            decl.property_id@,
            decl@.props,
            transparent,
            prefix@,
        ));
    }
    s
}

} // verus!
