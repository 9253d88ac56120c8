//! Code emission for a parsed component declaration.
//!
//! Emission is modeled twice. [`emit_component`] produces the structural
//! shape of the generated items: the record type with its per-field
//! serialization names and visibility, the constructor parameter list and
//! the fluent mutators. [`crate::emit_text::render_component_source`]
//! renders the full generated source text. Both are pure functions of the
//! declaration; the
//! contracts pin down that field order, constructor parameter order and
//! mutator order all follow the declaration's field order exactly.

use crate::component::{ComponentData, Modifier, PropertyV};
use crate::tokens::{clone_token_range, Token};
use vstd::prelude::*;
use vstd::string::StringExecFns;

verus! {

/// One field of the emitted record type.
#[derive(Debug)]
pub struct EmitField {
    pub name: String,
    pub data_type: Vec<Token>,
    pub serial_name: String,
    pub public: bool,
}

/// One parameter of the emitted constructor.
#[derive(Debug)]
pub struct EmitParam {
    pub name: String,
    pub data_type: Vec<Token>,
    pub accepts_into: bool,
}

/// One emitted fluent mutator.
#[derive(Debug)]
pub struct EmitMutator {
    pub fn_name: String,
    pub field_name: String,
    pub data_type: Vec<Token>,
    pub accepts_into: bool,
}

/// The mathematical shape of an emitted mutator.
pub ghost struct MutatorV {
    pub fn_name: Seq<char>,
    pub field_name: Seq<char>,
    pub data_type: Seq<Token>,
    pub accepts_into: bool,
}

impl DeepView for EmitMutator {
    type V = MutatorV;

    open spec fn deep_view(&self) -> MutatorV {
        MutatorV {
            fn_name: self.fn_name@,
            field_name: self.field_name@,
            data_type: self.data_type@,
            accepts_into: self.accepts_into,
        }
    }
}

/// The structural shape of everything emitted for one declaration.
#[derive(Debug)]
pub struct EmittedComponent {
    pub struct_name: String,
    pub serial_tag: String,
    pub transparent: bool,
    pub fields: Vec<EmitField>,
    pub ctor_params: Vec<EmitParam>,
    pub mutators: Vec<EmitMutator>,
}

/// The mutator a field emits, when it carries the `using` modifier.
pub open spec fn mutator_of(p: PropertyV) -> MutatorV {
    MutatorV {
        fn_name: "using_"@ + p.name,
        field_name: p.name,
        data_type: p.data_type,
        accepts_into: p.modifiers.contains(Modifier::IntoModifier),
    }
}

/// The mutators of a field list, in field order: one for every field with
/// the `using` modifier.
pub open spec fn spec_mutators(props: Seq<PropertyV>) -> Seq<MutatorV>
    decreases props.len(),
{
    if props.len() == 0 {
        Seq::empty()
    } else if props[0].modifiers.contains(Modifier::UsingFn) {
        seq![mutator_of(props[0])] + spec_mutators(props.subrange(1, props.len() as int))
    } else {
        spec_mutators(props.subrange(1, props.len() as int))
    }
}

/// Whether a modifier list carries the given modifier.
pub fn has_modifier(mods: &Vec<Modifier>, m: Modifier) -> (r: bool)
    ensures
        r == mods@.contains(m),
{
    let mut i: usize = 0;
    while i < mods.len()
        invariant
            i <= mods@.len(),
            forall|j: int| 0 <= j < i ==> mods@[j] != m,
        decreases mods@.len() - i,
    {
        if mods[i] == m {
            return true;
        }
        i = i + 1;
    }
    false
}

fn copy_tokens(tokens: &Vec<Token>) -> (r: Vec<Token>)
    ensures
        r@ == tokens@,
{
    let r = clone_token_range(tokens, 0, tokens.len());
    proof {
        assert(tokens@.subrange(0, tokens@.len() as int) =~= tokens@);
    }
    r
}

fn using_name(field: &String) -> (r: String)
    ensures
        r@ == "using_"@ + field@,
{
    proof {
        reveal_strlit("using_");
    }
    let mut s = String::new();
    s.append("using_");
    s.append(field.as_str());
    assert(s@ =~= "using_"@ + field@);
    s
}

fn build_mutators(props: &Vec<crate::component::PropertyDeclaration>, from: usize) -> (r: Vec<
    EmitMutator,
>)
    requires
        from <= props@.len(),
    ensures
        r.deep_view() == spec_mutators(
            props.deep_view().subrange(from as int, props@.len() as int),
        ),
    decreases props@.len() - from,
{
    if from < props.len() {
        let rest = build_mutators(props, from + 1);
        let ghost tail = props.deep_view().subrange(from as int + 1, props@.len() as int);
        let ghost whole = props.deep_view().subrange(from as int, props@.len() as int);
        proof {
            assert(whole[0] == props@[from as int].deep_view());
            assert(whole.subrange(1, whole.len() as int) =~= tail);
        }
        if has_modifier(&props[from].modifiers, Modifier::UsingFn) {
            let m = EmitMutator {
                fn_name: using_name(&props[from].name),
                field_name: props[from].name.clone(),
                data_type: copy_tokens(&props[from].data_type),
                accepts_into: has_modifier(&props[from].modifiers, Modifier::IntoModifier),
            };
            let ghost mv = m.deep_view();
            let ghost rest0 = rest.deep_view();
            let mut v = rest;
            v.insert(0, m);
            proof {
                assert(v.deep_view() =~= seq![mv] + rest0);
                assert(mv == mutator_of(whole[0]));
            }
            v
        } else {
            rest
        }
    } else {
        let empty: Vec<EmitMutator> = Vec::new();
        proof {
            assert(empty.deep_view() =~= Seq::<MutatorV>::empty());
            assert(props.deep_view().subrange(from as int, props@.len() as int)
                =~= Seq::<PropertyV>::empty());
        }
        empty
    }
}

/// Emits the structural shape of the items a declaration generates. The
/// record's field order and the constructor's parameter order both follow
/// the declaration's field order; a field is public exactly when it carries
/// the `public` modifier, a constructor parameter accepts any convertible
/// value exactly when its field carries the `into` modifier, and a mutator
/// is emitted exactly for the fields carrying the `using` modifier.
pub fn emit_component(decl: &ComponentData, prefix: &str) -> (r: EmittedComponent)
    ensures
        r.struct_name@ == prefix@ + decl.name@ + "Component"@,
        r.serial_tag@ == decl.property_id@,
        r.transparent == decl.modifiers@.contains(Modifier::Transparency),
        r.fields@.len() == decl@.props.len(),
        forall|i: int|
            0 <= i < decl@.props.len() ==> {
                &&& (#[trigger] r.fields@[i]).name@ == decl@.props[i].name
                &&& r.fields@[i].data_type@ == decl@.props[i].data_type
                &&& r.fields@[i].serial_name@ == decl@.props[i].property_id
                &&& r.fields@[i].public == decl@.props[i].modifiers.contains(Modifier::Public)
            },
        r.ctor_params@.len() == decl@.props.len(),
        forall|i: int|
            0 <= i < decl@.props.len() ==> {
                &&& (#[trigger] r.ctor_params@[i]).name@ == decl@.props[i].name
                &&& r.ctor_params@[i].data_type@ == decl@.props[i].data_type
                &&& r.ctor_params@[i].accepts_into == decl@.props[i].modifiers.contains(
                    Modifier::IntoModifier,
                )
            },
        r.mutators.deep_view() == spec_mutators(decl@.props),
{
    proof {
        reveal_strlit("Component");
    }
    let mut struct_name = String::new();
    struct_name.append(prefix);
    struct_name.append(decl.name.as_str());
    struct_name.append("Component");
    assert(struct_name@ =~= prefix@ + decl.name@ + "Component"@);

    let mut fields: Vec<EmitField> = Vec::new();
    let mut params: Vec<EmitParam> = Vec::new();
    let mut i: usize = 0;
    while i < decl.props.len()
        invariant
            i <= decl.props@.len(),
            fields@.len() == i,
            params@.len() == i,
            forall|j: int|
                0 <= j < i ==> {
                    &&& (#[trigger] fields@[j]).name@ == decl@.props[j].name
                    &&& fields@[j].data_type@ == decl@.props[j].data_type
                    &&& fields@[j].serial_name@ == decl@.props[j].property_id
                    &&& fields@[j].public == decl@.props[j].modifiers.contains(Modifier::Public)
                },
            forall|j: int|
                0 <= j < i ==> {
                    &&& (#[trigger] params@[j]).name@ == decl@.props[j].name
                    &&& params@[j].data_type@ == decl@.props[j].data_type
                    &&& params@[j].accepts_into == decl@.props[j].modifiers.contains(
                        Modifier::IntoModifier,
                    )
                },
        decreases decl.props@.len() - i,
    {
        let p = &decl.props[i];
        fields.push(
            EmitField {
                name: p.name.clone(),
                data_type: copy_tokens(&p.data_type),
                serial_name: p.property_id.clone(),
                public: has_modifier(&p.modifiers, Modifier::Public),
            },
        );
        params.push(
            EmitParam {
                name: p.name.clone(),
                data_type: copy_tokens(&p.data_type),
                accepts_into: has_modifier(&p.modifiers, Modifier::IntoModifier),
            },
        );
        i = i + 1;
    }
    let mutators = build_mutators(&decl.props, 0);
    proof {
        assert(decl.props.deep_view().subrange(0, decl.props@.len() as int)
            =~= decl.props.deep_view());
    }
    EmittedComponent {
        struct_name,
        serial_tag: decl.property_id.clone(),
        transparent: has_modifier(&decl.modifiers, Modifier::Transparency),
        fields,
        ctor_params: params,
        mutators,
    }
}

} // verus!
