use violin::component::{parse_component, Modifier, ParseError};
use violin::defaults::{collect_defaults, fill_defaults};
use violin::emit::emit_component;
use violin::emit_text::render_component_source;
use violin::instance::ComponentInstance;
use violin::json::{render_json, JsonValue};
use violin::tokens::Token;
use violin::viola::{parse_viola, Property, ViolaDeclaration};
use violin::viola_text::render_viola_source;

fn ident(s: &str) -> Token {
    Token::Ident(s.to_string())
}

fn lit(s: &str) -> Token {
    Token::Lit(s.to_string())
}

fn strlit(s: &str) -> Token {
    Token::Lit(format!("\"{}\"", s))
}

fn punct(c: char) -> Token {
    Token::Punct(c)
}

fn damage_tokens() -> Vec<Token> {
    // name = Damage for "ns:damage";
    // value has i32 for "value" with "public";
    vec![
        ident("name"),
        punct('='),
        ident("Damage"),
        ident("for"),
        strlit("ns:damage"),
        punct(';'),
        ident("value"),
        ident("has"),
        ident("i32"),
        ident("for"),
        strlit("value"),
        ident("with"),
        strlit("public"),
        punct(';'),
    ]
}

#[test]
fn parses_header_and_fields() {
    let tokens = damage_tokens();
    let (decl, consumed) = parse_component(&tokens).unwrap();
    assert_eq!(consumed, tokens.len());
    assert_eq!(decl.name, "Damage");
    assert_eq!(decl.property_id, "ns:damage");
    assert_eq!(decl.modifiers.len(), 0);
    assert_eq!(decl.props.len(), 1);
    assert_eq!(decl.props[0].name, "value");
    assert_eq!(decl.props[0].property_id, "value");
    assert_eq!(decl.props[0].modifiers, vec![Modifier::Public]);
}

#[test]
fn parses_struct_modifiers() {
    let tokens = vec![
        ident("name"),
        punct('='),
        ident("Glow"),
        ident("for"),
        strlit("ns:glow"),
        ident("with"),
        strlit("transparency"),
        strlit("shiny"),
        punct(';'),
    ];
    let (decl, consumed) = parse_component(&tokens).unwrap();
    assert_eq!(consumed, tokens.len());
    // the unknown modifier parses, silently, as the inert variant
    assert_eq!(decl.modifiers, vec![Modifier::Transparency, Modifier::Undetermined]);
    assert_eq!(decl.props.len(), 0);
}

#[test]
fn tolerates_missing_with_before_field_modifiers() {
    let tokens = vec![
        ident("name"),
        punct('='),
        ident("Tag"),
        ident("for"),
        strlit("ns:tag"),
        punct(';'),
        ident("value"),
        ident("has"),
        ident("String"),
        ident("for"),
        strlit("value"),
        strlit("into"),
        punct(';'),
    ];
    let (decl, _) = parse_component(&tokens).unwrap();
    assert_eq!(decl.props[0].modifiers, vec![Modifier::IntoModifier]);
}

#[test]
fn truncates_on_malformed_trailing_field() {
    let mut tokens = damage_tokens();
    let good = tokens.len();
    tokens.push(ident("broken"));
    tokens.push(ident("has"));
    let (decl, consumed) = parse_component(&tokens).unwrap();
    assert_eq!(decl.props.len(), 1);
    assert_eq!(consumed, good);
}

#[test]
fn reports_missing_tokens() {
    assert_eq!(parse_component(&vec![]).unwrap_err(), ParseError::MissingNameKeyword);
    assert_eq!(
        parse_component(&vec![ident("name"), ident("oops")]).unwrap_err(),
        ParseError::MissingEquals
    );
    assert_eq!(
        parse_component(&vec![ident("name"), punct('='), punct(';')]).unwrap_err(),
        ParseError::MissingName
    );
    assert_eq!(
        parse_component(&vec![ident("name"), punct('='), ident("A"), ident("of")]).unwrap_err(),
        ParseError::MissingFor
    );
    assert_eq!(
        parse_component(&vec![ident("name"), punct('='), ident("A"), ident("for")]).unwrap_err(),
        ParseError::MissingTag
    );
    assert_eq!(
        parse_component(&vec![ident("name"), punct('='), ident("A"), ident("for"), lit("7")])
            .unwrap_err(),
        ParseError::MalformedStringLit
    );
    assert_eq!(
        parse_component(&vec![
            ident("name"),
            punct('='),
            ident("A"),
            ident("for"),
            strlit("a"),
            ident("oops"),
        ])
        .unwrap_err(),
        ParseError::MissingWith
    );
    assert_eq!(
        parse_component(&vec![
            ident("name"),
            punct('='),
            ident("A"),
            ident("for"),
            strlit("a"),
            ident("with"),
            strlit("public"),
        ])
        .unwrap_err(),
        ParseError::MissingSemicolon
    );
}

#[test]
fn emits_fields_and_params_in_declaration_order() {
    let tokens = vec![
        ident("name"),
        punct('='),
        ident("Wide"),
        ident("for"),
        strlit("ns:wide"),
        punct(';'),
        ident("first"),
        ident("has"),
        ident("i32"),
        ident("for"),
        strlit("one"),
        punct(';'),
        ident("second"),
        ident("has"),
        ident("String"),
        ident("for"),
        strlit("two"),
        ident("with"),
        strlit("into"),
        strlit("using"),
        punct(';'),
        ident("third"),
        ident("has"),
        ident("bool"),
        ident("for"),
        strlit("three"),
        ident("with"),
        strlit("public"),
        punct(';'),
    ];
    let (decl, _) = parse_component(&tokens).unwrap();
    let emitted = emit_component(&decl, "Item");
    assert_eq!(emitted.struct_name, "ItemWideComponent");
    assert_eq!(emitted.serial_tag, "ns:wide");
    assert!(!emitted.transparent);
    let field_names: Vec<&str> = emitted.fields.iter().map(|f| f.name.as_str()).collect();
    assert_eq!(field_names, vec!["first", "second", "third"]);
    let param_names: Vec<&str> = emitted.ctor_params.iter().map(|p| p.name.as_str()).collect();
    assert_eq!(param_names, vec!["first", "second", "third"]);
    assert!(!emitted.ctor_params[0].accepts_into);
    assert!(emitted.ctor_params[1].accepts_into);
    assert!(!emitted.fields[1].public);
    assert!(emitted.fields[2].public);
    assert_eq!(emitted.mutators.len(), 1);
    assert_eq!(emitted.mutators[0].fn_name, "using_second");
    assert!(emitted.mutators[0].accepts_into);
}

#[test]
fn renders_generated_source() {
    let tokens = damage_tokens();
    let (decl, _) = parse_component(&tokens).unwrap();
    let source = render_component_source(&decl, "Item");
    let expected = "#[derive(serde::Serialize, Debug, Clone)]\n\
                    #[serde(rename = \"ns:damage\")]\n\
                    pub struct ItemDamageComponent {\n\
                    \x20   #[serde(rename(serialize = \"value\"))]\n\
                    \x20   pub value: i32,\n\
                    }\n\
                    impl ItemComponent for ItemDamageComponent {\n\
                    \x20   fn serialize(&self) -> String {\n\
                    \x20       format!(\"\\\"{}\\\": {}\", \"ns:damage\", serde_json::to_string_pretty(&self).unwrap())\n\
                    \x20   }\n\
                    }\n\
                    impl Buildable for ItemDamageComponent {}\n\
                    impl ItemDamageComponent {\n\
                    \x20   pub fn new(value: i32) -> Self {\n\
                    \x20       Self {\n\
                    \x20           value: value,\n\
                    \x20       }\n\
                    \x20   }\n\
                    }\n\
                    impl ItemDamageComponent {\n\
                    }\n";
    assert_eq!(source, expected);
}

#[test]
fn serializes_example_component() {
    let tokens = damage_tokens();
    let (decl, _) = parse_component(&tokens).unwrap();
    let inst = ComponentInstance::instance_of(&decl, false, vec![JsonValue::Int(7)]);
    assert_eq!(inst.serialize(), "\"ns:damage\": {\"value\": 7}");
}

#[test]
fn flattens_transparent_component() {
    let tokens = vec![
        ident("name"),
        punct('='),
        ident("Friction"),
        ident("for"),
        strlit("ns:friction"),
        ident("with"),
        strlit("transparency"),
        punct(';'),
        ident("value"),
        ident("has"),
        ident("i32"),
        ident("for"),
        strlit("value"),
        punct(';'),
    ];
    let (decl, _) = parse_component(&tokens).unwrap();
    let emitted = emit_component(&decl, "Block");
    assert!(emitted.transparent);
    let inst = ComponentInstance::instance_of(&decl, emitted.transparent, vec![JsonValue::Int(4)]);
    assert_eq!(inst.serialize(), "\"ns:friction\": 4");
}

#[test]
fn parses_and_renders_struct_literal() {
    // @Veh { speed = $5, driver = +@Seat { row = 1 } }!
    let tokens = vec![
        punct('@'),
        ident("Veh"),
        punct('{'),
        ident("speed"),
        punct('='),
        punct('$'),
        lit("5"),
        punct(','),
        ident("driver"),
        punct('='),
        punct('+'),
        punct('@'),
        ident("Seat"),
        punct('{'),
        ident("row"),
        punct('='),
        lit("1"),
        punct('}'),
        punct('}'),
        punct('!'),
    ];
    let (v, consumed) = parse_viola(&tokens).unwrap();
    assert_eq!(consumed, tokens.len());
    match &v {
        ViolaDeclaration::Struct(d, props) => {
            assert_eq!(d.ident, "Veh");
            assert!(d.should_build);
            assert_eq!(props.len(), 2);
            match &props[0] {
                Property::Expr(p, _) => {
                    assert!(p.wrap_in_into);
                    assert!(!p.wrap_in_some);
                },
                _ => panic!("first binding should be an expression"),
            }
        },
        _ => panic!("expected a struct literal"),
    }
    assert_eq!(
        render_viola_source(&v),
        "Veh { speed: (5).into(), driver: Some(Seat { row: 1, \
         ..ViolaDefault::viola_default() }), ..ViolaDefault::viola_default() }.build()"
    );
}

#[test]
fn renders_vector_literal_in_order() {
    let tokens = vec![
        ident("vector"),
        punct('['),
        punct('@'),
        ident("A"),
        punct('{'),
        punct('}'),
        punct(','),
        punct('@'),
        ident("B"),
        punct('{'),
        punct('}'),
        punct(']'),
    ];
    let (v, consumed) = parse_viola(&tokens).unwrap();
    assert_eq!(consumed, tokens.len());
    assert_eq!(
        render_viola_source(&v),
        "vec![A { ..ViolaDefault::viola_default() }, B { ..ViolaDefault::viola_default() }]"
    );
}

#[test]
fn renders_via_literal() {
    let tokens = vec![ident("Config"), ident("via"), ident("standard"), punct('!')];
    let (v, consumed) = parse_viola(&tokens).unwrap();
    assert_eq!(consumed, tokens.len());
    assert_eq!(render_viola_source(&v), "Config::standard().build()");
}

#[test]
fn collects_defaults_last_write_wins() {
    let attrs = vec![
        ("a".to_string(), vec![lit("1")]),
        ("b".to_string(), vec![lit("2")]),
        ("a".to_string(), vec![lit("3")]),
    ];
    let dec = collect_defaults("Cfg", &attrs);
    assert_eq!(dec.struct_ident, "Cfg");
    assert_eq!(dec.values.len(), 2);
    assert_eq!(dec.values[0].0, "a");
    assert_eq!(dec.values[1].0, "b");
    let expected = "impl ViolaDefault for Cfg {\n\
                    \x20   fn viola_default() -> Self {\n\
                    \x20       Self {\n\
                    \x20           a: 3,\n\
                    \x20           b: 2,\n\
                    \x20           ..Default::default()\n\
                    \x20       }\n\
                    \x20   }\n\
                    }\n";
    assert_eq!(dec.render(), expected);
}

#[test]
fn fills_unbound_fields_from_defaults() {
    let bound = vec![("b".to_string(), JsonValue::Int(7))];
    let defaults = vec![
        ("a".to_string(), JsonValue::Int(1)),
        ("b".to_string(), JsonValue::Int(2)),
        ("c".to_string(), JsonValue::Str("x".to_string())),
    ];
    let filled = fill_defaults(&bound, &defaults);
    assert_eq!(
        render_json(&JsonValue::Obj(filled)),
        "{\"a\": 1, \"b\": 7, \"c\": \"x\"}"
    );
}

#[test]
fn bound_fields_never_take_the_default() {
    let bound = vec![("a".to_string(), JsonValue::Int(0))];
    let defaults = vec![("a".to_string(), JsonValue::Int(9))];
    let filled = fill_defaults(&bound, &defaults);
    assert_eq!(render_json(&JsonValue::Obj(filled)), "{\"a\": 0}");
}

#[test]
fn parses_generic_type_expressions() {
    // value has Vec<String> for "v"; keys has HashMap<String, i32> for "k";
    let tokens = vec![
        ident("name"),
        punct('='),
        ident("Bag"),
        ident("for"),
        strlit("ns:bag"),
        punct(';'),
        ident("value"),
        ident("has"),
        ident("Vec"),
        punct('<'),
        ident("String"),
        punct('>'),
        ident("for"),
        strlit("v"),
        punct(';'),
        ident("keys"),
        ident("has"),
        ident("HashMap"),
        punct('<'),
        ident("String"),
        punct(','),
        ident("i32"),
        punct('>'),
        ident("for"),
        strlit("k"),
        punct(';'),
    ];
    let (decl, consumed) = parse_component(&tokens).unwrap();
    assert_eq!(consumed, tokens.len());
    assert_eq!(decl.props.len(), 2);
    assert_eq!(decl.props[0].data_type.len(), 4);
    assert_eq!(decl.props[1].data_type.len(), 6);
    let emitted = emit_component(&decl, "Item");
    // the type tokens are re-emitted verbatim, space separated
    let source = render_component_source(&decl, "Item");
    assert!(source.contains("value: Vec < String >,"));
    assert!(source.contains("keys: HashMap < String , i32 >,"));
    assert_eq!(emitted.fields.len(), 2);
}

#[test]
fn parses_array_type_expressions() {
    // range has [i32; 2] for "range"; the semicolon inside brackets stays
    // part of the type
    let tokens = vec![
        ident("name"),
        punct('='),
        ident("Tick"),
        ident("for"),
        strlit("ns:tick"),
        punct(';'),
        ident("range"),
        ident("has"),
        punct('['),
        ident("i32"),
        punct(';'),
        lit("2"),
        punct(']'),
        ident("for"),
        strlit("range"),
        punct(';'),
    ];
    let (decl, _) = parse_component(&tokens).unwrap();
    assert_eq!(decl.props.len(), 1);
    assert_eq!(decl.props[0].data_type.len(), 5);
}

#[test]
fn parses_component_with_no_fields() {
    let tokens = vec![
        ident("name"),
        punct('='),
        ident("Bare"),
        ident("for"),
        strlit("ns:bare"),
        punct(';'),
    ];
    let (decl, consumed) = parse_component(&tokens).unwrap();
    assert_eq!(consumed, tokens.len());
    assert_eq!(decl.props.len(), 0);
    let inst = ComponentInstance::instance_of(&decl, false, vec![]);
    assert_eq!(inst.serialize(), "\"ns:bare\": {}");
}

#[test]
fn transparent_needs_exactly_one_field_to_flatten() {
    let inst = ComponentInstance {
        tag: "ns:two".to_string(),
        transparent: true,
        fields: vec![
            ("a".to_string(), JsonValue::Int(1)),
            ("b".to_string(), JsonValue::Int(2)),
        ],
    };
    // with more than one field the record keeps its object wrapper
    assert_eq!(inst.serialize(), "\"ns:two\": {\"a\": 1, \"b\": 2}");
}

#[test]
fn viola_expression_values_keep_inner_punctuation() {
    // pos = f(1, 2) — the commas inside parentheses belong to the value
    let tokens = vec![
        ident("P"),
        punct('{'),
        ident("pos"),
        punct('='),
        ident("f"),
        punct('('),
        lit("1"),
        punct(','),
        lit("2"),
        punct(')'),
        punct('}'),
    ];
    let (v, consumed) = parse_viola(&tokens).unwrap();
    assert_eq!(consumed, tokens.len());
    assert_eq!(
        render_viola_source(&v),
        "P { pos: f ( 1 , 2 ), ..ViolaDefault::viola_default() }"
    );
}

#[test]
fn viola_reports_missing_pieces() {
    assert_eq!(
        parse_viola(&vec![ident("vector"), ident("oops")]).unwrap_err(),
        ParseError::MissingBracket
    );
    assert_eq!(
        parse_viola(&vec![ident("A"), ident("oops")]).unwrap_err(),
        ParseError::MissingBrace
    );
    assert_eq!(
        parse_viola(&vec![ident("A"), punct('{'), ident("x"), ident("y")]).unwrap_err(),
        ParseError::MissingEquals
    );
    assert_eq!(
        parse_viola(&vec![ident("A"), punct('{'), ident("x"), punct('='), punct('}')])
            .unwrap_err(),
        ParseError::MissingExpr
    );
}

#[test]
fn nested_vectors_expand_recursively() {
    let tokens = vec![
        ident("vector"),
        punct('['),
        ident("vector"),
        punct('['),
        ident("A"),
        punct('{'),
        punct('}'),
        punct(']'),
        punct(']'),
    ];
    let (v, _) = parse_viola(&tokens).unwrap();
    assert_eq!(
        render_viola_source(&v),
        "vec![vec![A { ..ViolaDefault::viola_default() }]]"
    );
}

#[test]
fn tokenizes_source_text() {
    let tokens = violin::lexer::tokenize("name = X for \"a:b\";").unwrap();
    assert_eq!(tokens.len(), 6);
    match &tokens[4] {
        Token::Lit(raw) => assert_eq!(raw, "\"a:b\""),
        _ => panic!("the tag should come out as a literal with its quotes"),
    }
    assert!(violin::lexer::tokenize("name = \"oops").is_none());
}

#[test]
fn expands_example_from_source_text() {
    let source = "name = Damage for \"ns:damage\";\nvalue has i32 for \"value\" with \"public\";\n";
    let tokens = violin::lexer::tokenize(source).unwrap();
    let (decl, consumed) = parse_component(&tokens).unwrap();
    assert_eq!(consumed, tokens.len());
    let emitted = emit_component(&decl, "Item");
    assert!(emitted.fields[0].public);
    let inst = ComponentInstance::instance_of(&decl, emitted.transparent, vec![JsonValue::Int(7)]);
    assert_eq!(inst.serialize(), "\"ns:damage\": {\"value\": 7}");
}

#[test]
fn expands_literal_from_source_text() {
    let source = "@Veh { speed = $5 }!";
    let tokens = violin::lexer::tokenize(source).unwrap();
    let (v, consumed) = parse_viola(&tokens).unwrap();
    assert_eq!(consumed, tokens.len());
    assert_eq!(
        render_viola_source(&v),
        "Veh { speed: (5).into(), ..ViolaDefault::viola_default() }.build()"
    );
}
