use violin::add;
use violin::component::parse_component;
use violin::instance::ComponentInstance;
use violin::json::JsonValue;
use violin::tokens::Token;

fn ident(s: &str) -> Token {
    Token::Ident(s.to_string())
}

fn strlit(s: &str) -> Token {
    Token::Lit(format!("\"{}\"", s))
}

fn punct(c: char) -> Token {
    Token::Punct(c)
}

#[test]
fn it_works() {}

#[test]
fn lib_it_works() {}

#[test]
fn test() {
    // name = Custom for "minecraft:component_id";
    // id has String for "minecraft:id";
    // number has i32 for "minecraft:number";
    let tokens = vec![
        ident("name"),
        punct('='),
        ident("Custom"),
        ident("for"),
        strlit("minecraft:component_id"),
        punct(';'),
        ident("id"),
        ident("has"),
        ident("String"),
        ident("for"),
        strlit("minecraft:id"),
        punct(';'),
        ident("number"),
        ident("has"),
        ident("i32"),
        ident("for"),
        strlit("minecraft:number"),
        punct(';'),
    ];
    let (decl, consumed) = parse_component(&tokens).unwrap();
    assert_eq!(consumed, tokens.len());
    assert_eq!(decl.name, "Custom");
    assert_eq!(decl.property_id, "minecraft:component_id");
    assert_eq!(decl.props.len(), 2);
    let inst = ComponentInstance::instance_of(
        &decl,
        false,
        vec![JsonValue::Str("hello".to_string()), JsonValue::Int(10)],
    );
    assert_eq!(
        inst.serialize(),
        "\"minecraft:component_id\": {\"minecraft:id\": \"hello\", \"minecraft:number\": 10}"
    );
}

#[test]
fn adds_small_numbers() {
    assert_eq!(add(2, 40), 42);
}

#[test]
fn renders_json_values() {
    let v = JsonValue::Obj(vec![
        ("a".to_string(), JsonValue::Int(-3)),
        ("b".to_string(), JsonValue::Arr(vec![JsonValue::Bool(true), JsonValue::Null])),
        ("c".to_string(), JsonValue::Str("x\"y\\z".to_string())),
    ]);
    assert_eq!(
        violin::json::render_json(&v),
        "{\"a\": -3, \"b\": [true, null], \"c\": \"x\\\"y\\\\z\"}"
    );
}

#[test]
fn renders_numbers() {
    assert_eq!(violin::text::render_u64(0), "0");
    assert_eq!(violin::text::render_u64(90210), "90210");
}
