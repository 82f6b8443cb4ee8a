use imgur_rs::{Json, parse_json};

fn unwrap_obj(j: Json) -> Vec<imgur_rs::Member> {
    match j {
        Json::Obj(m) => m,
        other => panic!("expected an object, got {:?}", kind_name(&other)),
    }
}

fn kind_name(j: &Json) -> &'static str {
    match j {
        Json::Null => "null",
        Json::Bool(_) => "bool",
        Json::Num(_) => "number",
        Json::Str(_) => "string",
        Json::Arr(_) => "array",
        Json::Obj(_) => "object",
    }
}

#[test]
fn parses_scalars() {
    assert!(matches!(parse_json("null"), Some(Json::Null)));
    assert!(matches!(parse_json("true"), Some(Json::Bool(true))));
    assert!(matches!(parse_json("false"), Some(Json::Bool(false))));
    assert!(matches!(parse_json("0"), Some(Json::Num(0))));
    assert!(matches!(parse_json("12345"), Some(Json::Num(12345))));
}

#[test]
fn parses_strings_and_escapes() {
    match parse_json(r#""plain""#) {
        Some(Json::Str(s)) => assert_eq!(s, "plain"),
        other => panic!("expected a string, got {:?}", other.map(|j| kind_name(&j))),
    }
    match parse_json(r#""a\"b\\c\/d\ne\tf""#) {
        Some(Json::Str(s)) => assert_eq!(s, "a\"b\\c/d\ne\tf"),
        other => panic!("expected a string, got {:?}", other.map(|j| kind_name(&j))),
    }
}

#[test]
fn rejects_control_characters_and_bad_escapes() {
    assert!(parse_json("\"a\u{0001}b\"").is_none());
    assert!(parse_json(r#""a\qb""#).is_none());
    assert!(parse_json(r#""unterminated"#).is_none());
}

#[test]
fn tolerates_whitespace_around_the_document() {
    let j = parse_json("  \t\r\n { \"a\" : 1 , \"b\" : [ 1 , 2 ] } \n ");
    let m = unwrap_obj(j.expect("whitespace alone must not reject a document"));
    assert_eq!(m.len(), 2);
    assert_eq!(m[0].key, "a");
    assert!(matches!(m[0].value, Json::Num(1)));
}

#[test]
fn rejects_trailing_garbage() {
    assert!(parse_json("1 2").is_none());
    assert!(parse_json("{} x").is_none());
    assert!(parse_json("").is_none());
}

#[test]
fn rejects_numbers_the_model_does_not_hold() {
    // Too large for the unsigned 64-bit field.
    assert!(parse_json("18446744073709551616").is_none());
    // Largest value that fits.
    assert!(matches!(parse_json("18446744073709551615"), Some(Json::Num(u64::MAX))));
    // Leading zeros are not a numeral.
    assert!(parse_json("01").is_none());
    assert!(matches!(parse_json("0"), Some(Json::Num(0))));
}

#[test]
fn rejects_malformed_structures() {
    assert!(parse_json("[1,]").is_none());
    assert!(parse_json("[1 2]").is_none());
    assert!(parse_json(r#"{"a":}"#).is_none());
    assert!(parse_json(r#"{"a" 1}"#).is_none());
    assert!(parse_json(r#"{"a":1,}"#).is_none());
    assert!(parse_json("[").is_none());
    assert!(parse_json("{").is_none());
}

#[test]
fn parses_nested_structures() {
    let j = parse_json(r#"{"outer":{"inner":[null,true,"s"]},"n":7}"#)
        .expect("a nested document must parse");
    let m = unwrap_obj(j);
    assert_eq!(m.len(), 2);
    assert_eq!(m[0].key, "outer");
    let inner = match &m[0].value {
        Json::Obj(v) => v,
        other => panic!("expected an object, got {:?}", kind_name(other)),
    };
    assert_eq!(inner[0].key, "inner");
    match &inner[0].value {
        Json::Arr(items) => {
            assert_eq!(items.len(), 3);
            assert!(matches!(items[0], Json::Null));
            assert!(matches!(items[1], Json::Bool(true)));
        },
        other => panic!("expected an array, got {:?}", kind_name(other)),
    }
}

#[test]
fn empty_array_and_object_parse() {
    assert!(matches!(parse_json("[]"), Some(Json::Arr(v)) if v.is_empty()));
    assert!(matches!(parse_json("{}"), Some(Json::Obj(m)) if m.is_empty()));
    assert!(matches!(parse_json("[ ]"), Some(Json::Arr(v)) if v.is_empty()));
    assert!(matches!(parse_json("{ }"), Some(Json::Obj(m)) if m.is_empty()));
}

#[test]
fn unknown_fields_are_carried_not_rejected() {
    let body = r#"{"data":{"id":"abc","title":null,"description":"d","datetime":5,"type":"t","link":"l","views":12,"favorite":false,"tags":["a","b"]}}"#;
    let env = imgur_rs::classify_image(200, body)
        .expect("extra fields must not reject a success body");
    assert_eq!(env.data.id, "abc");
    assert_eq!(env.data.datetime, 5);
}

#[test]
fn first_member_wins_on_duplicate_keys() {
    let body = r#"{"data":{"id":"first","id":"second","title":null,"description":null,"datetime":1,"type":"t","link":"l"}}"#;
    let env = imgur_rs::classify_image(200, body).expect("duplicate keys still decode");
    assert_eq!(env.data.id, "first");
}
