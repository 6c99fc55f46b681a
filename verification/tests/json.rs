use maa_sys::json::Json;
use maa_sys::json::Scalar;
use maa_sys::json::parse_json;
use maa_sys::json::write_json;

#[test]
fn scalars_round_trip_through_their_text() {
    let cases = vec![
        Json::Sc(Scalar::Bool(true)),
        Json::Sc(Scalar::Bool(false)),
        Json::Sc(Scalar::Int(0)),
        Json::Sc(Scalar::Int(-120)),
        Json::Sc(Scalar::Int(i64::MIN)),
        Json::Sc(Scalar::Str("he said \"hi\"\\".to_string())),
        Json::Sc(Scalar::Milli(300)),
        Json::Sc(Scalar::Milli(1000)),
        Json::Arr(vec![Scalar::Int(1), Scalar::Str("two".to_string())]),
        Json::Obj(vec![("k".to_string(), Scalar::Bool(true))]),
    ];
    for j in cases {
        let text = write_json(&j);
        assert_eq!(parse_json(&text), Some(j), "text was {}", text);
    }
}

#[test]
fn canonical_texts_are_exact() {
    assert_eq!(write_json(&Json::Sc(Scalar::Milli(300))), "0.300");
    assert_eq!(write_json(&Json::Sc(Scalar::Milli(1250))), "1.250");
    assert_eq!(write_json(&Json::Sc(Scalar::Int(-7))), "-7");
    assert_eq!(write_json(&Json::Arr(vec![])), "[]");
    assert_eq!(write_json(&Json::Obj(vec![])), "{}");
    assert_eq!(
        write_json(&Json::Sc(Scalar::Str("tab\there".to_string()))),
        "\"tab\\u0009here\""
    );
}

#[test]
fn the_parser_is_strict_about_canonical_form() {
    // Whitespace, trailing input and stray words are not canonical.
    assert_eq!(parse_json("{ \"a\": 1 }"), None);
    assert_eq!(parse_json("true false"), None);
    assert_eq!(parse_json("null"), None);
    assert_eq!(parse_json(""), None);
    // Canonical forms parse.
    assert_eq!(parse_json("true"), Some(Json::Sc(Scalar::Bool(true))));
    assert_eq!(
        parse_json("{\"a\":1}"),
        Some(Json::Obj(vec![("a".to_string(), Scalar::Int(1))]))
    );
    assert_eq!(
        parse_json("\"\\u0041\""),
        Some(Json::Sc(Scalar::Str("A".to_string())))
    );
}

#[test]
fn numbers_past_machine_range_are_rejected() {
    assert_eq!(parse_json("9223372036854775808"), None);
    assert_eq!(parse_json("-9223372036854775809"), None);
    assert_eq!(
        parse_json("-9223372036854775808"),
        Some(Json::Sc(Scalar::Int(i64::MIN)))
    );
}
