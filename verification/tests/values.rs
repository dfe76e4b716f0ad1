//! JSON that is read from bytes and written as text.

use lark_arena::json::{obj1, obj2, text, Json};
use lark_arena::values::{parse_body, read_json, value_of, write_json};

fn again(s: &str) -> String {
    write_json(&read_json(s.as_bytes()).unwrap())
}

#[test]
fn values_of_every_kind_are_read() {
    assert!(matches!(read_json(b"null"), Some(Json::Null)));
    assert!(matches!(read_json(b" true "), Some(Json::Bool(true))));
    assert!(matches!(read_json(b"42"), Some(Json::Int(42))));
    assert!(matches!(read_json(b"18446744073709551615"), Some(Json::Int(u64::MAX))));
    assert!(matches!(read_json(b"-7"), Some(Json::Number(n)) if n == "-7"));
    assert!(matches!(read_json(b"2.50"), Some(Json::Number(n)) if n == "2.5"));
    assert!(matches!(read_json(b"\"a\\nb\""), Some(Json::Text(s)) if s == "a\nb"));
    let Some(Json::List(l)) = read_json(b"[1, null, []]") else { panic!("no list") };
    assert_eq!(l.len(), 3);
    assert!(matches!(l[0], Json::Int(1)));
    assert!(matches!(l[1], Json::Null));
    assert!(matches!(&l[2], Json::List(x) if x.is_empty()));
    let j = read_json("{\"狼\": {\"b\": false}, \"a\": 1}".as_bytes()).unwrap();
    assert_eq!(j.int_at("a"), Some(1));
    assert!(matches!(j.get("狼").unwrap().get("b"), Some(Json::Bool(false))));
    assert!(j.get("b").is_none());
}

#[test]
fn the_last_field_of_a_name_counts() {
    let j = read_json(b"{\"a\":1,\"a\":2}").unwrap();
    assert_eq!(j.int_at("a"), Some(2));
    assert_eq!(write_json(&j), "{\"a\":2}");
    let twice = obj2("a", Json::Int(1), "a", Json::Int(2));
    assert_eq!(write_json(&twice), "{\"a\":2}");
}

#[test]
fn what_is_no_json_reads_as_null() {
    let mut deep = "[".repeat(300);
    deep.push_str(&"]".repeat(300));
    for bytes in [&b""[..], b"nul", b"[1,]", b"1 2", b"\"\xff\"", deep.as_bytes()] {
        assert!(read_json(bytes).is_none());
        assert!(matches!(parse_body(bytes), Json::Null));
    }
    assert!(matches!(parse_body(b"[]"), Json::List(_)));
}

#[test]
fn values_are_written() {
    assert_eq!(write_json(&Json::Null), "null");
    assert_eq!(write_json(&Json::Bool(true)), "true");
    assert_eq!(write_json(&Json::Int(7)), "7");
    assert_eq!(write_json(&Json::Number("-1.5".into())), "-1.5");
    assert_eq!(write_json(&Json::Number("many".into())), "null");
    assert_eq!(write_json(&text("a\"b\n狼")), "\"a\\\"b\\n狼\"");
    let l = Json::List(vec![Json::Int(1), Json::Null, obj1("k", Json::List(vec![]))]);
    assert_eq!(write_json(&l), "[1,null,{\"k\":[]}]");
    let o = obj2("b", Json::Int(1), "a", text("x"));
    assert_eq!(write_json(&o), "{\"a\":\"x\",\"b\":1}");
    assert_eq!(value_of(&o)["b"], serde_json::Value::from(1));
}

#[test]
fn what_is_read_is_written_as_it_was() {
    for s in [
        "null",
        "[-3,0.5,1e+100,{}]",
        "{\"action\":\"wolf_kill\",\"game\":3,\"target\":\"p6\"}",
        "\"\\u0001\\t\"",
    ] {
        assert_eq!(again(s), s);
    }
}
