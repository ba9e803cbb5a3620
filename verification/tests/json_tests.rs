use shush::json::{remove_fold, Json};

fn text(s: &str) -> Json {
    Json::String(s.to_string())
}

#[test]
fn parse_reads_every_kind() {
    let doc = Json::parse(b"{\"s\":\"c1\",\"n\":3,\"neg\":-3,\"f\":1.5,\"t\":true,\"z\":null,\"a\":[1,\"x\"]}")
        .unwrap();
    assert_eq!(doc.get("s"), Some(&text("c1")));
    assert_eq!(doc.get("n"), Some(&Json::Number(3)));
    assert_eq!(doc.get("neg"), Some(&Json::Other));
    assert_eq!(doc.get("f"), Some(&Json::Other));
    assert_eq!(doc.get("t"), Some(&Json::Bool(true)));
    assert_eq!(doc.get("z"), Some(&Json::Null));
    assert_eq!(doc.get("a"), Some(&Json::Array(vec![Json::Number(1), text("x")])));
    assert_eq!(doc.get("missing"), None);
}

#[test]
fn parse_refuses_what_is_no_json() {
    assert!(Json::parse(b"{").is_err());
    assert!(Json::parse(b"").is_err());
    assert!(Json::parse(b"[1,]").is_err());
    assert!(!Json::parse(b"nope").unwrap_err().is_empty());
}

#[test]
fn parse_keeps_nested_values() {
    let doc = Json::parse(b"[{\"check\":{\"name\":\"cpu\"}}]").unwrap();
    let items = doc.as_array().unwrap();
    assert_eq!(items.len(), 1);
    assert_eq!(remove_fold(&items[0], "check.name"), Some(&text("cpu")));
}

#[test]
fn accessors_tell_the_kinds_apart() {
    assert_eq!(text("a").as_str(), Some(&"a".to_string()));
    assert_eq!(Json::Number(1).as_str(), None);
    assert_eq!(Json::Number(7).as_u64(), Some(7));
    assert_eq!(Json::Other.as_u64(), None);
    assert_eq!(text("7").as_u64(), None);
    assert_eq!(Json::Bool(false).as_bool(), Some(false));
    assert_eq!(Json::Null.as_bool(), None);
    assert_eq!(Json::Array(Vec::new()).as_array(), Some(&Vec::new()));
    assert_eq!(Json::Object(Vec::new()).as_array(), None);
    assert_eq!(text("a").get("a"), None);
}

#[test]
fn first_member_of_a_name_counts() {
    let doc = Json::Object(vec![
        ("k".to_string(), Json::Number(1)),
        ("k".to_string(), Json::Number(2)),
        ("s".to_string(), text("v")),
    ]);
    assert_eq!(doc.get("k"), Some(&Json::Number(1)));
    assert_eq!(doc.text_member("s"), Some(&"v".to_string()));
    assert_eq!(doc.text_member("k"), None);
    assert_eq!(doc.text_member("none"), None);
}

#[test]
fn dotted_keys_go_into_members() {
    let doc = Json::Object(vec![(
        "a".to_string(),
        Json::Object(vec![("b".to_string(), Json::Object(vec![("c".to_string(), text("deep"))]))]),
    )]);
    assert_eq!(remove_fold(&doc, "a.b.c"), Some(&text("deep")));
    assert!(remove_fold(&doc, "a.b").is_some());
    assert_eq!(remove_fold(&doc, "a.x.c"), None);
    assert_eq!(remove_fold(&doc, "a.b.c.d"), None);
    assert_eq!(remove_fold(&doc, ""), None);
    assert_eq!(remove_fold(&doc, "a."), None);
}
