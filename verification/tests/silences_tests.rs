use shush::json::Json;
use shush::pattern::{Filter, Pattern};
use shush::silences::{filter_vec, render, select, Silence};

fn text(s: &str) -> Json {
    Json::String(s.to_string())
}

fn entry(subscription: &str, check: &str, expire: u64) -> Json {
    Json::Object(vec![
        ("subscription".to_string(), text(subscription)),
        ("check".to_string(), text(check)),
        ("expire".to_string(), Json::Number(expire)),
    ])
}

#[test]
fn test_filter_vec() {
    let res = filter_vec(
        vec![
            entry("asldAKHll", "9374982", 200),
            entry("10alskd", "a2i1o4u", 200),
            entry("******", "asdf", 200),
        ],
        Some("^[a-zA-Z]+$".to_string()),
        Some("^[0-9]+$".to_string()),
    );
    assert_eq!(
        res,
        Some(
            "Active silences:\n\n\tSubscription: asldAKHll\n\tCheck: 9374982\n\tExpires in 200 seconds"
                .to_string()
        )
    );
}

#[test]
fn both_patterns_must_match() {
    let entries = vec![
        entry("abc", "123", 1),
        entry("abc", "xyz", 2),
        entry("123", "123", 3),
    ];
    let (sub, _) = Filter::new(Some("^[a-z]+$"));
    let (chk, _) = Filter::new(Some("^[0-9]+$"));
    let kept = select(&entries, &sub, &chk);
    assert_eq!(kept.len(), 1);
    assert_eq!(kept[0].subscription, "abc");
    assert_eq!(kept[0].check, "123");
    assert_eq!(kept[0].expire, Some(1));
}

#[test]
fn nothing_kept_shows_nothing() {
    let res = filter_vec(
        vec![entry("10alskd", "a2i1o4u", 200)],
        Some("^[a-zA-Z]+$".to_string()),
        None,
    );
    assert_eq!(res, None);
    assert_eq!(filter_vec(Vec::new(), None, None), None);
}

#[test]
fn absent_patterns_keep_everything_in_order() {
    let res = filter_vec(vec![entry("b", "2", 5), entry("a", "1", 6)], None, None);
    assert_eq!(
        res,
        Some(
            "Active silences:\n\n\tSubscription: b\n\tCheck: 2\n\tExpires in 5 seconds\n\n\tSubscription: a\n\tCheck: 1\n\tExpires in 6 seconds"
                .to_string()
        )
    );
}

#[test]
fn broken_pattern_matches_everything() {
    let (filter, broken) = Filter::new(Some("(unclosed"));
    assert!(broken);
    assert!(filter.accepts("anything"));
    let (filter, broken) = Filter::new(Some("^a$"));
    assert!(!broken);
    assert!(filter.accepts("a"));
    assert!(!filter.accepts("b"));
    let (filter, broken) = Filter::new(None);
    assert!(!broken);
    assert!(filter.accepts(""));
    let res = filter_vec(vec![entry("s", "c", 1)], Some("(unclosed".to_string()), None);
    assert!(res.is_some());
}

#[test]
fn pattern_compiles_and_matches() {
    assert!(Pattern::compile("[").is_none());
    let p = Pattern::compile("^web-[0-9]+$").unwrap();
    assert!(p.is_match("web-12"));
    assert!(!p.is_match("db-12"));
}

#[test]
fn missing_fields_take_their_defaults() {
    let s = Silence::from_json(&Json::Object(Vec::new())).unwrap();
    assert_eq!(s.subscription, "all");
    assert_eq!(s.check, "all");
    assert_eq!(s.expire, None);
    assert!(!s.expire_on_resolve);
    assert_eq!(s.creator, "unknown");
    assert_eq!(s.expiry(), "never");
}

#[test]
fn defaults_are_matched_literally() {
    let entries = vec![Json::Object(vec![("check".to_string(), text("cpu"))])];
    let (sub, _) = Filter::new(Some("^all$"));
    let (chk, _) = Filter::new(Some("^cpu$"));
    assert_eq!(select(&entries, &sub, &chk).len(), 1);
    let (sub, _) = Filter::new(Some("^web$"));
    assert_eq!(select(&entries, &sub, &chk).len(), 0);
}

#[test]
fn entries_that_are_no_objects_are_passed_over() {
    let entries = vec![text("stray"), Json::Null, entry("s", "c", 1), Json::Number(3)];
    let kept = select(&entries, &Filter::Any, &Filter::Any);
    assert_eq!(kept.len(), 1);
    assert_eq!(kept[0].subscription, "s");
}

#[test]
fn fields_of_the_wrong_kind_count_as_missing() {
    let s = Silence::from_json(&Json::Object(vec![
        ("subscription".to_string(), Json::Number(1)),
        ("expire".to_string(), text("soon")),
        ("expire_on_resolve".to_string(), text("yes")),
        ("creator".to_string(), Json::Null),
    ]))
    .unwrap();
    assert_eq!(s.subscription, "all");
    assert_eq!(s.expire, None);
    assert!(!s.expire_on_resolve);
    assert_eq!(s.creator, "unknown");
}

#[test]
fn expiry_wording() {
    let mut s = Silence {
        subscription: "s".to_string(),
        check: "c".to_string(),
        expire: Some(30),
        expire_on_resolve: false,
        creator: "me".to_string(),
    };
    assert_eq!(s.expiry(), "in 30 seconds");
    s.expire_on_resolve = true;
    assert_eq!(s.expiry(), "on resolve");
    s.expire = None;
    assert_eq!(s.expiry(), "never");
    s.expire_on_resolve = false;
    assert_eq!(s.expiry(), "never");
}

#[test]
fn listing_with_creator() {
    let silences = vec![Silence {
        subscription: "client:c1".to_string(),
        check: "cpu".to_string(),
        expire: None,
        expire_on_resolve: false,
        creator: "ops".to_string(),
    }];
    assert_eq!(
        render(&silences, true),
        Some(
            "Active silences:\n\n\tSubscription: client:c1\n\tCheck: cpu\n\tExpires never\n\tCreator: ops"
                .to_string()
        )
    );
    assert_eq!(
        silences[0].to_text(false),
        "\n\n\tSubscription: client:c1\n\tCheck: cpu\n\tExpires never"
    );
    assert_eq!(render(&Vec::new(), true), None);
}
