use shush::client::{Method, SensuClient};
use shush::endpoint::SensuEndpoint;
use shush::expire::Expire;
use shush::payload::{encode, Field, SensuPayload};
use shush::resource::SensuResource;

fn body_of(payload: SensuPayload) -> String {
    let client = SensuClient::new("http://localhost:4567".to_string(), Some("tester".to_string()))
        .unwrap();
    let req = client.request(Method::Post, SensuEndpoint::Silenced, Some(payload)).unwrap();
    req.body.unwrap().text
}

#[test]
fn test_sensu_payload_into_string() {
    let plstring = body_of(SensuPayload {
        res: None,
        chk: Some("this-is-a-test".to_string()),
        expire: Some(Expire::NoExpiration(false)),
    });
    assert_eq!(plstring, r#"{"check":"this-is-a-test","creator":"tester"}"#);
    let plstring = body_of(SensuPayload {
        res: Some(SensuResource::Client("test-resource".to_string()).to_text()),
        chk: Some("this-is-a-test".to_string()),
        expire: Some(Expire::NoExpiration(false)),
    });
    assert_eq!(
        plstring,
        r#"{"check":"this-is-a-test","creator":"tester","subscription":"client:test-resource"}"#
    );
    let plstring = body_of(SensuPayload {
        res: Some(SensuResource::Subscription("test-resource".to_string()).to_text()),
        chk: Some("this-is-a-test".to_string()),
        expire: Some(Expire::Expire(100, false)),
    });
    assert_eq!(
        plstring,
        r#"{"check":"this-is-a-test","creator":"tester","expire":100,"subscription":"test-resource"}"#
    );
    let plstring = body_of(SensuPayload {
        res: Some(SensuResource::Subscription("test-resource".to_string()).to_text()),
        chk: None,
        expire: Some(Expire::NoExpiration(true)),
    });
    assert_eq!(
        plstring,
        r#"{"creator":"tester","expire_on_resolve":true,"subscription":"test-resource"}"#
    );
    let plstring = body_of(SensuPayload {
        res: Some(SensuResource::Client("resource".to_string()).to_text()),
        chk: None,
        expire: None,
    });
    assert_eq!(plstring, r#"{"creator":"tester","subscription":"client:resource"}"#);
}

#[test]
fn payload_for_a_client_with_a_time_limit() {
    let payload = SensuPayload {
        res: Some(SensuResource::Client("c1".to_string()).to_text()),
        chk: Some("chk".to_string()),
        expire: Some(Expire::Expire(100, false)),
    };
    let fields = payload.into_fields("me".to_string());
    assert_eq!(
        fields,
        vec![
            ("creator".to_string(), Field::Text("me".to_string())),
            ("subscription".to_string(), Field::Text("client:c1".to_string())),
            ("check".to_string(), Field::Text("chk".to_string())),
            ("expire".to_string(), Field::Count(100)),
        ]
    );
    assert!(!fields.iter().any(|f| f.0 == "expire_on_resolve"));
    assert_eq!(
        encode(&fields).unwrap(),
        r#"{"check":"chk","creator":"me","expire":100,"subscription":"client:c1"}"#
    );
}

#[test]
fn payload_with_time_limit_and_resolve() {
    let payload = SensuPayload {
        res: None,
        chk: Some("chk".to_string()),
        expire: Some(Expire::Expire(5, true)),
    };
    assert_eq!(
        payload.into_fields("me".to_string()),
        vec![
            ("creator".to_string(), Field::Text("me".to_string())),
            ("check".to_string(), Field::Text("chk".to_string())),
            ("expire".to_string(), Field::Count(5)),
            ("expire_on_resolve".to_string(), Field::Flag(true)),
        ]
    );
}

#[test]
fn payload_without_expiration_has_only_creator_and_target() {
    let payload = SensuPayload { res: None, chk: None, expire: Some(Expire::NoExpiration(false)) };
    assert_eq!(
        payload.into_fields("me".to_string()),
        vec![("creator".to_string(), Field::Text("me".to_string()))]
    );
}

#[test]
fn encode_escapes_and_writes_every_kind() {
    let fields = vec![
        ("b".to_string(), Field::Flag(false)),
        ("a".to_string(), Field::Text("say \"hi\"\n".to_string())),
        ("c".to_string(), Field::Count(u64::MAX)),
    ];
    assert_eq!(
        encode(&fields).unwrap(),
        r#"{"a":"say \"hi\"\n","b":false,"c":18446744073709551615}"#
    );
    assert_eq!(encode(&Vec::new()).unwrap(), "{}");
}

#[test]
fn duplicate_keeps_the_payload() {
    let payload = SensuPayload {
        res: Some("r".to_string()),
        chk: None,
        expire: Some(Expire::Expire(1, true)),
    };
    assert_eq!(payload.duplicate(), payload);
}

#[test]
fn encode_refuses_no_member() {
    let fields = vec![
        ("".to_string(), Field::Text("".to_string())),
        ("ctl".to_string(), Field::Text("\u{0}\u{1f}\t\\".to_string())),
        ("ünï".to_string(), Field::Text("日本語 \u{1F600}".to_string())),
        ("zero".to_string(), Field::Count(0)),
        ("flag".to_string(), Field::Flag(true)),
        ("flag".to_string(), Field::Flag(false)),
    ];
    assert_eq!(
        encode(&fields),
        Ok("{\"\":\"\",\"ctl\":\"\\u0000\\u001f\\t\\\\\",\"flag\":false,\"zero\":0,\"ünï\":\"日本語 \u{1F600}\"}"
            .to_string())
    );
}

#[test]
fn request_with_a_body_is_made_wherever_the_path_can_be_addressed() {
    let client = SensuClient::new("http://sensu.example:4567".to_string(), None).unwrap();
    for endpoint in [SensuEndpoint::Silenced, SensuEndpoint::Clear] {
        let payload = SensuPayload {
            res: Some("client:\"odd\" name\n".to_string()),
            chk: Some("chk".to_string()),
            expire: Some(Expire::Expire(usize::MAX, true)),
        };
        let made = client.request(Method::Post, endpoint, Some(payload)).unwrap();
        let body = made.body.unwrap();
        assert_eq!(body.content_length, body.text.len());
        assert_eq!(body.content_type, "application/json");
        assert_eq!(made.target.scheme, Some("http".to_string()));
        assert_eq!(made.target.authority, Some("sensu.example:4567".to_string()));
        assert_eq!(made.target.path_and_query, Some(endpoint.to_path()));
    }
}
