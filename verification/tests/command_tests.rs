use shush::batch::Action;
use shush::client::{HttpRequest, Method, SensuClient};
use shush::command::{announce_request, Command};
use shush::err::SensuError;
use shush::expire::Expire;
use shush::json::Json;
use shush::opts::{ClearOpts, ListOpts, SilenceOpts};
use shush::payload::SensuPayload;
use shush::resources::{ShushResourceType, ShushResources};

type Answer = Result<Option<Json>, SensuError>;

fn client() -> SensuClient {
    SensuClient::new("http://sensu:4567".to_string(), Some("ops".to_string())).unwrap()
}

fn names(list: &[&str]) -> Vec<String> {
    list.iter().map(|s| s.to_string()).collect()
}

fn target(kind: ShushResourceType, ids: &[&str]) -> Option<ShushResources> {
    Some(ShushResources { res_type: kind, resources: names(ids) })
}

fn show(req: &HttpRequest) -> String {
    let method = match req.method {
        Method::Get => "GET",
        Method::Post => "POST",
    };
    match &req.body {
        Some(b) => format!("{} {} {}", method, req.target.to_text(), b.text),
        None => format!("{} {}", method, req.target.to_text()),
    }
}

fn drive(start: (Command, Vec<String>), answers: Vec<Answer>) -> (Vec<String>, Vec<String>, Option<u8>) {
    let client = client();
    let (mut command, mut printed) = start;
    let mut sent = Vec::new();
    let mut answers = answers.into_iter();
    loop {
        if let Some(line) = command.announce() {
            printed.push(line);
        }
        let outcome = match command.request(&client) {
            None => break,
            Some(Ok(req)) => {
                sent.push(show(&req));
                answers.next().unwrap()
            }
            Some(Err(e)) => Err(e),
        };
        let (next, lines) = command.receive(outcome);
        command = next;
        printed.extend(lines);
    }
    assert!(answers.next().is_none());
    (sent, printed, command.exit_code())
}

#[test]
fn silence_checks_on_subscriptions() {
    let listing = Json::parse(b"[{\"name\":\"c\",\"subscriptions\":[\"A\",\"B\"]}]").unwrap();
    let start = SensuClient::silence(SilenceOpts {
        resources: target(ShushResourceType::Sub, &["A", "B"]),
        checks: Some(names(&["X", "Y"])),
        expire: Expire::Expire(60, false),
    });
    let (sent, printed, code) = drive(
        start,
        vec![Ok(Some(listing)), Ok(None), Ok(None), Ok(None), Ok(None)],
    );
    assert_eq!(
        sent,
        vec![
            "GET http://sensu:4567/clients",
            r#"POST http://sensu:4567/silenced {"check":"X","creator":"ops","expire":60,"subscription":"A"}"#,
            r#"POST http://sensu:4567/silenced {"check":"Y","creator":"ops","expire":60,"subscription":"A"}"#,
            r#"POST http://sensu:4567/silenced {"check":"X","creator":"ops","expire":60,"subscription":"B"}"#,
            r#"POST http://sensu:4567/silenced {"check":"Y","creator":"ops","expire":60,"subscription":"B"}"#,
        ]
    );
    assert_eq!(
        printed,
        vec![
            "Silencing check X on resource A and will expire in 60 seconds",
            "Silencing check Y on resource A and will expire in 60 seconds",
            "Silencing check X on resource B and will expire in 60 seconds",
            "Silencing check Y on resource B and will expire in 60 seconds",
        ]
    );
    assert_eq!(code, Some(0));
}

#[test]
fn second_of_four_fails() {
    let start = SensuClient::silence(SilenceOpts {
        resources: target(ShushResourceType::Sub, &["A", "B"]),
        checks: Some(names(&["X", "Y"])),
        expire: Expire::NoExpiration(false),
    });
    let (sent, printed, code) = drive(
        start,
        vec![
            Err(SensuError::Message("no listing".to_string())),
            Ok(None),
            Err(SensuError::Message("server error".to_string())),
        ],
    );
    assert_eq!(
        sent,
        vec![
            "GET http://sensu:4567/clients",
            r#"POST http://sensu:4567/silenced {"check":"X","creator":"ops","subscription":"A"}"#,
            r#"POST http://sensu:4567/silenced {"check":"Y","creator":"ops","subscription":"A"}"#,
        ]
    );
    assert_eq!(
        printed,
        vec![
            "no listing\nProceeding without subscription validation",
            "Silencing check X on resource A and will never expire",
            "Silencing check Y on resource A and will never expire",
            "server error",
        ]
    );
    assert_eq!(code, Some(1));
}

#[test]
fn silence_resources_without_checks() {
    let start = SensuClient::silence(SilenceOpts {
        resources: target(ShushResourceType::Client, &["A", "B"]),
        checks: None,
        expire: Expire::NoExpiration(true),
    });
    let (sent, printed, code) = drive(start, vec![Ok(None), Ok(None), Ok(None), Ok(None)]);
    assert_eq!(
        sent,
        vec![
            "GET http://sensu:4567/clients/A",
            "GET http://sensu:4567/clients/B",
            r#"POST http://sensu:4567/silenced {"creator":"ops","expire_on_resolve":true,"subscription":"client:A"}"#,
            r#"POST http://sensu:4567/silenced {"creator":"ops","expire_on_resolve":true,"subscription":"client:B"}"#,
        ]
    );
    assert_eq!(
        printed,
        vec![
            "Silencing all checks on resource client:A and will not expire until resolution",
            "Silencing all checks on resource client:B and will not expire until resolution",
        ]
    );
    assert_eq!(code, Some(0));
}

#[test]
fn silence_checks_on_all_resources() {
    let start = SensuClient::silence(SilenceOpts {
        resources: None,
        checks: Some(names(&["X"])),
        expire: Expire::Expire(7200, true),
    });
    let (sent, printed, code) = drive(start, vec![Ok(None)]);
    assert_eq!(
        sent,
        vec![
            r#"POST http://sensu:4567/silenced {"check":"X","creator":"ops","expire":7200,"expire_on_resolve":true}"#
        ]
    );
    assert_eq!(
        printed,
        vec!["Silencing checks X on all resources and will expire in 7200 seconds or on resolution"]
    );
    assert_eq!(code, Some(0));
}

#[test]
fn no_targets_is_an_error() {
    for start in [
        SensuClient::silence(SilenceOpts {
            resources: None,
            checks: None,
            expire: Expire::NoExpiration(false),
        }),
        SensuClient::clear(ClearOpts { resources: None, checks: None }),
    ] {
        let (sent, printed, code) = drive(start, Vec::new());
        assert_eq!(sent, Vec::<String>::new());
        assert_eq!(printed, vec!["No targets specified - Exiting..."]);
        assert_eq!(code, Some(1));
    }
}

#[test]
fn clear_has_no_expiration() {
    let start = SensuClient::clear(ClearOpts {
        resources: target(ShushResourceType::Node, &["i-1", "i-2"]),
        checks: Some(names(&["X"])),
    });
    let listing = Json::parse(b"[{\"name\":\"c1\",\"instance_id\":\"i-1\"}]").unwrap();
    let (sent, printed, code) = drive(start, vec![Ok(Some(listing)), Ok(None), Ok(None)]);
    assert_eq!(
        sent,
        vec![
            "GET http://sensu:4567/clients",
            "GET http://sensu:4567/clients/c1",
            r#"POST http://sensu:4567/silenced/clear {"check":"X","creator":"ops","subscription":"client:c1"}"#,
        ]
    );
    assert_eq!(
        printed,
        vec![
            "WARNING: instance ID \"i-2\" not associated with Sensu client ID\nIf you recently provisioned an instance, please wait for it to register with Sensu\n",
            "Clearing silences on checks X on resources client:c1",
        ]
    );
    assert_eq!(code, Some(0));
}

#[test]
fn node_listing_failure_ends_the_command() {
    let start = SensuClient::silence(SilenceOpts {
        resources: target(ShushResourceType::Node, &["i-1"]),
        checks: Some(names(&["X"])),
        expire: Expire::NoExpiration(false),
    });
    let (sent, printed, code) = drive(start, vec![Err(SensuError::NotFound)]);
    assert_eq!(sent, vec!["GET http://sensu:4567/clients"]);
    assert_eq!(printed, vec!["404 Not found"]);
    assert_eq!(code, Some(1));
}

#[test]
fn all_identifiers_dropped_sends_nothing() {
    let start = SensuClient::silence(SilenceOpts {
        resources: target(ShushResourceType::Client, &["gone"]),
        checks: Some(names(&["X"])),
        expire: Expire::NoExpiration(false),
    });
    let (sent, printed, code) = drive(start, vec![Err(SensuError::NotFound)]);
    assert_eq!(sent, vec!["GET http://sensu:4567/clients/gone"]);
    assert_eq!(printed, vec!["WARNING: client \"gone\" is not registered with Sensu"]);
    assert_eq!(code, Some(0));
}

#[test]
fn request_that_cannot_be_made_counts_as_its_outcome() {
    let start = SensuClient::clear(ClearOpts {
        resources: target(ShushResourceType::Client, &["bad name", "ok"]),
        checks: None,
    });
    let (sent, printed, code) = drive(start, vec![Ok(None), Ok(None), Ok(None)]);
    assert_eq!(
        sent,
        vec![
            "GET http://sensu:4567/clients/ok",
            r#"POST http://sensu:4567/silenced/clear {"creator":"ops","subscription":"client:bad name"}"#,
            r#"POST http://sensu:4567/silenced/clear {"creator":"ops","subscription":"client:ok"}"#,
        ]
    );
    assert_eq!(printed.len(), 2);
    assert_eq!(code, Some(0));
}

#[test]
fn list_shows_matching_silences_with_creator() {
    let silenced = Json::parse(
        b"[{\"subscription\":\"web\",\"check\":\"cpu\",\"expire\":30,\"creator\":\"amy\"},\
          {\"subscription\":\"db\",\"check\":\"cpu\"},\
          {\"check\":\"disk\",\"expire_on_resolve\":true}]",
    )
    .unwrap();
    let start = SensuClient::list(ListOpts { sub: None, chk: Some("^cpu$".to_string()) });
    let (sent, printed, code) = drive(start, vec![Ok(Some(silenced))]);
    assert_eq!(sent, vec!["GET http://sensu:4567/silenced"]);
    assert_eq!(
        printed,
        vec![
            "Active silences:\n\n\tSubscription: web\n\tCheck: cpu\n\tExpires in 30 seconds\n\tCreator: amy\n\n\tSubscription: db\n\tCheck: cpu\n\tExpires never\n\tCreator: unknown"
        ]
    );
    assert_eq!(code, Some(0));
}

#[test]
fn list_warns_of_a_broken_pattern() {
    let silenced = Json::parse(b"[{\"subscription\":\"web\",\"check\":\"cpu\"}]").unwrap();
    let start = SensuClient::list(ListOpts { sub: Some("(".to_string()), chk: None });
    let (_, printed, code) = drive(start, vec![Ok(Some(silenced))]);
    assert_eq!(
        printed,
        vec![
            "WARNING: \"(\" is not a valid regular expression - matching everything",
            "Active silences:\n\n\tSubscription: web\n\tCheck: cpu\n\tExpires never\n\tCreator: unknown",
        ]
    );
    assert_eq!(code, Some(0));
}

#[test]
fn list_failure_prints_the_message_only() {
    let start = SensuClient::list(ListOpts { sub: None, chk: None });
    let (sent, printed, code) = drive(start, vec![Err(SensuError::Message("refused".to_string()))]);
    assert_eq!(sent.len(), 1);
    assert_eq!(printed, vec!["refused"]);
    assert_eq!(code, Some(1));
}

#[test]
fn list_of_nothing_prints_nothing() {
    for answer in [Ok(None), Ok(Some(Json::Array(Vec::new()))), Ok(Some(Json::Null))] {
        let start = SensuClient::list(ListOpts { sub: None, chk: None });
        let (_, printed, code) = drive(start, vec![answer]);
        assert_eq!(printed, Vec::<String>::new());
        assert_eq!(code, Some(0));
    }
}

#[test]
fn finished_command_stays_finished() {
    let (command, _) = SensuClient::list(ListOpts { sub: None, chk: None });
    assert_eq!(command.exit_code(), None);
    let (command, _) = command.receive(Ok(None));
    assert_eq!(command.exit_code(), Some(0));
    let (command, lines) = command.receive(Err(SensuError::NotFound));
    assert_eq!(lines, Vec::<String>::new());
    assert_eq!(command.exit_code(), Some(0));
    assert!(command.request(&client()).is_none());
    assert_eq!(command.announce(), None);
}

#[test]
fn begin_is_what_silence_and_clear_do() {
    let (command, lines) = Command::begin(Action::Clear, None, Some(names(&["X"])), None);
    assert_eq!(lines, Vec::<String>::new());
    assert_eq!(
        command.announce(),
        Some("Clearing silences on checks X on all resources".to_string())
    );
}

#[test]
fn announcements() {
    let p = |r: Option<&str>, c: Option<&str>, e| SensuPayload {
        res: r.map(|s| s.to_string()),
        chk: c.map(|s| s.to_string()),
        expire: e,
    };
    assert_eq!(
        announce_request(Action::Clear, &p(Some("r"), None, None)),
        "Clearing silences on all checks on resources r"
    );
    assert_eq!(
        announce_request(Action::Clear, &p(Some("r"), Some("c"), None)),
        "Clearing silences on checks c on resources r"
    );
    assert_eq!(
        announce_request(Action::Clear, &p(None, None, None)),
        "Clearing silences on all checks on all resources"
    );
    assert_eq!(
        announce_request(Action::Silence, &p(None, None, Some(Expire::NoExpiration(false)))),
        "Silencing all checks on all resources and will never expire"
    );
}
