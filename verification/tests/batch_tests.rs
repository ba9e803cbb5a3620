use shush::batch::{expand, Action, Batch};
use shush::endpoint::SensuEndpoint;
use shush::err::{ConfigError, SensuError};
use shush::expire::Expire;
use shush::json::Json;
use shush::payload::SensuPayload;
use shush::resource::SensuResource;

fn subs(list: &[&str]) -> Vec<SensuResource> {
    list.iter().map(|s| SensuResource::Subscription(s.to_string())).collect()
}

fn names(list: &[&str]) -> Vec<String> {
    list.iter().map(|s| s.to_string()).collect()
}

fn pair(r: Option<&str>, c: Option<&str>, expire: Option<Expire>) -> SensuPayload {
    SensuPayload { res: r.map(|s| s.to_string()), chk: c.map(|s| s.to_string()), expire }
}

#[test]
fn every_pair_resource_by_resource() {
    let e = Some(Expire::Expire(60, false));
    let plan = expand(Some(&subs(&["A", "B"])), Some(&names(&["X", "Y"])), e).unwrap();
    assert_eq!(
        plan,
        vec![
            pair(Some("A"), Some("X"), e),
            pair(Some("A"), Some("Y"), e),
            pair(Some("B"), Some("X"), e),
            pair(Some("B"), Some("Y"), e),
        ]
    );
}

#[test]
fn pairs_of_uneven_axes() {
    let plan = expand(Some(&subs(&["A", "B", "C"])), Some(&names(&["X", "Y"])), None).unwrap();
    assert_eq!(plan.len(), 6);
    for i in 0..3 {
        for j in 0..2 {
            assert_eq!(
                plan[i * 2 + j],
                pair(Some(["A", "B", "C"][i]), Some(["X", "Y"][j]), None)
            );
        }
    }
}

#[test]
fn resources_alone_leave_the_check_open() {
    let e = Some(Expire::NoExpiration(true));
    let plan = expand(Some(&subs(&["A", "B"])), None, e).unwrap();
    assert_eq!(plan, vec![pair(Some("A"), None, e), pair(Some("B"), None, e)]);
}

#[test]
fn checks_alone_leave_the_resource_open() {
    let plan = expand(None, Some(&names(&["X", "Y", "Z"])), None).unwrap();
    assert_eq!(
        plan,
        vec![pair(None, Some("X"), None), pair(None, Some("Y"), None), pair(None, Some("Z"), None)]
    );
}

#[test]
fn clients_go_out_in_wire_form() {
    let clients = vec![SensuResource::Client("c1".to_string())];
    let plan = expand(Some(&clients), Some(&names(&["chk"])), None).unwrap();
    assert_eq!(plan, vec![pair(Some("client:c1"), Some("chk"), None)]);
}

#[test]
fn neither_axis_is_an_error() {
    assert_eq!(expand(None, None, None), Err(ConfigError::NoTargets));
    assert_eq!(
        expand(None, None, Some(Expire::Expire(1, false))),
        Err(ConfigError::NoTargets)
    );
}

#[test]
fn an_empty_axis_gives_no_requests() {
    assert_eq!(expand(Some(&Vec::new()), Some(&names(&["X"])), None), Ok(Vec::new()));
    assert_eq!(expand(Some(&subs(&["A"])), Some(&Vec::new()), None), Ok(Vec::new()));
    assert_eq!(expand(Some(&Vec::new()), None, None), Ok(Vec::new()));
}

#[test]
fn batch_sends_in_order_and_succeeds() {
    let plan = expand(Some(&subs(&["A", "B"])), Some(&names(&["X", "Y"])), None).unwrap();
    let mut batch = Batch::new(plan.clone());
    let mut sent = Vec::new();
    while let Some(p) = batch.pending() {
        sent.push(p.duplicate());
        batch.receive(Ok(None));
    }
    assert_eq!(sent, plan);
    assert_eq!(batch.exit_code(), 0);
    assert_eq!(batch.failure(), None);
}

#[test]
fn batch_stops_at_the_first_failure() {
    let plan = expand(Some(&subs(&["A", "B"])), Some(&names(&["X", "Y"])), None).unwrap();
    let mut batch = Batch::new(plan.clone());
    let mut answers = vec![
        Ok(None),
        Err(SensuError::Message("refused".to_string())),
        Ok(None),
        Ok(None),
    ]
    .into_iter();
    let mut sent = Vec::new();
    while let Some(p) = batch.pending() {
        sent.push(p.duplicate());
        batch.receive(answers.next().unwrap());
    }
    assert_eq!(sent, vec![plan[0].clone(), plan[1].clone()]);
    assert_eq!(batch.exit_code(), 1);
    assert_eq!(batch.failure(), Some(&SensuError::Message("refused".to_string())));
    batch.receive(Ok(None));
    assert_eq!(batch.pending(), None);
    assert_eq!(batch.exit_code(), 1);
}

#[test]
fn not_found_fails_a_batch_too() {
    let mut batch = Batch::new(vec![pair(Some("A"), None, None), pair(Some("B"), None, None)]);
    batch.receive(Err(SensuError::NotFound));
    assert_eq!(batch.pending(), None);
    assert_eq!(batch.exit_code(), 1);
    assert_eq!(batch.failure(), Some(&SensuError::NotFound));
}

#[test]
fn a_body_in_the_answer_is_a_success() {
    let mut batch = Batch::new(vec![pair(Some("A"), None, None)]);
    batch.receive(Ok(Some(Json::Object(Vec::new()))));
    assert_eq!(batch.pending(), None);
    assert_eq!(batch.exit_code(), 0);
}

#[test]
fn empty_batch_has_nothing_pending() {
    let mut batch = Batch::new(Vec::new());
    assert_eq!(batch.pending(), None);
    assert_eq!(batch.exit_code(), 0);
    batch.receive(Err(SensuError::NotFound));
    assert_eq!(batch.exit_code(), 0);
}

#[test]
fn actions_have_their_endpoints() {
    assert_eq!(Action::Silence.endpoint(), SensuEndpoint::Silenced);
    assert_eq!(Action::Clear.endpoint(), SensuEndpoint::Clear);
}
