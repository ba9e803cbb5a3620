use shush::err::ConfigError;
use shush::expire::Expire;
use shush::opts::{Args, ClearOpts, ListOpts, ShushOpts, SilenceOpts};
use shush::resources::{ShushResourceType, ShushResources};

fn args() -> Args {
    Args {
        nodes: None,
        ids: None,
        subscriptions: None,
        remove: false,
        list: false,
        checks: None,
        expire: None,
        expire_on_resolve: false,
        config_file: None,
    }
}

fn names(list: &[&str]) -> Vec<String> {
    list.iter().map(|s| s.to_string()).collect()
}

fn some(s: &str) -> Option<String> {
    Some(s.to_string())
}

#[test]
fn silence_is_meant_by_default() {
    let a = Args { nodes: some("i-1,i-2"), checks: some("cpu"), expire: some("1h"), ..args() };
    assert_eq!(
        a.getopts(),
        Ok(ShushOpts::Silence(SilenceOpts {
            resources: Some(ShushResources {
                res_type: ShushResourceType::Node,
                resources: names(&["i-1", "i-2"]),
            }),
            checks: Some(names(&["cpu"])),
            expire: Expire::Expire(3600, false),
        }))
    );
}

#[test]
fn silence_without_flags_has_the_defaults() {
    assert_eq!(
        args().getopts(),
        Ok(ShushOpts::Silence(SilenceOpts {
            resources: None,
            checks: None,
            expire: Expire::Expire(7200, false),
        }))
    );
    let a = Args { expire_on_resolve: true, ..args() };
    assert_eq!(
        a.getopts(),
        Ok(ShushOpts::Silence(SilenceOpts {
            resources: None,
            checks: None,
            expire: Expire::NoExpiration(true),
        }))
    );
}

#[test]
fn expiration_with_expire_on_resolve_is_refused() {
    let a = Args { expire: some("1h"), expire_on_resolve: true, checks: some("c"), ..args() };
    assert_eq!(a.getopts(), Err(ConfigError::ConflictingExpiration));
    let a = Args { expire: some("none"), expire_on_resolve: true, ..args() };
    assert_eq!(a.getopts(), Err(ConfigError::ConflictingExpiration));
}

#[test]
fn bad_clock_expiration_is_refused() {
    let a = Args { expire: some("1:x"), ..args() };
    assert_eq!(a.getopts(), Err(ConfigError::BadClockField));
}

#[test]
fn remove_clears() {
    let a = Args { ids: some("a,b"), remove: true, list: true, expire: some("1:x"), ..args() };
    assert_eq!(
        a.getopts(),
        Ok(ShushOpts::Clear(ClearOpts {
            resources: Some(ShushResources {
                res_type: ShushResourceType::Client,
                resources: names(&["a", "b"]),
            }),
            checks: None,
        }))
    );
}

#[test]
fn list_takes_patterns_as_given() {
    let a = Args { subscriptions: some("web.*,db"), checks: some("^cpu,mem$"), list: true, ..args() };
    assert_eq!(
        a.getopts(),
        Ok(ShushOpts::List(ListOpts { sub: some("web.*,db"), chk: some("^cpu,mem$") }))
    );
    let a = Args { list: true, ..args() };
    assert_eq!(a.getopts(), Ok(ShushOpts::List(ListOpts { sub: None, chk: None })));
    let a = Args { nodes: some("i-.*"), list: true, ..args() };
    assert_eq!(a.getopts(), Ok(ShushOpts::List(ListOpts { sub: some("i-.*"), chk: None })));
}

#[test]
fn nodes_go_before_clients_and_clients_before_subscriptions() {
    let a = Args { nodes: some("n"), ids: some("i"), subscriptions: some("s"), ..args() };
    assert_eq!(a.resources().unwrap().res_type, ShushResourceType::Node);
    let a = Args { ids: some("i"), subscriptions: some("s"), ..args() };
    assert_eq!(a.resources().unwrap().res_type, ShushResourceType::Client);
    let a = Args { subscriptions: some("s"), ..args() };
    assert_eq!(
        a.resources(),
        Some(ShushResources { res_type: ShushResourceType::Sub, resources: names(&["s"]) })
    );
    assert_eq!(args().resources(), None);
}

#[test]
fn values_by_flag_name() {
    let a = Args {
        nodes: some("n1,n2"),
        ids: some("i"),
        subscriptions: some("s"),
        checks: some("c1,c2"),
        expire: some("1h"),
        config_file: some("/tmp/conf"),
        ..args()
    };
    assert_eq!(a.get_match("nodes"), some("n1,n2"));
    assert_eq!(a.get_match("ids"), some("i"));
    assert_eq!(a.get_match("subscriptions"), some("s"));
    assert_eq!(a.get_match("checks"), some("c1,c2"));
    assert_eq!(a.get_match("expire"), some("1h"));
    assert_eq!(a.get_match("configfile"), some("/tmp/conf"));
    assert_eq!(a.get_match("remove"), None);
    assert_eq!(a.get_match("unheard-of"), None);
    assert_eq!(a.get_match_as_vec("checks"), Some(names(&["c1", "c2"])));
    assert_eq!(a.get_match_as_vec("nodes"), Some(names(&["n1", "n2"])));
    assert_eq!(a.get_match_as_vec("unheard-of"), None);
    assert_eq!(args().get_match_as_vec("checks"), None);
}

#[test]
fn an_empty_value_is_one_empty_identifier() {
    let a = Args { subscriptions: some(""), ..args() };
    assert_eq!(a.resources().unwrap().resources, names(&[""]));
}
