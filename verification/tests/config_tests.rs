use shush::config::{choose_path, home_config, lookup, substitute_vars, ShushConfig, TemplateError};

fn env() -> Vec<(String, String)> {
    vec![
        ("USER".to_string(), "jbaublitz".to_string()),
        ("EXAMPLE_HOST".to_string(), "something.host.net".to_string()),
        ("ARG".to_string(), "path".to_string()),
    ]
}

#[test]
fn test_substitude_vars() {
    let out = substitute_vars("https://${EXAMPLE_HOST}", &env()).unwrap();
    assert_eq!(out, "https://something.host.net");
    let out = substitute_vars("https://${EXAMPLE_HOST}/${ARG}", &env()).unwrap();
    assert_eq!(out, "https://something.host.net/path");
    let out = substitute_vars("https://localhost/${ARG}", &env()).unwrap();
    assert_eq!(out, "https://localhost/path");
    let out = substitute_vars("https://localhost/${ARG}", &env()).unwrap();
    assert_eq!(out, "https://localhost/path");
}

#[test]
#[should_panic]
fn test_substitude_vars_not_present_failure() {
    substitute_vars("https://localhost/${NOT_PRESENT}", &env()).unwrap();
}

#[test]
#[should_panic]
fn test_substitude_vars_bad_syntax_failure() {
    substitute_vars("https://localhost/${ARG", &env()).unwrap();
}

#[test]
fn variable_that_is_not_present_is_an_error() {
    assert_eq!(
        substitute_vars("https://localhost/${NOT_PRESENT}", &env()),
        Err(TemplateError::Undefined("NOT_PRESENT".to_string()))
    );
    assert_eq!(
        substitute_vars("${}", &env()),
        Err(TemplateError::Undefined("".to_string()))
    );
}

#[test]
fn reference_that_is_not_closed_is_an_error() {
    assert_eq!(
        substitute_vars("https://localhost/${ARG", &env()),
        Err(TemplateError::Unterminated)
    );
    assert_eq!(substitute_vars("${", &env()), Err(TemplateError::Unterminated));
}

#[test]
fn text_without_variables_stays() {
    assert_eq!(substitute_vars("", &env()).unwrap(), "");
    assert_eq!(substitute_vars("http://h:1", &env()).unwrap(), "http://h:1");
    assert_eq!(substitute_vars("cost: $5 {x}", &env()).unwrap(), "cost: $5 {x}");
    assert_eq!(substitute_vars("a$", &env()).unwrap(), "a$");
    assert_eq!(substitute_vars("a}b", &env()).unwrap(), "a}b");
}

#[test]
fn variables_side_by_side() {
    assert_eq!(substitute_vars("${USER}${ARG}", &env()).unwrap(), "jbaublitzpath");
    assert_eq!(substitute_vars("${USER}}", &env()).unwrap(), "jbaublitz}");
    assert_eq!(
        substitute_vars("${A${USER}", &env()),
        Err(TemplateError::Undefined("A${USER".to_string()))
    );
}

#[test]
fn first_variable_of_a_name_counts() {
    let mut e = env();
    e.push(("ARG".to_string(), "other".to_string()));
    assert_eq!(lookup(&e, "ARG"), Some(&"path".to_string()));
    assert_eq!(lookup(&e, "NONE"), None);
}

#[test]
fn config_keeps_the_last_api() {
    let props = vec![
        ("api".to_string(), "http://first".to_string()),
        ("other".to_string(), "x".to_string()),
        ("api".to_string(), "http://${EXAMPLE_HOST}:4567".to_string()),
        ("more".to_string(), "y".to_string()),
    ];
    let config = ShushConfig::new(&props);
    assert_eq!(
        config.get("api", &env()),
        Ok(Some("http://something.host.net:4567".to_string()))
    );
    assert_eq!(config.get("other", &env()), Ok(None));
    let empty = ShushConfig::new(&Vec::new());
    assert_eq!(empty.get("api", &env()), Ok(None));
}

#[test]
fn config_value_with_a_missing_variable() {
    let props = vec![("api".to_string(), "http://${NOPE}".to_string())];
    let config = ShushConfig::new(&props);
    assert_eq!(
        config.get("api", &env()),
        Err(TemplateError::Undefined("NOPE".to_string()))
    );
    assert_eq!(
        TemplateError::Undefined("NOPE".to_string()).description(),
        "Variable NOPE is not present"
    );
    assert_eq!(
        TemplateError::Unterminated.description(),
        "Variable reference is not closed"
    );
}

#[test]
fn config_paths() {
    assert_eq!(home_config(Some("/home/me")), "/home/me/.shush/shush.conf");
    assert_eq!(home_config(None), "~/.shush/shush.conf");
    let home = "/home/me/.shush/shush.conf".to_string();
    assert_eq!(
        choose_path(Some("/tmp/c".to_string()), true, true, home.clone(), true),
        Some("/tmp/c".to_string())
    );
    assert_eq!(
        choose_path(Some("/tmp/c".to_string()), false, true, home.clone(), true),
        Some("/etc/shush/shush.conf".to_string())
    );
    assert_eq!(choose_path(None, true, false, home.clone(), true), Some(home.clone()));
    assert_eq!(choose_path(None, false, false, home, false), None);
}
