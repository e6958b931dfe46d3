use scope_loadgen::config::{Config, DEFAULT_CALLS};

fn args(list: &[&str]) -> Vec<String> {
    list.iter().map(|s| s.to_string()).collect()
}

#[test]
fn no_argument_selects_the_local_default() {
    let config = Config::from_args(&args(&["loadgen"]));
    assert_eq!(config.endpoint, "127.0.0.1:9090");
    assert_eq!(config.scope, "hello5");
    assert_eq!(config.calls, 10000);
}

#[test]
fn empty_argument_list_selects_the_local_default() {
    let config = Config::from_args(&Vec::new());
    assert_eq!(config.endpoint, "127.0.0.1:9090");
}

#[test]
fn first_argument_selects_the_endpoint() {
    let config = Config::from_args(&args(&["loadgen", "10.1.2.3:9999"]));
    assert_eq!(config.endpoint, "10.1.2.3:9999");
    assert_eq!(config.scope, "hello5");
    assert_eq!(config.calls, DEFAULT_CALLS);
}

#[test]
fn further_arguments_are_not_looked_at() {
    let config = Config::from_args(&args(&["loadgen", "a:1", "b:2", "--flag"]));
    assert_eq!(config.endpoint, "a:1");
    assert_eq!(config.calls, 10000);
}

#[test]
fn requests_are_one_scope_name_per_call() {
    let config = Config::from_args(&args(&["loadgen"]));
    let requests = config.requests();
    assert_eq!(requests.len(), 10000);
    assert!(requests.iter().all(|request| request == "hello5"));
}

#[test]
fn requests_follow_the_configured_count_and_scope() {
    let config = Config { endpoint: "e:1".to_string(), scope: "s".to_string(), calls: 3 };
    assert_eq!(config.requests(), vec!["s".to_string(), "s".to_string(), "s".to_string()]);
    let none = Config { endpoint: "e:1".to_string(), scope: "s".to_string(), calls: 0 };
    assert!(none.requests().is_empty());
}
