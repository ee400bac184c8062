use influxdb::address::{build_url_with_query, credential_query, encode_query, join_path, port_text};
use influxdb::{
    Cluster, Instance, RequestError, RequestStatus, Response, Scheme, ShardSpace,
    TransportOutcome,
};

fn inst(host: &str) -> Instance {
    Instance::new(Scheme::Http, host.to_string(), 8086)
}

fn hosts(v: &[Instance]) -> Vec<String> {
    v.iter().map(|i| i.host.clone()).collect()
}

fn segs(p: &[&str]) -> Vec<String> {
    p.iter().map(|s| s.to_string()).collect()
}

#[test]
fn failed_dispatch_disables_then_readmits() {
    let mut c = Cluster::new(inst("a"), "root".to_string(), "root".to_string());
    c.set_failover_timeout(5000);
    let (mut status, target) = c.request(&segs(&["db"]), None);
    assert!(status.is_pending());
    let target = target.unwrap();
    assert_eq!(target.instance.host, "a");
    let readmit = c.finish_request(
        &target.instance,
        TransportOutcome::Failure("connection refused".to_string()),
        &mut status,
    );
    assert_eq!(
        status,
        RequestStatus::Failed(RequestError::TransportFailure("connection refused".to_string()))
    );
    assert!(c.get_instances_available().is_empty());
    assert_eq!(hosts(&c.get_instances_disabled()), vec!["a"]);
    let readmit = readmit.unwrap();
    assert_eq!(readmit.after_ms, 5000);
    assert_eq!(readmit.instance, inst("a"));
    assert!(c.enable_instance(&readmit.instance));
    assert_eq!(hosts(&c.get_instances_available()), vec!["a"]);
    assert!(c.get_instances_disabled().is_empty());
    assert!(!c.enable_instance(&readmit.instance));
}

#[test]
fn empty_pool_fails_without_a_call() {
    let mut c = Cluster::new(inst("a"), String::new(), String::new());
    c.disable_instance(&inst("a"));
    let (status, target) = c.request(&segs(&["db"]), None);
    assert_eq!(status, RequestStatus::Failed(RequestError::NoInstancesAvailable));
    assert!(target.is_none());
}

#[test]
fn two_submissions_get_distinct_instances() {
    let mut c = Cluster::new(inst("a"), String::new(), String::new());
    c.add_host(inst("b"));
    let (_, t1) = c.request(&segs(&["x"]), None);
    let (_, t2) = c.request(&segs(&["x"]), None);
    assert_eq!(t1.unwrap().instance.host, "a");
    assert_eq!(t2.unwrap().instance.host, "b");
}

#[test]
fn server_error_response_keeps_instance() {
    let mut c = Cluster::new(inst("a"), String::new(), String::new());
    let (mut status, target) = c.request(&segs(&["db"]), None);
    let target = target.unwrap();
    let resp = Response { status: 500, body: "internal".to_string() };
    let readmit =
        c.finish_request(&target.instance, TransportOutcome::Response(resp.clone()), &mut status);
    assert!(readmit.is_none());
    assert_eq!(status, RequestStatus::Complete(resp));
    assert_eq!(hosts(&c.get_instances_available()), vec!["a"]);
    assert!(c.get_instances_disabled().is_empty());
}

#[test]
fn request_url_carries_credentials_last() {
    let mut c = Cluster::new(
        Instance::new(Scheme::Https, "db.example.com".to_string(), 443),
        "root".to_string(),
        "secret pw".to_string(),
    );
    let query = vec![("q".to_string(), "a&b".to_string())];
    let (_, target) = c.request(&segs(&["cluster", "database_configs", "db1"]), Some(query));
    assert_eq!(
        target.unwrap().url,
        "https://db.example.com:443/cluster/database_configs/db1?q=a%26b&u=root&p=secret+pw"
    );
}

#[test]
fn request_url_without_caller_query() {
    let mut c = Cluster::default();
    let (_, target) = c.request(&segs(&["ping"]), None);
    assert_eq!(target.unwrap().url, "http://127.0.0.1:8086/ping?u=&p=");
}

#[test]
fn url_pieces() {
    assert_eq!(port_text(0), "0");
    assert_eq!(port_text(7), "7");
    assert_eq!(port_text(8086), "8086");
    assert_eq!(port_text(65535), "65535");
    assert_eq!(join_path(&segs(&[])), "");
    assert_eq!(join_path(&segs(&["a"])), "a");
    assert_eq!(join_path(&segs(&["a", "b", "c"])), "a/b/c");
    assert_eq!(
        build_url_with_query(&inst("h"), &segs(&["x", "y"]), "k=v"),
        "http://h:8086/x/y?k=v"
    );
}

#[test]
fn status_is_written_once() {
    let mut s: RequestStatus<u32, String> = RequestStatus::new();
    assert!(s.is_pending());
    assert!(s.complete(3));
    assert!(!s.fail("late".to_string()));
    assert!(!s.complete(4));
    assert_eq!(s, RequestStatus::Complete(3));
    let mut f: RequestStatus<u32, String> = RequestStatus::new();
    assert!(f.fail("down".to_string()));
    assert!(!f.complete(1));
    assert_eq!(f, RequestStatus::Failed("down".to_string()));
}

#[test]
fn disable_absent_instance_changes_nothing() {
    let mut c = Cluster::new(inst("a"), String::new(), String::new());
    assert!(c.disable_instance(&inst("b")).is_none());
    assert_eq!(hosts(&c.get_instances_available()), vec!["a"]);
    assert!(c.get_instances_disabled().is_empty());
}

#[test]
fn configuration_defaults_and_setters() {
    let mut c = Cluster::default();
    assert_eq!(c.failover_timeout(), 60_000);
    assert_eq!(c.request_timeout(), None);
    c.set_request_timeout(Some(1500));
    c.set_failover_timeout(500);
    assert_eq!(c.request_timeout(), Some(1500));
    assert_eq!(c.failover_timeout(), 500);
    assert_eq!(hosts(&c.get_instances_available()), vec!["127.0.0.1"]);
}

#[test]
fn cooldown_change_applies_to_later_demotions() {
    let mut c = Cluster::new(inst("a"), String::new(), String::new());
    c.add_host(inst("b"));
    let first = c.disable_instance(&inst("a")).unwrap();
    c.set_failover_timeout(250);
    let second = c.disable_instance(&inst("b")).unwrap();
    assert_eq!(first.after_ms, 60_000);
    assert_eq!(second.after_ms, 250);
}

#[test]
fn shard_space_defaults() {
    let s = ShardSpace::default();
    assert_eq!(s.name, "");
    assert_eq!(s.retention_policy, 60 * 86400);
    assert_eq!(s.shard_duration, 14 * 86400);
    assert_eq!(s.regex, ".*");
    assert_eq!(s.replication_factor, 1);
    assert_eq!(s.split, 1);
}

fn pairs(p: &[(&str, &str)]) -> Vec<(String, String)> {
    p.iter().map(|(k, v)| (k.to_string(), v.to_string())).collect()
}

#[test]
fn caller_credentials_are_replaced() {
    let q = credential_query(
        Some(pairs(&[("u", "eve"), ("db", "x"), ("p", "guess"), ("n", "1")])),
        &"root".to_string(),
        &"pw".to_string(),
    );
    assert_eq!(q, pairs(&[("db", "x"), ("n", "1"), ("u", "root"), ("p", "pw")]));
    let q = credential_query(None, &"a".to_string(), &"b".to_string());
    assert_eq!(q, pairs(&[("u", "a"), ("p", "b")]));
}

#[test]
fn request_url_has_credentials_once() {
    let mut c = Cluster::new(inst("h"), "root".to_string(), "pw".to_string());
    let (_, target) = c.request(&segs(&["q"]), Some(pairs(&[("p", "x"), ("u", "y")])));
    assert_eq!(target.unwrap().url, "http://h:8086/q?u=root&p=pw");
}

#[test]
fn query_encoding() {
    assert_eq!(encode_query(&pairs(&[])), "");
    assert_eq!(encode_query(&pairs(&[("a", "1")])), "a=1");
    assert_eq!(encode_query(&pairs(&[("k y", "v&w"), ("z", "*-._~")])), "k+y=v%26w&z=*-._%7E");
    assert_eq!(encode_query(&pairs(&[("q", "\u{e9}")])), "q=%C3%A9");
}
