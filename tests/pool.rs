use influxdb::{Instance, Pool, Scheme};

fn inst(host: &str) -> Instance {
    Instance::new(Scheme::Http, host.to_string(), 8086)
}

fn hosts(v: &[Instance]) -> Vec<String> {
    v.iter().map(|i| i.host.clone()).collect()
}

fn pool_of(names: &[&str]) -> Pool {
    let mut p = Pool::new();
    for n in names {
        p.add(inst(n));
    }
    p
}

#[test]
fn it_works() {
}

#[test]
fn three_instances_rotate_and_wrap() {
    let mut p = pool_of(&["a", "b", "c"]);
    let got: Vec<String> = (0..4).map(|_| p.select_next().unwrap().host).collect();
    assert_eq!(got, vec!["a", "b", "c", "a"]);
}

#[test]
fn empty_pool_selects_nothing() {
    let mut p = Pool::new();
    assert!(p.select_next().is_none());
    assert!(p.select_next().is_none());
}

#[test]
fn n_selects_return_each_once_then_repeat() {
    let mut p = pool_of(&["a", "b", "c", "d", "e"]);
    p.select_next();
    p.select_next();
    let got: Vec<String> = (0..6).map(|_| p.select_next().unwrap().host).collect();
    assert_eq!(got, vec!["c", "d", "e", "a", "b", "c"]);
}

#[test]
fn two_selects_on_two_instances_differ() {
    let mut p = pool_of(&["a", "b"]);
    let first = p.select_next().unwrap();
    let second = p.select_next().unwrap();
    assert_ne!(first, second);
}

#[test]
fn demote_moves_to_disabled() {
    let mut p = pool_of(&["a", "b", "c"]);
    assert!(p.demote(&inst("b")));
    assert_eq!(hosts(&p.snapshot_available()), vec!["a", "c"]);
    assert_eq!(hosts(&p.snapshot_disabled()), vec!["b"]);
}

#[test]
fn demote_absent_is_noop() {
    let mut p = pool_of(&["a", "b"]);
    assert!(!p.demote(&inst("z")));
    assert!(!p.demote(&Instance::new(Scheme::Https, "a".to_string(), 8086)));
    assert!(!p.demote(&Instance::new(Scheme::Http, "a".to_string(), 8087)));
    assert_eq!(hosts(&p.snapshot_available()), vec!["a", "b"]);
    assert!(p.snapshot_disabled().is_empty());
    assert!(p.demote(&inst("a")));
    assert!(!p.demote(&inst("a")));
    assert_eq!(hosts(&p.snapshot_available()), vec!["b"]);
    assert_eq!(hosts(&p.snapshot_disabled()), vec!["a"]);
}

#[test]
fn promote_absent_is_noop() {
    let mut p = pool_of(&["a", "b"]);
    assert!(!p.promote(&inst("a")));
    assert_eq!(hosts(&p.snapshot_available()), vec!["a", "b"]);
    assert!(p.snapshot_disabled().is_empty());
    p.demote(&inst("a"));
    assert!(p.promote(&inst("a")));
    assert!(!p.promote(&inst("a")));
    assert_eq!(hosts(&p.snapshot_available()), vec!["b", "a"]);
    assert!(p.snapshot_disabled().is_empty());
}

#[test]
fn demote_removes_every_copy() {
    let mut p = pool_of(&["a", "b", "a"]);
    assert!(p.demote(&inst("a")));
    assert_eq!(hosts(&p.snapshot_available()), vec!["b"]);
    assert_eq!(hosts(&p.snapshot_disabled()), vec!["a"]);
}

#[test]
fn never_in_both_sets() {
    let mut p = pool_of(&["a", "b", "c"]);
    p.demote(&inst("a"));
    p.demote(&inst("c"));
    p.promote(&inst("a"));
    p.demote(&inst("a"));
    p.add(inst("d"));
    p.promote(&inst("c"));
    let avail = p.snapshot_available();
    let dis = p.snapshot_disabled();
    for x in &avail {
        assert!(!dis.contains(x));
    }
    assert_eq!(hosts(&avail), vec!["b", "d", "c"]);
    assert_eq!(hosts(&dis), vec!["a"]);
    assert!(p.is_disabled(&inst("a")));
    assert!(!p.is_disabled(&inst("b")));
}

#[test]
fn cursor_past_end_restarts_at_first() {
    let mut p = pool_of(&["a", "b", "c"]);
    p.select_next();
    p.select_next();
    p.demote(&inst("a"));
    p.demote(&inst("b"));
    assert_eq!(p.select_next().unwrap().host, "c");
    assert_eq!(p.select_next().unwrap().host, "c");
}

#[test]
fn snapshot_does_not_follow_later_changes() {
    let mut p = pool_of(&["a", "b"]);
    let snap = p.snapshot_available();
    p.demote(&inst("a"));
    assert_eq!(hosts(&snap), vec!["a", "b"]);
}

#[test]
fn default_instance_is_local_http() {
    let d = Instance::default();
    assert_eq!(d.scheme, Scheme::Http);
    assert_eq!(d.host, "127.0.0.1");
    assert_eq!(d.port, 8086);
    assert_eq!(Scheme::default(), Scheme::Http);
    assert_eq!(Scheme::Http.as_str(), "http");
    assert_eq!(Scheme::Https.as_str(), "https");
}
