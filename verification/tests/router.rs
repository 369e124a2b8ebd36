use dora_mcp_gateway::correlate::CorrelationRouter;

#[test]
fn register_resolve_take_round_trip() {
    let mut r = CorrelationRouter::new();
    let id = r.register();
    assert!(id.starts_with("call-"));
    assert_eq!(id.len(), 41);
    assert!(r.resolve(&id, String::from("the payload")));
    assert_eq!(r.take(&id), Some(String::from("the payload")));
}

#[test]
fn resolve_unknown_id_returns_false_and_changes_nothing() {
    let mut r = CorrelationRouter::new();
    let id = r.register();
    assert!(!r.resolve("call-unknown", String::from("x")));
    assert_eq!(r.len(), 1);
    // the registered call is untouched
    assert!(r.resolve(&id, String::from("y")));
    assert_eq!(r.take(&id), Some(String::from("y")));
}

#[test]
fn second_resolve_is_a_no_op() {
    let mut r = CorrelationRouter::new();
    let id = r.register();
    assert!(r.resolve(&id, String::from("first")));
    assert!(!r.resolve(&id, String::from("second")));
    assert_eq!(r.take(&id), Some(String::from("first")));
    // after collection the entry is gone: a third resolve finds nothing
    assert!(!r.resolve(&id, String::from("third")));
    assert_eq!(r.take(&id), None);
}

#[test]
fn take_before_resolve_yields_nothing() {
    let mut r = CorrelationRouter::new();
    let id = r.register();
    assert_eq!(r.take(&id), None);
    assert_eq!(r.len(), 1);
}

#[test]
fn generated_call_ids_are_distinct() {
    let mut r = CorrelationRouter::new();
    let mut ids: Vec<String> = Vec::new();
    for _ in 0..100 {
        ids.push(r.register());
    }
    for i in 0..ids.len() {
        for j in (i + 1)..ids.len() {
            assert_ne!(ids[i], ids[j]);
        }
    }
    assert_eq!(r.len(), 100);
}

#[test]
fn register_id_overwrites_same_key() {
    let mut r = CorrelationRouter::new();
    r.register_id(String::from("call-a"));
    assert!(r.resolve("call-a", String::from("p1")));
    // re-registering the same id replaces the delivered slot with a waiting one
    r.register_id(String::from("call-a"));
    assert_eq!(r.len(), 1);
    assert_eq!(r.take("call-a"), None);
    assert!(r.resolve("call-a", String::from("p2")));
    assert_eq!(r.take("call-a"), Some(String::from("p2")));
}
