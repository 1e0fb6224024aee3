use rspc::procedure_store::{first_unregistrable, is_reserved, str_starts_with, PendingProcedure, ProcedureStore};
use rspc::http::ProcedureKind;
use rspc::{CompiledRouter, ExecError, Rspc};

#[test]
fn reserved_keys() {
    assert!(is_reserved(""));
    assert!(is_reserved("ws"));
    assert!(is_reserved("rpc.x"));
    assert!(is_reserved("rpc."));
    assert!(is_reserved("rspc.anything"));
    assert!(!is_reserved("wss"));
    assert!(!is_reserved("w"));
    assert!(!is_reserved("rpc"));
    assert!(!is_reserved("rspc"));
    assert!(!is_reserved("version"));
    assert!(!is_reserved("my.rpc.call"));
}

#[test]
fn prefixes() {
    assert!(str_starts_with("hello", "he"));
    assert!(str_starts_with("hello", ""));
    assert!(!str_starts_with("he", "hello"));
    assert!(!str_starts_with("hello", "hx"));
}

#[test]
fn store_accepts_each_key_once() {
    let mut s: ProcedureStore<u32> = ProcedureStore::new("queries");
    assert_eq!(s.name(), "queries");
    assert!(s.accepts("version"));
    s.append("version".to_string(), 1);
    assert!(s.contains_key("version"));
    assert!(!s.accepts("version"));
    assert!(s.accepts("other"));
    assert!(!s.accepts("ws"));
    assert!(!s.accepts("rspc.x"));
}

#[test]
fn test_alpha_api() {
    let r: Rspc<()> = Rspc::new();
    let router = r
        .router::<u32>()
        .procedure("todo", ProcedureKind::Query, 1)
        .procedure("todo2", ProcedureKind::Query, 2)
        .procedure("todo", ProcedureKind::Mutation, 3)
        .procedure("todo3", ProcedureKind::Query, 4)
        .procedure("demoSubscriptions", ProcedureKind::Subscription, 5);
    assert_eq!(router.first_invalid_procedure(), None);
    let built = router.compat();
    assert!(built.queries.contains_key("todo"));
    assert!(built.queries.contains_key("todo2"));
    assert!(built.queries.contains_key("todo3"));
    assert!(built.mutations.contains_key("todo"));
    assert!(!built.mutations.contains_key("todo2"));
    assert!(!built.subscriptions.contains_key("todo"));
    assert_eq!(built.subscriptions.get("demoSubscriptions"), Some(&5));
    assert!(!built.queries.contains_key("demoSubscriptions"));
    assert_eq!(built.queries.name(), "queries");
    assert_eq!(built.mutations.name(), "mutations");
    assert_eq!(built.subscriptions.name(), "subscriptions");
    assert!(built.config.export_bindings_on_build().is_none());
}

#[test]
fn duplicate_and_reserved_keys_are_found() {
    let ps = vec![
        PendingProcedure { key: "a", kind: ProcedureKind::Query, procedure: () },
        PendingProcedure { key: "a", kind: ProcedureKind::Mutation, procedure: () },
        PendingProcedure { key: "a", kind: ProcedureKind::Query, procedure: () },
    ];
    assert_eq!(first_unregistrable(&ps), Some(2));
    let ps = vec![
        PendingProcedure { key: "ok", kind: ProcedureKind::Query, procedure: () },
        PendingProcedure { key: "rpc.no", kind: ProcedureKind::Mutation, procedure: () },
    ];
    assert_eq!(first_unregistrable(&ps), Some(1));
    let ps: Vec<PendingProcedure<()>> = vec![];
    assert_eq!(first_unregistrable(&ps), None);
}

#[test]
fn registered_procedures_are_found() {
    let mut s: ProcedureStore<&str> = ProcedureStore::new("mutations");
    s.append("a".to_string(), "first");
    s.append("b".to_string(), "second");
    assert_eq!(s.get("a"), Some(&"first"));
    assert_eq!(s.get("b"), Some(&"second"));
    assert_eq!(s.get("c"), None);
    assert_eq!(s.find(&"b".to_string()).ok(), Some(&"second"));
    match s.find(&"zzz".to_string()) {
        Err(rspc::ExecError::OperationNotFound(k)) => assert_eq!(k, "zzz"),
        other => panic!("unexpected {:?}", other.map(|_| ())),
    }
}

#[test]
fn compiled_router_finds_definitions_by_kind() {
    let mut query = ProcedureStore::new("queries");
    query.append("version".to_string(), 1u32);
    let mut mutation = ProcedureStore::new("mutations");
    mutation.append("set".to_string(), 2u32);
    let router = CompiledRouter { query, mutation, subscription: ProcedureStore::new("subscriptions") };
    assert_eq!(router.query_definition(&"version".to_string()).ok(), Some(&1));
    assert_eq!(router.mutation_definition(&"set".to_string()).ok(), Some(&2));
    match router.query_definition(&"set".to_string()) {
        Err(ExecError::OperationNotFound(k)) => assert_eq!(k, "set"),
        _ => panic!("a mutation must not be found as a query"),
    }
    match router.mutation_definition(&"missing".to_string()) {
        Err(ExecError::OperationNotFound(k)) => assert_eq!(k, "missing"),
        _ => panic!("unknown keys are not found"),
    }
}

#[test]
fn a_key_may_serve_each_kind_once() {
    let ps = vec![
        PendingProcedure { key: "a", kind: ProcedureKind::Query, procedure: () },
        PendingProcedure { key: "a", kind: ProcedureKind::Subscription, procedure: () },
        PendingProcedure { key: "a", kind: ProcedureKind::Subscription, procedure: () },
    ];
    assert_eq!(first_unregistrable(&ps), Some(2));
}

#[test]
fn appending_grows_the_store_by_one() {
    let mut s: ProcedureStore<u8> = ProcedureStore::new("queries");
    assert_eq!(s.len(), 0);
    s.append("a".to_string(), 1);
    assert_eq!(s.len(), 1);
    s.append("b".to_string(), 2);
    assert_eq!(s.len(), 2);
    assert!(s.contains_key("a") && s.contains_key("b"));
    assert!(!s.accepts("a"));
    assert!(s.accepts("c"));
}

#[test]
fn procedures_run_their_middleware_in_order() {
    let r: Rspc<()> = Rspc::new();
    let p: rspc::AlphaProcedure<&str, u32> = r.with("log").with("auth").with("ctx").query(7);
    assert_eq!(p.middleware_count(), 3);
    assert_eq!(p.kind(), ProcedureKind::Query);
    let s: rspc::AlphaProcedure<&str, u32> = r.subscription(1);
    assert_eq!(s.middleware_count(), 0);
    assert_eq!(s.kind(), ProcedureKind::Subscription);
    let m: rspc::AlphaProcedure<&str, u32> = r.with("log").mutation(2);
    assert_eq!(m.kind(), ProcedureKind::Mutation);
    let router = r
        .router()
        .procedure("todo", p.kind(), p)
        .procedure("pings", s.kind(), s)
        .procedure("set", m.kind(), m)
        .compat();
    assert!(router.queries.contains_key("todo"));
    assert!(router.subscriptions.contains_key("pings"));
    assert!(router.mutations.contains_key("set"));
}
