use rspc::ClientContext;

fn s(v: &str) -> String {
    v.to_string()
}

#[test]
fn register_then_unregister_returns_the_handle() {
    let mut c: ClientContext<u8> = ClientContext::new();
    c.register(s("subscriptionAdd"), s("pings"), s("id1"), 7);
    assert_eq!(c.unregister(s("subscriptionAdd"), s("pings"), s("id1")), Some(7));
    assert_eq!(c.unregister(s("subscriptionAdd"), s("pings"), s("id1")), None);
}

#[test]
fn registering_again_replaces_the_handle() {
    let mut c: ClientContext<u8> = ClientContext::new();
    c.register(s("op"), s("m"), s("i"), 1);
    c.register(s("op"), s("m"), s("i"), 2);
    assert_eq!(c.unregister(s("op"), s("m"), s("i")), Some(2));
    assert_eq!(c.unregister(s("op"), s("m"), s("i")), None);
}

#[test]
fn keys_differ_in_each_part() {
    let mut c: ClientContext<u8> = ClientContext::new();
    c.register(s("a"), s("b"), s("c"), 1);
    c.register(s("a"), s("b"), s("d"), 2);
    c.register(s("a"), s("x"), s("c"), 3);
    c.register(s("y"), s("b"), s("c"), 4);
    assert_eq!(c.unregister(s("a"), s("b"), s("d")), Some(2));
    assert_eq!(c.unregister(s("y"), s("b"), s("c")), Some(4));
    assert_eq!(c.unregister(s("a"), s("b"), s("c")), Some(1));
    assert_eq!(c.unregister(s("a"), s("x"), s("c")), Some(3));
    assert_eq!(c.unregister(s("a"), s("b"), s("c")), None);
}
