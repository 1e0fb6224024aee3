use rspc::cookie_jar::{Policy, MAX_EXPIRES, MIN_EXPIRES};
use rspc::{CookieData, CookieJar};

fn cookie(name: &str, value: &str) -> CookieData {
    CookieData {
        name: name.into(),
        value: value.into(),
        path: None,
        domain: None,
        max_age: None,
        expires: None,
        secure: None,
        http_only: None,
        same_site: None,
    }
}

#[test]
fn added_cookies_are_returned() {
    let mut jar = CookieJar::empty();
    assert!(jar.get("a").is_none());
    jar.add(CookieData {
        path: Some("/x".into()),
        domain: Some(".example.com".into()),
        ..cookie("a", "1")
    });
    let c = jar.get("a").unwrap();
    assert_eq!(c.value, "1");
    assert_eq!(c.path.as_deref(), Some("/x"));
    assert_eq!(c.domain.as_deref(), Some("example.com"));
}

#[test]
fn add_takes_precedence_over_add_original() {
    let mut jar = CookieJar::empty();
    jar.add(cookie("a", "added"));
    jar.add_original(cookie("a", "original"));
    assert_eq!(jar.get("a").unwrap().value, "added");
    jar.add_original(cookie("b", "original"));
    assert_eq!(jar.get("b").unwrap().value, "original");
}

#[test]
fn removing_cookies() {
    let mut jar = CookieJar::empty();
    jar.add_original(cookie("orig", "1"));
    jar.add(cookie("new", "2"));
    jar.remove(cookie("orig", ""));
    jar.remove(cookie("new", ""));
    assert!(jar.get("orig").is_none());
    assert!(jar.get("new").is_none());
    jar.reset_delta();
    assert_eq!(jar.get("orig").unwrap().value, "1");
    assert!(jar.get("new").is_none());
}

#[test]
fn force_remove_drops_everything() {
    let mut jar = CookieJar::empty();
    jar.add_original(cookie("a", "1"));
    jar.add(cookie("a", "2"));
    jar.force_remove(&cookie("a", ""));
    assert!(jar.get("a").is_none());
    jar.reset_delta();
    assert!(jar.get("a").is_none());
}

#[test]
fn reset_delta_undoes_adds() {
    let mut jar = CookieJar::empty();
    jar.add_original(cookie("a", "1"));
    jar.add(cookie("a", "2"));
    assert_eq!(jar.get("a").unwrap().value, "2");
    jar.reset_delta();
    assert_eq!(jar.get("a").unwrap().value, "1");
}

#[test]
fn jar_round_trips_through_the_cookie_crate() {
    let mut raw = cookie::CookieJar::new();
    raw.add_original(cookie::Cookie::new("sid", "s3cr3t"));
    let jar = CookieJar::new(raw);
    assert_eq!(jar.get("sid").unwrap().value, "s3cr3t");
    let raw = jar.into_inner();
    assert_eq!(raw.get("sid").unwrap().value(), "s3cr3t");
}

#[test]
fn a_found_cookie_has_the_name_asked_for() {
    let mut jar = CookieJar::empty();
    jar.add(cookie("a", "1"));
    jar.add_original(cookie("b", "2"));
    assert_eq!(jar.get("a").unwrap().name, "a");
    assert_eq!(jar.get("b").unwrap().name, "b");
}

#[test]
fn removal_cookie_expires_at_once() {
    let mut jar = CookieJar::empty();
    jar.add_original(cookie("sid", "1"));
    jar.remove(cookie("sid", ""));
    jar.remove(cookie("other", ""));
    let raw = jar.into_inner();
    let delta: Vec<_> = raw.delta().collect();
    assert_eq!(delta.len(), 1);
    let removal = delta[0];
    assert_eq!(removal.name(), "sid");
    assert_eq!(removal.value(), "");
    assert_eq!(removal.max_age().map(|d| d.whole_seconds()), Some(0));
    let expires = removal.expires_datetime().expect("a removal cookie has an expiry date");
    assert!(expires < cookie::time::OffsetDateTime::now_utc());
}

#[test]
fn added_cookies_have_no_max_age_or_expiry() {
    let mut jar = CookieJar::empty();
    jar.add(cookie("a", "1"));
    let raw = jar.into_inner();
    let c = raw.get("a").unwrap();
    assert!(c.max_age().is_none());
    assert!(c.expires().is_none());
}

#[test]
fn attributes_are_kept() {
    let mut jar = CookieJar::empty();
    jar.add(CookieData {
        max_age: Some(3600),
        expires: Some(1_700_000_000),
        secure: Some(true),
        http_only: Some(false),
        same_site: Some(Policy::Lax),
        ..cookie("sid", "x")
    });
    let c = jar.get("sid").unwrap();
    assert_eq!(c.max_age, Some(3600));
    assert_eq!(c.expires, Some(1_700_000_000));
    assert_eq!(c.secure, Some(true));
    assert_eq!(c.http_only, Some(false));
    assert_eq!(c.same_site, Some(Policy::Lax));
    jar.add_original(CookieData { same_site: Some(Policy::NoRestriction), ..cookie("o", "1") });
    assert_eq!(jar.get("o").unwrap().same_site, Some(Policy::NoRestriction));
    let raw = jar.into_inner();
    let sid = raw.get("sid").unwrap();
    assert_eq!(sid.secure(), Some(true));
    assert_eq!(sid.same_site(), Some(cookie::SameSite::Lax));
}

#[test]
fn expiry_limits_are_carried() {
    let mut jar = CookieJar::empty();
    jar.add(CookieData { expires: Some(MAX_EXPIRES), ..cookie("late", "1") });
    jar.add(CookieData { expires: Some(MIN_EXPIRES), ..cookie("early", "1") });
    assert_eq!(jar.get("late").unwrap().expires, Some(MAX_EXPIRES));
    assert_eq!(jar.get("early").unwrap().expires, Some(MIN_EXPIRES));
}

#[test]
fn removal_keeps_attributes_and_expires() {
    let mut jar = CookieJar::empty();
    jar.add_original(cookie("sid", "1"));
    jar.remove(CookieData { secure: Some(true), ..cookie("sid", "") });
    assert!(jar.get("sid").is_none());
    let raw = jar.into_inner();
    let removal = raw.delta().next().unwrap();
    assert_eq!(removal.secure(), Some(true));
    assert_eq!(removal.max_age().map(|d| d.whole_seconds()), Some(0));
}
