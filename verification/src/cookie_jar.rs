//! The cookies of a request, and the changes a procedure makes to them.
//!
//! The jar keeps the cookies the client sent ("original" cookies) apart from the
//! cookies added or removed while answering ("delta" cookies); a delta cookie takes
//! precedence over an original one of the same name.

use vstd::prelude::*;

use cookie::time::{Duration, OffsetDateTime};
use cookie::Cookie as RawCookie;
use cookie::CookieJar as RawJar;
use cookie::SameSite;

verus! {

/// `cookie::CookieJar`, the jar the cookies are kept in.
#[verifier::external_type_specification]
#[verifier::external_body]
pub struct ExRawJar(RawJar);

/// The `SameSite` attribute of a cookie.
#[derive(Debug, Clone, Copy, PartialEq, Eq, Structural)]
pub enum Policy {
    Strict,
    Lax,
    /// `SameSite=None`: the cookie is sent with cross-site requests too.
    NoRestriction,
}

/// The earliest expiry date a cookie can carry, as a Unix time in seconds
/// (the start of the year -9999).
pub const MIN_EXPIRES: i64 = -377705116800;

/// The latest expiry date a cookie can carry, as a Unix time in seconds
/// (the last second of the year 9999).
pub const MAX_EXPIRES: i64 = 253402300799;

/// A cookie: its name and value, the path and domain it applies to, and its
/// attributes where set: max-age in seconds, expiry date as a Unix time in seconds,
/// `Secure`, `HttpOnly` and `SameSite`.
#[derive(Debug, Clone)]
pub struct CookieData {
    pub name: String,
    pub value: String,
    pub path: Option<String>,
    pub domain: Option<String>,
    pub max_age: Option<i64>,
    pub expires: Option<i64>,
    pub secure: Option<bool>,
    pub http_only: Option<bool>,
    pub same_site: Option<Policy>,
}

/// The abstract content of a cookie.
pub struct CookieView {
    pub name: Seq<char>,
    pub value: Seq<char>,
    pub path: Option<Seq<char>>,
    pub domain: Option<Seq<char>>,
    pub max_age: Option<int>,
    pub expires: Option<int>,
    pub secure: Option<bool>,
    pub http_only: Option<bool>,
    pub same_site: Option<Policy>,
}

/// A cookie kept in a jar: the cookie as it is read back, and whether it records
/// the removal of its name.
pub struct JarEntry {
    pub cookie: CookieView,
    pub removed: bool,
}

/// The view of an optional string.
pub open spec fn opt_view(s: Option<String>) -> Option<Seq<char>> {
    match s {
        Some(v) => Some(v@),
        None => None,
    }
}

/// The view of an optional integer.
pub open spec fn opt_int(n: Option<i64>) -> Option<int> {
    match n {
        Some(v) => Some(v as int),
        None => None,
    }
}

impl View for CookieData {
    type V = CookieView;

    open spec fn view(&self) -> CookieView {
        CookieView {
            name: self.name@,
            value: self.value@,
            path: opt_view(self.path),
            domain: opt_view(self.domain),
            max_age: opt_int(self.max_age),
            expires: opt_int(self.expires),
            secure: self.secure,
            http_only: self.http_only,
            same_site: self.same_site,
        }
    }
}

/// The expiry date of a cookie, if set, is one a cookie can carry.
pub open spec fn expires_in_range(c: CookieView) -> bool {
    c.expires matches Some(t) ==> MIN_EXPIRES <= t <= MAX_EXPIRES
}

/// A domain as a cookie reads it back: without one leading `.`.
pub open spec fn domain_as_read(d: Seq<char>) -> Seq<char> {
    if d.len() > 0 && d[0] == '.' {
        d.drop_first()
    } else {
        d
    }
}

/// A cookie as the jar gives it back once it has been stored.
pub open spec fn stored(c: CookieView) -> CookieView {
    CookieView {
        domain: match c.domain {
            Some(d) => Some(domain_as_read(d)),
            None => None,
        },
        ..c
    }
}

/// The removal cookie of a cookie, as read back: the same cookie with an empty
/// value, a max-age of 0 and the expiry date `expires` (a year before the removal).
pub open spec fn removal(c: CookieView, expires: int) -> CookieView {
    CookieView { value: Seq::empty(), max_age: Some(0), expires: Some(expires), ..stored(c) }
}

/// The entry a cookie is kept as once added.
pub open spec fn added_entry(c: CookieView) -> JarEntry {
    JarEntry { cookie: stored(c), removed: false }
}

/// The entry that records the removal of a cookie, with the expiry date `expires`.
pub open spec fn removal_entry(c: CookieView, expires: int) -> JarEntry {
    JarEntry { cookie: removal(c, expires), removed: true }
}

/// The original cookies of a jar, by name.
pub uninterp spec fn jar_originals(jar: RawJar) -> Map<Seq<char>, JarEntry>;

/// The delta cookies of a jar, by name.
pub uninterp spec fn jar_deltas(jar: RawJar) -> Map<Seq<char>, JarEntry>;

/// The cookie a jar holds under `name`: the delta cookie of that name if there is
/// one, else the original one; none if that cookie records a removal.
pub open spec fn lookup(
    originals: Map<Seq<char>, JarEntry>,
    deltas: Map<Seq<char>, JarEntry>,
    name: Seq<char>,
) -> Option<CookieView> {
    if deltas.contains_key(name) {
        if deltas[name].removed {
            None
        } else {
            Some(deltas[name].cookie)
        }
    } else if originals.contains_key(name) {
        if originals[name].removed {
            None
        } else {
            Some(originals[name].cookie)
        }
    } else {
        None
    }
}

/// A jar part that holds no cookie.
pub open spec fn no_entries() -> Map<Seq<char>, JarEntry> {
    Map::empty()
}

/// The view of an optional cookie.
pub open spec fn opt_cookie_view(c: Option<CookieData>) -> Option<CookieView> {
    match c {
        Some(v) => Some(v@),
        None => None,
    }
}

/// Calls `cookie::CookieJar::new`: an empty jar.
#[verifier::external_body]
fn raw_jar_new() -> (r: RawJar)
    ensures
        jar_originals(r) == no_entries(),
        jar_deltas(r) == no_entries(),
{
    RawJar::new()
}

/// Calls `cookie::CookieJar::get`: the delta cookie named `name` if there is one,
/// else the original one, and nothing when that cookie records a removal. The jar
/// finds cookies by name, so the cookie found has the name asked for. The cookie is
/// read back with its attributes: the max-age in whole seconds, the expiry date as
/// a Unix time in seconds (none for a session cookie).
#[verifier::external_body]
fn raw_jar_get(jar: &RawJar, name: &str) -> (r: Option<CookieData>)
    ensures
        opt_cookie_view(r) == lookup(jar_originals(*jar), jar_deltas(*jar), name@),
        r matches Some(c) ==> c@.name == name@,
{
    jar.get(name).map(|c| CookieData {
        name: c.name().to_string(),
        value: c.value().to_string(),
        path: c.path().map(|p| p.to_string()),
        domain: c.domain().map(|d| d.to_string()),
        max_age: c.max_age().map(|d| d.whole_seconds()),
        expires: c.expires_datetime().map(|t| t.unix_timestamp()),
        secure: c.secure(),
        http_only: c.http_only(),
        same_site: c.same_site().map(|s| match s {
            SameSite::Strict => Policy::Strict,
            SameSite::Lax => Policy::Lax,
            SameSite::None => Policy::NoRestriction,
        }),
    })
}

/// Calls `cookie::CookieJar::add_original` with the cookie built from `c` (its
/// name and value, and each attribute `c` sets): it replaces the original cookie of
/// that name and leaves the delta cookies alone. The expiry date, if any, must be
/// one a cookie can carry (`OffsetDateTime::from_unix_timestamp` fails otherwise).
#[verifier::external_body]
fn raw_jar_add_original(jar: &mut RawJar, c: CookieData)
    requires
        expires_in_range(c@),
    ensures
        jar_originals(*final(jar)) == jar_originals(*old(jar)).insert(c@.name, added_entry(c@)),
        jar_deltas(*final(jar)) == jar_deltas(*old(jar)),
{
    let mut cookie = RawCookie::new(c.name, c.value);
    if let Some(p) = c.path { cookie.set_path(p) }
    if let Some(d) = c.domain { cookie.set_domain(d) }
    cookie.set_max_age(c.max_age.map(Duration::seconds));
    if let Some(t) = c.expires { cookie.set_expires(OffsetDateTime::from_unix_timestamp(t).unwrap()) }
    cookie.set_secure(c.secure);
    cookie.set_http_only(c.http_only);
    cookie.set_same_site(c.same_site.map(|s| match s {
        Policy::Strict => SameSite::Strict,
        Policy::Lax => SameSite::Lax,
        Policy::NoRestriction => SameSite::None,
    }));
    jar.add_original(cookie)
}

/// Calls `cookie::CookieJar::add` with the cookie built from `c`: it replaces the
/// delta cookie of that name and leaves the original cookies alone. The expiry
/// date, if any, must be one a cookie can carry.
#[verifier::external_body]
fn raw_jar_add(jar: &mut RawJar, c: CookieData)
    requires
        expires_in_range(c@),
    ensures
        jar_deltas(*final(jar)) == jar_deltas(*old(jar)).insert(c@.name, added_entry(c@)),
        jar_originals(*final(jar)) == jar_originals(*old(jar)),
{
    let mut cookie = RawCookie::new(c.name, c.value);
    if let Some(p) = c.path { cookie.set_path(p) }
    if let Some(d) = c.domain { cookie.set_domain(d) }
    cookie.set_max_age(c.max_age.map(Duration::seconds));
    if let Some(t) = c.expires { cookie.set_expires(OffsetDateTime::from_unix_timestamp(t).unwrap()) }
    cookie.set_secure(c.secure);
    cookie.set_http_only(c.http_only);
    cookie.set_same_site(c.same_site.map(|s| match s {
        Policy::Strict => SameSite::Strict,
        Policy::Lax => SameSite::Lax,
        Policy::NoRestriction => SameSite::None,
    }));
    jar.add(cookie)
}

/// Calls `cookie::CookieJar::remove` with the cookie built from `c`: when there is
/// an original cookie of that name, the removal cookie of `c` (empty value, max-age
/// 0, an expiry date) becomes the delta cookie of that name; otherwise the delta
/// cookie of that name is dropped. The original cookies are left alone. The expiry
/// date is a year before the current time; as it depends on the clock, it is only
/// stated to be set. The expiry date `c` carries, if any, must be one a cookie can
/// carry.
#[verifier::external_body]
fn raw_jar_remove(jar: &mut RawJar, c: CookieData)
    requires
        expires_in_range(c@),
    ensures
        jar_originals(*old(jar)).contains_key(c@.name) ==> exists|t: int|
            jar_deltas(*final(jar)) == jar_deltas(*old(jar)).insert(c@.name, #[trigger] removal_entry(c@, t)),
        !jar_originals(*old(jar)).contains_key(c@.name) ==> jar_deltas(*final(jar)) == jar_deltas(
            *old(jar),
        ).remove(c@.name),
        jar_originals(*final(jar)) == jar_originals(*old(jar)),
{
    let mut cookie = RawCookie::new(c.name, c.value);
    if let Some(p) = c.path { cookie.set_path(p) }
    if let Some(d) = c.domain { cookie.set_domain(d) }
    cookie.set_max_age(c.max_age.map(Duration::seconds));
    if let Some(t) = c.expires { cookie.set_expires(OffsetDateTime::from_unix_timestamp(t).unwrap()) }
    cookie.set_secure(c.secure);
    cookie.set_http_only(c.http_only);
    cookie.set_same_site(c.same_site.map(|s| match s {
        Policy::Strict => SameSite::Strict,
        Policy::Lax => SameSite::Lax,
        Policy::NoRestriction => SameSite::None,
    }));
    jar.remove(cookie)
}

/// Calls `cookie::CookieJar::force_remove`: the cookie named `name` is dropped from
/// both the original and the delta cookies.
#[verifier::external_body]
fn raw_jar_force_remove(jar: &mut RawJar, name: &str)
    ensures
        jar_originals(*final(jar)) == jar_originals(*old(jar)).remove(name@),
        jar_deltas(*final(jar)) == jar_deltas(*old(jar)).remove(name@),
{
    jar.force_remove(name)
}

/// Calls `cookie::CookieJar::reset_delta`: all delta cookies are dropped.
#[verifier::external_body]
fn raw_jar_reset_delta(jar: &mut RawJar)
    ensures
        jar_deltas(*final(jar)) == no_entries(),
        jar_originals(*final(jar)) == jar_originals(*old(jar)),
{
    jar.reset_delta()
}

/// The cookies of a request, as seen and changed by the procedures answering it.
pub struct CookieJar {
    jar: RawJar,
}

impl CookieJar {
    /// The original cookies, by name.
    pub closed spec fn originals(&self) -> Map<Seq<char>, JarEntry> {
        jar_originals(self.jar)
    }

    /// The delta cookies, by name.
    pub closed spec fn deltas(&self) -> Map<Seq<char>, JarEntry> {
        jar_deltas(self.jar)
    }

    /// A jar over the given cookies.
    pub fn new(cookies: RawJar) -> (r: Self)
        ensures
            r.originals() == jar_originals(cookies),
            r.deltas() == jar_deltas(cookies),
    {
        CookieJar { jar: cookies }
    }

    /// A jar with no cookies.
    pub fn empty() -> (r: Self)
        ensures
            r.originals() == no_entries(),
            r.deltas() == no_entries(),
    {
        CookieJar { jar: raw_jar_new() }
    }

    /// Hands back the underlying jar.
    pub fn into_inner(self) -> (r: RawJar)
        ensures
            jar_originals(r) == self.originals(),
            jar_deltas(r) == self.deltas(),
    {
        self.jar
    }

    /// The cookie named `name`, if the jar holds one.
    pub fn get(&self, name: &str) -> (r: Option<CookieData>)
        ensures
            opt_cookie_view(r) == lookup(self.originals(), self.deltas(), name@),
            r matches Some(c) ==> c@.name == name@,
    {
        raw_jar_get(&self.jar, name)
    }

    /// Adds an original cookie, replacing the original cookie of the same name. An
    /// expiry date, if set, lies between [`MIN_EXPIRES`] and [`MAX_EXPIRES`].
    /// Cookies added with [`CookieJar::add`] take precedence and are not replaced.
    pub fn add_original(&mut self, cookie: CookieData)
        requires
            expires_in_range(cookie@),
        ensures
            final(self).originals() == old(self).originals().insert(cookie@.name, added_entry(cookie@)),
            final(self).deltas() == old(self).deltas(),
    {
        raw_jar_add_original(&mut self.jar, cookie)
    }

    /// Adds a cookie, replacing any cookie of the same name.
    pub fn add(&mut self, cookie: CookieData)
        requires
            expires_in_range(cookie@),
        ensures
            final(self).deltas() == old(self).deltas().insert(cookie@.name, added_entry(cookie@)),
            final(self).originals() == old(self).originals(),
    {
        raw_jar_add(&mut self.jar, cookie)
    }

    /// Removes a cookie. If there is an original cookie of that name, a removal
    /// cookie (which needs the path and domain the cookie was set with) is recorded
    /// so that the client drops it too: it has an empty value, a max-age of 0 and an
    /// expiry date a year back. Otherwise the added cookie is simply dropped.
    pub fn remove(&mut self, cookie: CookieData)
        requires
            expires_in_range(cookie@),
        ensures
            old(self).originals().contains_key(cookie@.name) ==> exists|t: int|
                final(self).deltas() == old(self).deltas().insert(cookie@.name, #[trigger] removal_entry(cookie@, t)),
            !old(self).originals().contains_key(cookie@.name) ==> final(self).deltas() == old(
                self,
            ).deltas().remove(cookie@.name),
            final(self).originals() == old(self).originals(),
    {
        raw_jar_remove(&mut self.jar, cookie)
    }

    /// Removes the cookie of the same name completely, recording no removal.
    pub fn force_remove(&mut self, cookie: &CookieData)
        ensures
            final(self).originals() == old(self).originals().remove(cookie@.name),
            final(self).deltas() == old(self).deltas().remove(cookie@.name),
    {
        raw_jar_force_remove(&mut self.jar, cookie.name.as_str())
    }

    /// Drops all changes made with [`CookieJar::add`] and [`CookieJar::remove`].
    pub fn reset_delta(&mut self)
        ensures
            final(self).deltas() == no_entries(),
            final(self).originals() == old(self).originals(),
    {
        raw_jar_reset_delta(&mut self.jar)
    }
}

/// A cookie that was added is what the jar then holds under its name.
pub proof fn law_get_after_add(originals: Map<Seq<char>, JarEntry>, deltas: Map<Seq<char>, JarEntry>, c: CookieView)
    ensures
        lookup(originals, deltas.insert(c.name, added_entry(c)), c.name) == Some(stored(c)),
{
}

/// Adding an original cookie does not replace a cookie of the same name added with `add`.
pub proof fn law_add_takes_precedence_over_add_original(
    originals: Map<Seq<char>, JarEntry>,
    deltas: Map<Seq<char>, JarEntry>,
    added: CookieView,
    original: CookieView,
)
    requires
        added.name == original.name,
    ensures
        lookup(
            originals.insert(original.name, added_entry(original)),
            deltas.insert(added.name, added_entry(added)),
            added.name,
        ) == Some(stored(added)),
{
}

/// After a cookie is removed, the jar holds no cookie of that name, whatever the
/// expiry date `t` of the removal cookie.
pub proof fn law_get_after_remove(
    originals: Map<Seq<char>, JarEntry>,
    deltas: Map<Seq<char>, JarEntry>,
    c: CookieView,
    t: int,
)
    requires
        forall|n: Seq<char>| #[trigger] originals.contains_key(n) ==> !originals[n].removed,
    ensures
        originals.contains_key(c.name) ==> lookup(originals, deltas.insert(c.name, removal_entry(c, t)), c.name)
            is None,
        !originals.contains_key(c.name) ==> lookup(originals, deltas.remove(c.name), c.name) is None,
{
}

/// After a cookie is force-removed, the jar holds no cookie of that name.
pub proof fn law_get_after_force_remove(originals: Map<Seq<char>, JarEntry>, deltas: Map<Seq<char>, JarEntry>, name: Seq<char>)
    ensures
        lookup(originals.remove(name), deltas.remove(name), name) is None,
{
}

/// Resetting the delta undoes every `add` and `remove`: the jar then holds exactly
/// its original cookies.
pub proof fn law_reset_delta_restores_originals(originals: Map<Seq<char>, JarEntry>, name: Seq<char>)
    ensures
        lookup(originals, Map::empty(), name) == (if originals.contains_key(name) && !originals[name].removed {
            Some(originals[name].cookie)
        } else {
            None
        }),
{
}

} // verus!
