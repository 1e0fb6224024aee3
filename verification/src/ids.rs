//! Random identifiers for subscriptions.

use vstd::prelude::*;

verus! {

/// A character of nanoid's URL-safe alphabet: `_`, `-`, a digit or an ASCII letter.
pub open spec fn is_url_safe_char(c: char) -> bool {
    c == '_' || c == '-' || ('0' <= c && c <= '9') || ('a' <= c && c <= 'z') || ('A' <= c && c <= 'Z')
}

/// Calls `nanoid::format` with nanoid's default random source and its URL-safe
/// alphabet (`nanoid::alphabet::SAFE`): the result is `size` characters, each drawn
/// from that alphabet at random. `size` is not 0 (the call would never return) and
/// `8 * size` fits in a `usize` (nanoid computes it). Seeding the random source
/// panics when the operating system gives no entropy; no argument rules that out,
/// and nothing here states it.
#[verifier::external_body]
fn nanoid_url_safe(size: usize) -> (r: String)
    requires
        0 < size <= usize::MAX / 8,
    ensures
        r@.len() == size,
        forall|i: int| 0 <= i < r@.len() ==> is_url_safe_char(#[trigger] r@[i]),
{
    nanoid::format(nanoid::rngs::default, &nanoid::alphabet::SAFE, size)
}

/// The length of a subscription id.
pub const SUBSCRIPTION_ID_LEN: usize = 21;

/// A fresh random subscription id: 21 URL-safe characters.
pub fn new_subscription_id() -> (r: String)
    ensures
        r@.len() == SUBSCRIPTION_ID_LEN,
        forall|i: int| 0 <= i < r@.len() ==> is_url_safe_char(#[trigger] r@[i]),
{
    nanoid_url_safe(SUBSCRIPTION_ID_LEN)
}

} // verus!
