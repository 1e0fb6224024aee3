//! The subscriptions a client has open, each keyed by operation, method and id and
//! holding the handle that shuts it down.

use vstd::prelude::*;

verus! {

/// The key of a subscription: its operation, its method and its id.
pub type SubscriptionKey = (Seq<char>, Seq<char>, Seq<char>);

/// An entry of the registry: operation, method, id and shutdown handle.
pub type Entry<S> = (String, String, String, S);

/// The key of an entry.
pub open spec fn entry_key<S>(e: Entry<S>) -> SubscriptionKey {
    (e.0@, e.1@, e.2@)
}

/// No two entries share a key.
pub open spec fn keys_distinct<S>(s: Seq<Entry<S>>) -> bool {
    forall|i: int, j: int|
        0 <= i < s.len() && 0 <= j < s.len() && i != j ==> entry_key(#[trigger] s[i])
            != entry_key(#[trigger] s[j])
}

/// Some entry has key `k`.
pub open spec fn has_key<S>(s: Seq<Entry<S>>, k: SubscriptionKey) -> bool {
    exists|i: int| 0 <= i < s.len() && entry_key(#[trigger] s[i]) == k
}

/// The entries as a map from key to handle.
pub open spec fn entries_view<S>(s: Seq<Entry<S>>) -> Map<SubscriptionKey, S> {
    Map::new(
        |k: SubscriptionKey| has_key(s, k),
        |k: SubscriptionKey| s[choose|i: int| 0 <= i < s.len() && entry_key(#[trigger] s[i]) == k].3,
    )
}

/// In a registry without duplicate keys, the entry at `i` is what its key maps to.
proof fn lemma_entry_in_view<S>(s: Seq<Entry<S>>, i: int)
    requires
        keys_distinct(s),
        0 <= i < s.len(),
    ensures
        entries_view(s).contains_key(entry_key(s[i])),
        entries_view(s)[entry_key(s[i])] == s[i].3,
{
    let k = entry_key(s[i]);
    assert(has_key(s, k));
    let c = choose|j: int| 0 <= j < s.len() && entry_key(#[trigger] s[j]) == k;
    assert(c == i);
}

/// The subscriptions of one client.
///
/// Each key occurs at most once; registering a key again replaces its handle.
pub struct ClientContext<S> {
    subscriptions: Vec<Entry<S>>,
}

impl<S> ClientContext<S> {
    #[verifier::type_invariant]
    spec fn wf(self) -> bool {
        keys_distinct(self.subscriptions@)
    }

    /// The open subscriptions, by key.
    pub closed spec fn view(&self) -> Map<SubscriptionKey, S> {
        entries_view(self.subscriptions@)
    }

    /// A client with no subscriptions.
    pub fn new() -> (r: Self)
        ensures
            r.view() == Map::<SubscriptionKey, S>::empty(),
    {
        let r = ClientContext { subscriptions: Vec::new() };
        assert(r.view() =~= Map::<SubscriptionKey, S>::empty());
        r
    }

    /// The position of the entry with the given key, if there is one.
    fn position(&self, operation: &String, method: &String, id: &String) -> (r: Option<usize>)
        ensures
            match r {
                Some(i) => i < self.subscriptions@.len() && entry_key(self.subscriptions@[i as int])
                    == (operation@, method@, id@),
                None => !has_key(self.subscriptions@, (operation@, method@, id@)),
            },
    {
        let mut i: usize = 0;
        while i < self.subscriptions.len()
            invariant
                i <= self.subscriptions@.len(),
                forall|j: int|
                    0 <= j < i ==> entry_key(#[trigger] self.subscriptions@[j]) != (
                        operation@,
                        method@,
                        id@,
                    ),
            decreases self.subscriptions@.len() - i,
        {
            let e = &self.subscriptions[i];
            if e.0 == *operation && e.1 == *method && e.2 == *id {
                return Some(i);
            }
            i = i + 1;
        }
        None
    }

    /// Registers the subscription with the given key and shutdown handle, replacing
    /// the handle of a subscription with the same key.
    pub fn register(&mut self, operation: String, method: String, id: String, shutdown: S)
        ensures
            final(self).view() == old(self).view().insert((operation@, method@, id@), shutdown),
    {
        proof {
            use_type_invariant(&*self);
        }
        let ghost k = (operation@, method@, id@);
        let ghost before = self.subscriptions@;
        let ghost old_view = entries_view(before);
        match self.position(&operation, &method, &id) {
            Some(i) => {
                let mut entries = Vec::new();
                std::mem::swap(&mut entries, &mut self.subscriptions);
                entries.set(i, (operation, method, id, shutdown));
                proof {
                    let after = entries@;
                    assert(after == before.update(i as int, after[i as int]));
                    assert(keys_distinct(after));
                    let new_view = entries_view(after);
                    assert forall|key: SubscriptionKey| #[trigger]
                        new_view.contains_key(key) == old_view.insert(k, shutdown).contains_key(key) by {
                        if has_key(after, key) {
                            let j = choose|j: int| 0 <= j < after.len() && entry_key(#[trigger] after[j]) == key;
                            if j != i {
                                assert(entry_key(before[j]) == key);
                            }
                        }
                        if has_key(before, key) {
                            let j = choose|j: int| 0 <= j < before.len() && entry_key(#[trigger] before[j]) == key;
                            assert(entry_key(after[j]) == key);
                        }
                    }
                    assert forall|key: SubscriptionKey| #[trigger] new_view.contains_key(key) implies new_view[key]
                        == old_view.insert(k, shutdown)[key] by {
                        let j = choose|j: int| 0 <= j < after.len() && entry_key(#[trigger] after[j]) == key;
                        lemma_entry_in_view(after, j);
                        if j != i {
                            lemma_entry_in_view(before, j);
                        }
                    }
                    assert(new_view =~= old_view.insert(k, shutdown));
                }
                self.subscriptions = entries;
            },
            None => {
                let mut entries = Vec::new();
                std::mem::swap(&mut entries, &mut self.subscriptions);
                entries.push((operation, method, id, shutdown));
                proof {
                    let after = entries@;
                    let n = before.len() as int;
                    assert(after == before.push(after[n]));
                    assert(keys_distinct(after)) by {
                        assert forall|a: int, b: int|
                            0 <= a < after.len() && 0 <= b < after.len() && a != b implies entry_key(
                            #[trigger] after[a],
                        ) != entry_key(#[trigger] after[b]) by {
                            if a == n {
                                assert(entry_key(before[b]) != k);
                            } else if b == n {
                                assert(entry_key(before[a]) != k);
                            }
                        }
                    }
                    let new_view = entries_view(after);
                    assert forall|key: SubscriptionKey| #[trigger]
                        new_view.contains_key(key) == old_view.insert(k, shutdown).contains_key(key) by {
                        if has_key(after, key) {
                            let j = choose|j: int| 0 <= j < after.len() && entry_key(#[trigger] after[j]) == key;
                            if j != n {
                                assert(entry_key(before[j]) == key);
                            }
                        }
                        if has_key(before, key) {
                            let j = choose|j: int| 0 <= j < before.len() && entry_key(#[trigger] before[j]) == key;
                            assert(entry_key(after[j]) == key);
                        }
                        if key == k {
                            assert(entry_key(after[n]) == key);
                        }
                    }
                    assert forall|key: SubscriptionKey| #[trigger] new_view.contains_key(key) implies new_view[key]
                        == old_view.insert(k, shutdown)[key] by {
                        let j = choose|j: int| 0 <= j < after.len() && entry_key(#[trigger] after[j]) == key;
                        lemma_entry_in_view(after, j);
                        if j != n {
                            lemma_entry_in_view(before, j);
                        }
                    }
                    assert(new_view =~= old_view.insert(k, shutdown));
                }
                self.subscriptions = entries;
            },
        }
    }

    /// Removes the subscription with the given key and hands back its shutdown handle;
    /// `None` when no subscription has that key.
    pub fn unregister(&mut self, operation: String, method: String, id: String) -> (r: Option<S>)
        ensures
            final(self).view() == old(self).view().remove((operation@, method@, id@)),
            r == (if old(self).view().contains_key((operation@, method@, id@)) {
                Some(old(self).view()[(operation@, method@, id@)])
            } else {
                None
            }),
    {
        proof {
            use_type_invariant(&*self);
        }
        let ghost k = (operation@, method@, id@);
        let ghost before = self.subscriptions@;
        let ghost old_view = entries_view(before);
        match self.position(&operation, &method, &id) {
            Some(i) => {
                let mut entries = Vec::new();
                std::mem::swap(&mut entries, &mut self.subscriptions);
                let e = entries.remove(i);
                proof {
                    let after = entries@;
                    assert(after == before.remove(i as int));
                    assert forall|a: int| 0 <= a < after.len() implies #[trigger] after[a] == before[
                        if a < i { a } else { a + 1 }] by {}
                    assert(keys_distinct(after)) by {
                        assert forall|a: int, b: int|
                            0 <= a < after.len() && 0 <= b < after.len() && a != b implies entry_key(
                            #[trigger] after[a],
                        ) != entry_key(#[trigger] after[b]) by {
                            let ia = if a < i { a } else { a + 1 };
                            let ib = if b < i { b } else { b + 1 };
                            assert(after[a] == before[ia] && after[b] == before[ib]);
                        }
                    }
                    lemma_entry_in_view(before, i as int);
                    let new_view = entries_view(after);
                    assert forall|key: SubscriptionKey| #[trigger]
                        new_view.contains_key(key) == old_view.remove(k).contains_key(key) by {
                        if has_key(after, key) {
                            let j = choose|j: int| 0 <= j < after.len() && entry_key(#[trigger] after[j]) == key;
                            let ij = if j < i { j } else { j + 1 };
                            assert(after[j] == before[ij]);
                            assert(entry_key(before[ij]) != entry_key(before[i as int]));
                        }
                        if has_key(before, key) && key != k {
                            let j = choose|j: int| 0 <= j < before.len() && entry_key(#[trigger] before[j]) == key;
                            assert(j != i);
                            let aj = if j < i { j } else { j - 1 };
                            assert(after[aj] == before[j]);
                        }
                    }
                    assert forall|key: SubscriptionKey| #[trigger] new_view.contains_key(key) implies new_view[key]
                        == old_view.remove(k)[key] by {
                        let j = choose|j: int| 0 <= j < after.len() && entry_key(#[trigger] after[j]) == key;
                        let ij = if j < i { j } else { j + 1 };
                        assert(after[j] == before[ij]);
                        lemma_entry_in_view(after, j);
                        lemma_entry_in_view(before, ij);
                    }
                    assert(new_view =~= old_view.remove(k));
                }
                self.subscriptions = entries;
                Some(e.3)
            },
            None => {
                proof {
                    assert(!old_view.contains_key(k));
                    assert(old_view =~= old_view.remove(k));
                }
                None
            },
        }
    }
}

/// Registering a subscription and then removing the same key hands back the handle
/// just registered, and leaves the other subscriptions as they were.
pub proof fn law_register_then_unregister<S>(subs: Map<SubscriptionKey, S>, key: SubscriptionKey, shutdown: S)
    ensures
        subs.insert(key, shutdown).contains_key(key),
        subs.insert(key, shutdown)[key] == shutdown,
        subs.insert(key, shutdown).remove(key) == subs.remove(key),
{
    assert(subs.insert(key, shutdown).remove(key) =~= subs.remove(key));
}

/// Once removed, a subscription cannot be removed again.
pub proof fn law_unregister_twice<S>(subs: Map<SubscriptionKey, S>, key: SubscriptionKey)
    ensures
        !subs.remove(key).contains_key(key),
        subs.remove(key).remove(key) == subs.remove(key),
{
    assert(subs.remove(key).remove(key) =~= subs.remove(key));
}

/// Registering a key again replaces its handle: only the later one is kept.
pub proof fn law_register_replaces<S>(subs: Map<SubscriptionKey, S>, key: SubscriptionKey, first: S, second: S)
    ensures
        subs.insert(key, first).insert(key, second) == subs.insert(key, second),
{
    assert(subs.insert(key, first).insert(key, second) =~= subs.insert(key, second));
}

} // verus!
