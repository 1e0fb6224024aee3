//! Registering procedures under their keys: some keys are reserved by the protocol,
//! and a key can be taken only once per kind of operation.

use vstd::prelude::*;

use crate::http::ProcedureKind;
use crate::error::{ExecError, ExecErrorView};

verus! {

/// `s` starts with `prefix`.
pub open spec fn starts_with(s: Seq<char>, prefix: Seq<char>) -> bool {
    prefix.len() <= s.len() && s.subrange(0, prefix.len() as int) == prefix
}

/// Keys that no procedure may have: the empty key, `ws` (the websocket endpoint),
/// and keys in the `rpc.` and `rspc.` namespaces.
pub open spec fn is_reserved_key(key: Seq<char>) -> bool {
    key.len() == 0 || key == "ws"@ || starts_with(key, "rpc."@) || starts_with(key, "rspc."@)
}

/// Whether `s` starts with `prefix`.
pub fn str_starts_with(s: &str, prefix: &str) -> (r: bool)
    ensures
        r == starts_with(s@, prefix@),
{
    let n = prefix.unicode_len();
    let m = s.unicode_len();
    if n > m {
        return false;
    }
    let mut i: usize = 0;
    while i < n
        invariant
            n == prefix@.len(),
            m == s@.len(),
            n <= m,
            i <= n,
            forall|j: int| 0 <= j < i ==> s@[j] == prefix@[j],
        decreases n - i,
    {
        if s.get_char(i) != prefix.get_char(i) {
            assert(s@.subrange(0, n as int)[i as int] != prefix@[i as int]);
            return false;
        }
        i = i + 1;
    }
    assert(s@.subrange(0, n as int) =~= prefix@);
    true
}

/// Whether no procedure may be registered under `key`.
pub fn is_reserved(key: &str) -> (r: bool)
    ensures
        r == is_reserved_key(key@),
{
    key.unicode_len() == 0 || str_eq(key, "ws") || str_starts_with(key, "rpc.") || str_starts_with(
        key,
        "rspc.",
    )
}

/// Whether two strings are equal.
pub fn str_eq(a: &str, b: &str) -> (r: bool)
    ensures
        r == (a@ == b@),
{
    let n = a.unicode_len();
    if n != b.unicode_len() {
        return false;
    }
    let r = str_starts_with(a, b);
    assert(a@.subrange(0, n as int) =~= a@);
    r
}

/// The procedures of one kind of operation, by key.
pub struct ProcedureStore<P> {
    name: &'static str,
    store: Vec<(String, P)>,
}

/// No two entries share a key.
pub open spec fn keys_unique<P>(s: Seq<(String, P)>) -> bool {
    forall|i: int, j: int|
        0 <= i < s.len() && 0 <= j < s.len() && i != j ==> (#[trigger] s[i]).0@ != (#[trigger] s[j]).0@
}

/// The entries as a map from key to procedure.
pub open spec fn store_view<P>(s: Seq<(String, P)>) -> Map<Seq<char>, P>
    decreases s.len(),
{
    if s.len() == 0 {
        Map::empty()
    } else {
        store_view(s.drop_last()).insert(s.last().0@, s.last().1)
    }
}

proof fn lemma_store_view_dom<P>(s: Seq<(String, P)>, k: Seq<char>)
    ensures
        store_view(s).contains_key(k) <==> exists|i: int| 0 <= i < s.len() && (#[trigger] s[i]).0@ == k,
    decreases s.len(),
{
    if s.len() > 0 {
        lemma_store_view_dom(s.drop_last(), k);
        if store_view(s).contains_key(k) && s.last().0@ != k {
            let i = choose|i: int| 0 <= i < s.drop_last().len() && (#[trigger] s.drop_last()[i]).0@ == k;
            assert(s[i] == s.drop_last()[i]);
        }
        if exists|i: int| 0 <= i < s.len() && (#[trigger] s[i]).0@ == k {
            let i = choose|i: int| 0 <= i < s.len() && (#[trigger] s[i]).0@ == k;
            if i < s.len() - 1 {
                assert(s.drop_last()[i] == s[i]);
            }
        }
    }
}

proof fn lemma_store_view_finite<P>(s: Seq<(String, P)>)
    ensures
        store_view(s).dom().finite(),
    decreases s.len(),
{
    if s.len() > 0 {
        lemma_store_view_finite(s.drop_last());
    }
}

proof fn lemma_store_view_len<P>(s: Seq<(String, P)>)
    requires
        keys_unique(s),
    ensures
        store_view(s).len() == s.len(),
    decreases s.len(),
{
    if s.len() > 0 {
        let init = s.drop_last();
        assert(keys_unique(init)) by {
            assert forall|a: int, b: int|
                0 <= a < init.len() && 0 <= b < init.len() && a != b implies (#[trigger] init[a]).0@
                != (#[trigger] init[b]).0@ by {
                assert(init[a] == s[a] && init[b] == s[b]);
            }
        }
        lemma_store_view_len(init);
        lemma_store_view_finite(init);
        lemma_store_view_dom(init, s.last().0@);
        if store_view(init).contains_key(s.last().0@) {
            let i = choose|i: int| 0 <= i < init.len() && (#[trigger] init[i]).0@ == s.last().0@;
            assert(init[i] == s[i]);
            assert(false);
        }
    }
}

/// In a store without duplicate keys, the entry at `i` is what its key maps to.
proof fn lemma_store_view_at<P>(s: Seq<(String, P)>, i: int)
    requires
        keys_unique(s),
        0 <= i < s.len(),
    ensures
        store_view(s).contains_key(s[i].0@),
        store_view(s)[s[i].0@] == s[i].1,
    decreases s.len(),
{
    if i == s.len() - 1 {
    } else {
        let init = s.drop_last();
        assert(init[i] == s[i]);
        assert(keys_unique(init)) by {
            assert forall|a: int, b: int|
                0 <= a < init.len() && 0 <= b < init.len() && a != b implies (#[trigger] init[a]).0@
                != (#[trigger] init[b]).0@ by {
                assert(init[a] == s[a] && init[b] == s[b]);
            }
        }
        lemma_store_view_at(init, i);
        assert(s.last().0@ != s[i].0@);
    }
}

impl<P> ProcedureStore<P> {
    #[verifier::type_invariant]
    spec fn wf(self) -> bool {
        keys_unique(self.store@)
    }

    /// The registered procedures, by key.
    pub closed spec fn view(&self) -> Map<Seq<char>, P> {
        store_view(self.store@)
    }

    /// The kind of operations the store holds, as named in error messages.
    pub closed spec fn kind_name(&self) -> Seq<char> {
        self.name@
    }

    /// The registered procedures are finitely many.
    pub proof fn lemma_view_finite(&self)
        ensures
            self.view().dom().finite(),
    {
        lemma_store_view_finite(self.store@);
    }

    /// An empty store for the operations named `name`.
    pub fn new(name: &'static str) -> (r: Self)
        ensures
            r.view() == Map::<Seq<char>, P>::empty(),
            r.view().len() == 0,
            r.kind_name() == name@,
    {
        ProcedureStore { name, store: Vec::new() }
    }

    /// The name of the kind of operations the store holds.
    pub fn name(&self) -> (r: &'static str)
        ensures
            r@ == self.kind_name(),
    {
        self.name
    }

    /// How many procedures are registered.
    pub fn len(&self) -> (r: usize)
        ensures
            r == self.view().len(),
    {
        proof {
            use_type_invariant(self);
            lemma_store_view_len(self.store@);
        }
        self.store.len()
    }

    /// Whether a procedure is registered under `key`.
    pub fn contains_key(&self, key: &str) -> (r: bool)
        ensures
            r == self.view().contains_key(key@),
    {
        let mut i: usize = 0;
        proof {
            lemma_store_view_dom(self.store@, key@);
        }
        while i < self.store.len()
            invariant
                i <= self.store@.len(),
                forall|j: int| 0 <= j < i ==> (#[trigger] self.store@[j]).0@ != key@,
            decreases self.store@.len() - i,
        {
            if str_eq(self.store[i].0.as_str(), key) {
                assert(self.store@[i as int].0@ == key@);
                proof {
                    lemma_store_view_dom(self.store@, key@);
                }
                return true;
            }
            i = i + 1;
        }
        false
    }

    /// The procedure registered under `key`, if any.
    pub fn get(&self, key: &str) -> (r: Option<&P>)
        ensures
            match r {
                Some(p) => self.view().contains_key(key@) && *p == self.view()[key@],
                None => !self.view().contains_key(key@),
            },
    {
        proof {
            use_type_invariant(self);
        }
        let mut i: usize = 0;
        while i < self.store.len()
            invariant
                i <= self.store@.len(),
                keys_unique(self.store@),
                forall|j: int| 0 <= j < i ==> (#[trigger] self.store@[j]).0@ != key@,
            decreases self.store@.len() - i,
        {
            if str_eq(self.store[i].0.as_str(), key) {
                proof {
                    lemma_store_view_at(self.store@, i as int);
                }
                return Some(&self.store[i].1);
            }
            i = i + 1;
        }
        proof {
            lemma_store_view_dom(self.store@, key@);
        }
        None
    }

    /// The procedure to run for `key`: the one registered under it, or the error
    /// reporting that no such operation exists.
    pub fn find(&self, key: &String) -> (r: Result<&P, ExecError>)
        ensures
            match r {
                Ok(p) => self.view().contains_key(key@) && *p == self.view()[key@],
                Err(e) => !self.view().contains_key(key@) && e@ == ExecErrorView::OperationNotFound(key@),
            },
    {
        match self.get(key.as_str()) {
            Some(p) => Ok(p),
            None => Err(ExecError::OperationNotFound(key.clone())),
        }
    }

    /// Whether `key` may be given to a new procedure: it is not reserved and not taken.
    pub fn accepts(&self, key: &str) -> (r: bool)
        ensures
            r == (!is_reserved_key(key@) && !self.view().contains_key(key@)),
    {
        !is_reserved(key) && !self.contains_key(key)
    }

    /// Registers `procedure` under `key`. The key must be neither reserved nor taken
    /// (registering under such a key is a programming error).
    pub fn append(&mut self, key: String, procedure: P)
        requires
            !is_reserved_key(key@),
            !old(self).view().contains_key(key@),
        ensures
            final(self).view() == old(self).view().insert(key@, procedure),
            final(self).view().dom().finite(),
            final(self).view().len() == old(self).view().len() + 1,
            final(self).kind_name() == old(self).kind_name(),
    {
        proof {
            use_type_invariant(&*self);
            lemma_store_view_dom(self.store@, key@);
            self.lemma_view_finite();
        }
        let ghost before = self.store@;
        let mut entries = Vec::new();
        std::mem::swap(&mut entries, &mut self.store);
        entries.push((key, procedure));
        proof {
            let after = entries@;
            assert(after.drop_last() =~= before);
            assert forall|i: int, j: int|
                0 <= i < after.len() && 0 <= j < after.len() && i != j implies (#[trigger] after[i]).0@
                != (#[trigger] after[j]).0@ by {
                if i == after.len() - 1 {
                    assert(before[j] == after[j]);
                } else if j == after.len() - 1 {
                    assert(before[i] == after[i]);
                } else {
                    assert(before[i] == after[i] && before[j] == after[j]);
                }
            }
        }
        self.store = entries;
        proof {
            self.lemma_view_finite();
        }
    }
}

/// A procedure is found under the key it was registered with, and registering it
/// changes what no other key finds.
pub proof fn law_registered_procedure_is_found<P>(procedures: Map<Seq<char>, P>, key: Seq<char>, procedure: P, other: Seq<char>)
    requires
        other != key,
    ensures
        procedures.insert(key, procedure).contains_key(key) && procedures.insert(key, procedure)[key] == procedure,
        procedures.insert(key, procedure).contains_key(other) == procedures.contains_key(other),
        procedures.contains_key(other) ==> procedures.insert(key, procedure)[other] == procedures[other],
{
}

/// The reserved keys: the empty key, `ws`, and any key in the `rpc.` or `rspc.` namespace.
pub proof fn law_reserved_keys(suffix: Seq<char>)
    ensures
        is_reserved_key(Seq::empty()),
        is_reserved_key("ws"@),
        is_reserved_key("rpc."@ + suffix),
        is_reserved_key("rspc."@ + suffix),
{
    reveal_strlit("rpc.");
    reveal_strlit("rspc.");
    assert(("rpc."@ + suffix).subrange(0, 4) =~= "rpc."@);
    assert(("rspc."@ + suffix).subrange(0, 5) =~= "rspc."@);
}

/// A procedure waiting to be built into a router: its key, the kind of operation
/// it is, and the procedure itself.
pub struct PendingProcedure<P> {
    pub key: &'static str,
    pub kind: ProcedureKind,
    pub procedure: P,
}

/// The keys given to procedures of one kind, in order.
pub open spec fn keys_of_kind<P>(ps: Seq<PendingProcedure<P>>, kind: ProcedureKind) -> Seq<Seq<char>>
    decreases ps.len(),
{
    if ps.len() == 0 {
        Seq::empty()
    } else {
        let rest = keys_of_kind(ps.drop_last(), kind);
        if ps.last().kind == kind {
            rest.push(ps.last().key@)
        } else {
            rest
        }
    }
}

/// The procedures of one kind, by key, as registering them in order builds them.
pub open spec fn procedures_of_kind<P>(ps: Seq<PendingProcedure<P>>, kind: ProcedureKind) -> Map<Seq<char>, P>
    decreases ps.len(),
{
    if ps.len() == 0 {
        Map::empty()
    } else {
        let rest = procedures_of_kind(ps.drop_last(), kind);
        if ps.last().kind == kind {
            rest.insert(ps.last().key@, ps.last().procedure)
        } else {
            rest
        }
    }
}

/// Every procedure can be registered: no key is reserved, and no key is given
/// twice to procedures of the same kind.
pub open spec fn registrable<P>(ps: Seq<PendingProcedure<P>>) -> bool {
    &&& forall|i: int| 0 <= i < ps.len() ==> !is_reserved_key((#[trigger] ps[i]).key@)
    &&& forall|i: int, j: int|
        0 <= i < j < ps.len() && (#[trigger] ps[i]).kind == (#[trigger] ps[j]).kind ==> ps[i].key@
            != ps[j].key@
}

proof fn lemma_procedures_of_kind_dom<P>(ps: Seq<PendingProcedure<P>>, kind: ProcedureKind, k: Seq<char>)
    ensures
        procedures_of_kind(ps, kind).contains_key(k) <==> exists|i: int|
            0 <= i < ps.len() && (#[trigger] ps[i]).kind == kind && ps[i].key@ == k,
    decreases ps.len(),
{
    if ps.len() > 0 {
        let init = ps.drop_last();
        lemma_procedures_of_kind_dom(init, kind, k);
        if exists|i: int| 0 <= i < ps.len() && (#[trigger] ps[i]).kind == kind && ps[i].key@ == k {
            let i = choose|i: int| 0 <= i < ps.len() && (#[trigger] ps[i]).kind == kind && ps[i].key@ == k;
            if i < ps.len() - 1 {
                assert(init[i] == ps[i]);
            }
        }
        if procedures_of_kind(init, kind).contains_key(k) {
            let i = choose|i: int| 0 <= i < init.len() && (#[trigger] init[i]).kind == kind && init[i].key@ == k;
            assert(ps[i] == init[i]);
        }
    }
}

/// The first position in `ps` that cannot be registered, if any: a reserved key, or
/// a key already given to an earlier procedure of the same kind.
pub fn first_unregistrable<P>(ps: &Vec<PendingProcedure<P>>) -> (r: Option<usize>)
    ensures
        match r {
            Some(i) => i < ps@.len() && registrable(ps@.subrange(0, i as int)) && !registrable(
                ps@.subrange(0, i + 1),
            ),
            None => registrable(ps@),
        },
{
    let mut i: usize = 0;
    while i < ps.len()
        invariant
            i <= ps@.len(),
            registrable(ps@.subrange(0, i as int)),
        decreases ps@.len() - i,
    {
        let ghost prefix = ps@.subrange(0, i as int);
        let ghost next = ps@.subrange(0, i + 1);
        assert(next.drop_last() =~= prefix);
        if is_reserved(ps[i].key) {
            assert(!registrable(next)) by {
                assert(next[i as int] == ps@[i as int]);
            }
            return Some(i);
        }
        let mut j: usize = 0;
        while j < i
            invariant
                j <= i < ps@.len(),
                registrable(ps@.subrange(0, i as int)),
                forall|a: int| 0 <= a < j ==> ((#[trigger] ps@[a]).kind == ps@[i as int].kind ==> ps@[a].key@
                    != ps@[i as int].key@),
            decreases i - j,
        {
            if ps[j].kind == ps[i].kind && str_eq(ps[j].key, ps[i].key) {
                assert(!registrable(ps@.subrange(0, i + 1))) by {
                    assert(ps@.subrange(0, i + 1)[j as int] == ps@[j as int]);
                    assert(ps@.subrange(0, i + 1)[i as int] == ps@[i as int]);
                }
                return Some(i);
            }
            j = j + 1;
        }
        assert(registrable(next)) by {
            assert forall|a: int, b: int|
                0 <= a < b < next.len() && (#[trigger] next[a]).kind == (#[trigger] next[b]).kind implies next[a].key@
                != next[b].key@ by {
                if b < i {
                    assert(prefix[a] == next[a] && prefix[b] == next[b]);
                } else {
                    assert(next[a] == ps@[a] && next[b] == ps@[i as int]);
                }
            }
            assert forall|a: int| 0 <= a < next.len() implies !is_reserved_key((#[trigger] next[a]).key@) by {
                if a < i {
                    assert(prefix[a] == next[a]);
                }
            }
        }
        i = i + 1;
    }
    assert(ps@.subrange(0, ps@.len() as int) =~= ps@);
    None
}

/// Builds the stores of queries, mutations and subscriptions from the procedures,
/// registering each under its key in order. Every procedure must be registrable
/// (see [`first_unregistrable`]).
pub fn build_stores<P>(procedures: Vec<PendingProcedure<P>>) -> (r: (
    ProcedureStore<P>,
    ProcedureStore<P>,
    ProcedureStore<P>,
))
    requires
        registrable(procedures@),
    ensures
        r.0.view() == procedures_of_kind(procedures@, ProcedureKind::Query),
        r.1.view() == procedures_of_kind(procedures@, ProcedureKind::Mutation),
        r.2.view() == procedures_of_kind(procedures@, ProcedureKind::Subscription),
        r.0.kind_name() == "queries"@,
        r.1.kind_name() == "mutations"@,
        r.2.kind_name() == "subscriptions"@,
{
    let mut queries = ProcedureStore::new("queries");
    let mut mutations = ProcedureStore::new("mutations");
    let mut subscriptions = ProcedureStore::new("subscriptions");
    let ghost all = procedures@;
    let mut rest = procedures;
    let ghost n = all.len();
    let total = rest.len();
    let mut done: usize = 0;
    while rest.len() > 0
        invariant
            done <= n,
            total == n,
            n == all.len(),
            rest@ == all.subrange(done as int, n as int),
            registrable(all),
            queries.view() == procedures_of_kind(all.subrange(0, done as int), ProcedureKind::Query),
            mutations.view() == procedures_of_kind(all.subrange(0, done as int), ProcedureKind::Mutation),
            subscriptions.view() == procedures_of_kind(
                all.subrange(0, done as int),
                ProcedureKind::Subscription,
            ),
            queries.kind_name() == "queries"@,
            mutations.kind_name() == "mutations"@,
            subscriptions.kind_name() == "subscriptions"@,
        decreases rest@.len(),
    {
        let p = rest.remove(0);
        let ghost prefix = all.subrange(0, done as int);
        let ghost next = all.subrange(0, done + 1);
        assert(p == all[done as int]);
        assert(next.drop_last() =~= prefix);
        assert(next.last() == p);
        assert(!is_reserved_key(p.key@));
        proof {
            lemma_procedures_of_kind_dom(prefix, p.kind, p.key@);
            if procedures_of_kind(prefix, p.kind).contains_key(p.key@) {
                let a = choose|a: int|
                    0 <= a < prefix.len() && (#[trigger] prefix[a]).kind == p.kind && prefix[a].key@
                        == p.key@;
                assert(all[a] == prefix[a]);
                assert(false);
            }
        }
        let key = String::from_str(p.key);
        match p.kind {
            ProcedureKind::Query => {
                queries.append(key, p.procedure);
            },
            ProcedureKind::Mutation => {
                mutations.append(key, p.procedure);
            },
            ProcedureKind::Subscription => {
                subscriptions.append(key, p.procedure);
            },
        }
        done = done + 1;
        assert(rest@ =~= all.subrange(done as int, n as int));
    }
    assert(all.subrange(0, n as int) =~= all);
    (queries, mutations, subscriptions)
}

/// The reserved keys are exactly the empty key, `ws`, and the keys that begin with
/// `rpc.` or with `rspc.`; every other key (`news`, `rpc`, `views`, ...) is free.
pub proof fn law_reserved_keys_are_exactly(key: Seq<char>)
    ensures
        is_reserved_key(key) <==> (key.len() == 0 || (key.len() == 2 && key[0] == 'w' && key[1] == 's') || (
        key.len() >= 4 && key[0] == 'r' && key[1] == 'p' && key[2] == 'c' && key[3] == '.') || (key.len() >= 5
            && key[0] == 'r' && key[1] == 's' && key[2] == 'p' && key[3] == 'c' && key[4] == '.')),
{
    reveal_strlit("ws");
    reveal_strlit("rpc.");
    reveal_strlit("rspc.");
    if key.len() == 2 && key[0] == 'w' && key[1] == 's' {
        assert(key =~= "ws"@);
    }
    if key.len() >= 4 && key[0] == 'r' && key[1] == 'p' && key[2] == 'c' && key[3] == '.' {
        assert(key.subrange(0, 4) =~= "rpc."@);
    }
    if key.len() >= 5 && key[0] == 'r' && key[1] == 's' && key[2] == 'p' && key[3] == 'c' && key[4] == '.' {
        assert(key.subrange(0, 5) =~= "rspc."@);
    }
    if starts_with(key, "rpc."@) {
        assert(key.subrange(0, 4)[0] == key[0]);
        assert(key.subrange(0, 4)[1] == key[1]);
        assert(key.subrange(0, 4)[2] == key[2]);
        assert(key.subrange(0, 4)[3] == key[3]);
    }
    if starts_with(key, "rspc."@) {
        assert(key.subrange(0, 5)[0] == key[0]);
        assert(key.subrange(0, 5)[1] == key[1]);
        assert(key.subrange(0, 5)[2] == key[2]);
        assert(key.subrange(0, 5)[3] == key[3]);
        assert(key.subrange(0, 5)[4] == key[4]);
    }
}

} // verus!
