use vstd::prelude::*;

use crate::graph::{LinkInfo, Node, Port};

verus! {

/// First value bound to `key` in an association list: the mathematical
/// reading of the id-keyed maps below.
pub open spec fn sk_get<V>(s: Seq<(u32, V)>, key: u32) -> Option<V>
    decreases s.len(),
{
    if s.len() == 0 {
        None
    } else if s[0].0 == key {
        Some(s[0].1)
    } else {
        sk_get(s.drop_first(), key)
    }
}

/// The keys of `s` are pairwise distinct.
pub open spec fn unique_keys<V>(s: Seq<(u32, V)>) -> bool {
    forall|i: int, j: int| 0 <= i < j < s.len() ==> s[i].0 != s[j].0
}

pub proof fn lemma_unique_drop_first<V>(s: Seq<(u32, V)>)
    requires
        unique_keys(s),
        s.len() > 0,
    ensures
        unique_keys(s.drop_first()),
{
    assert forall|i: int, j: int|
        0 <= i < j < s.drop_first().len() implies s.drop_first()[i].0 != s.drop_first()[j].0 by {
        assert(s.drop_first()[i] == s[i + 1]);
        assert(s.drop_first()[j] == s[j + 1]);
    }
}

/// With distinct keys, the lookup of an entry's key returns that entry.
pub proof fn lemma_sk_get_at_index<V>(s: Seq<(u32, V)>, i: int)
    requires
        unique_keys(s),
        0 <= i < s.len(),
    ensures
        sk_get(s, s[i].0) == Some(s[i].1),
    decreases s.len(),
{
    if i > 0 {
        assert(s[0].0 != s[i].0);
        assert(s.drop_first()[i - 1] == s[i]);
        lemma_unique_drop_first(s);
        lemma_sk_get_at_index(s.drop_first(), i - 1);
    }
}

/// A key no entry holds is not found.
pub proof fn lemma_sk_get_none<V>(s: Seq<(u32, V)>, key: u32)
    requires
        forall|i: int| 0 <= i < s.len() ==> (#[trigger] s[i]).0 != key,
    ensures
        sk_get(s, key) is None,
    decreases s.len(),
{
    if s.len() > 0 {
        assert(forall|i: int|
            0 <= i < s.drop_first().len() ==> (#[trigger] s.drop_first()[i]) == s[i + 1]);
        lemma_sk_get_none(s.drop_first(), key);
    }
}

/// Appending a fresh key leaves every other lookup as it was.
pub proof fn lemma_sk_get_push<V>(s: Seq<(u32, V)>, key: u32, value: V, k: u32)
    requires
        sk_get(s, key) is None,
    ensures
        sk_get(s.push((key, value)), k) == if k == key {
            Some(value)
        } else {
            sk_get(s, k)
        },
    decreases s.len(),
{
    if s.len() == 0 {
        assert(s.push((key, value)).drop_first() =~= Seq::<(u32, V)>::empty());
    } else {
        assert(s.push((key, value)).drop_first() =~= s.drop_first().push((key, value)));
        lemma_sk_get_push(s.drop_first(), key, value, k);
    }
}

/// Removing the entry at `i` leaves every other key's lookup as it was.
pub proof fn lemma_sk_get_remove_other<V>(s: Seq<(u32, V)>, i: int, k: u32)
    requires
        unique_keys(s),
        0 <= i < s.len(),
        k != s[i].0,
    ensures
        sk_get(s.remove(i), k) == sk_get(s, k),
    decreases s.len(),
{
    if i == 0 {
        assert(s.remove(0) =~= s.drop_first());
    } else {
        assert(s.remove(i)[0] == s[0]);
        assert(s.remove(i).len() > 0);
        if s[0].0 != k {
            assert(s.remove(i).drop_first() =~= s.drop_first().remove(i - 1));
            lemma_unique_drop_first(s);
            assert(s.drop_first()[i - 1] == s[i]);
            lemma_sk_get_remove_other(s.drop_first(), i - 1, k);
        }
    }
}

/// An id-keyed map with distinct keys, the State Projection's backing
/// store for nodes and ports; a snapshot reads its entries in order.
pub struct IdMap<V> {
    entries: Vec<(u32, V)>,
}

impl<V> View for IdMap<V> {
    type V = Seq<(u32, V)>;

    closed spec fn view(&self) -> Seq<(u32, V)> {
        self.entries@
    }
}

impl<V> IdMap<V> {
    pub open spec fn wf(&self) -> bool {
        unique_keys(self@)
    }

    pub fn new() -> (r: Self)
        ensures
            r@ == Seq::<(u32, V)>::empty(),
            r.wf(),
    {
        Self { entries: Vec::new() }
    }

    /// The entries, in insertion order, for taking snapshots.
    pub fn entries(&self) -> (r: &Vec<(u32, V)>)
        ensures
            r@ == self@,
    {
        &self.entries
    }

    fn find_index(&self, key: u32) -> (r: Option<usize>)
        ensures
            match r {
                Some(i) => i < self@.len() && self@[i as int].0 == key,
                None => forall|i: int| 0 <= i < self@.len() ==> (#[trigger] self@[i]).0 != key,
            },
    {
        let mut i: usize = 0;
        while i < self.entries.len()
            invariant
                0 <= i <= self@.len(),
                forall|j: int| 0 <= j < i ==> (#[trigger] self@[j]).0 != key,
            decreases self@.len() - i,
        {
            if self.entries[i].0 == key {
                return Some(i);
            }
            i += 1;
        }
        None
    }

    /// Removes the entry with `key` and hands its value back; the map is
    /// untouched when no entry holds `key`.
    pub fn remove(&mut self, key: u32) -> (r: Option<V>)
        requires
            old(self).wf(),
        ensures
            final(self).wf(),
            r == sk_get(old(self)@, key),
            sk_get(final(self)@, key) is None,
            forall|k: u32| k != key ==> sk_get(final(self)@, k) == sk_get(old(self)@, k),
            r is Some ==> exists|i: int|
                0 <= i < old(self)@.len() && (#[trigger] old(self)@[i]).0 == key && final(self)@
                    == old(self)@.remove(i),
            r is None ==> final(self)@ == old(self)@,
    {
        let ghost s0 = self@;
        match self.find_index(key) {
            Some(i) => {
                let entry = self.entries.remove(i);
                proof {
                    lemma_sk_get_at_index(s0, i as int);
                    assert forall|j: int|
                        0 <= j < self@.len() implies (#[trigger] self@[j]).0 != key by {
                        if j < i {
                            assert(self@[j] == s0[j]);
                        } else {
                            assert(self@[j] == s0[j + 1]);
                        }
                    }
                    lemma_sk_get_none(self@, key);
                    assert forall|k: u32| k != key implies sk_get(self@, k) == sk_get(s0, k) by {
                        lemma_sk_get_remove_other(s0, i as int, k);
                    }
                    assert forall|a: int, b: int|
                        0 <= a < b < self@.len() implies self@[a].0 != self@[b].0 by {
                        let a0 = if a < i { a } else { a + 1 };
                        let b0 = if b < i { b } else { b + 1 };
                        assert(self@[a] == s0[a0]);
                        assert(self@[b] == s0[b0]);
                    }
                }
                Some(entry.1)
            },
            None => {
                proof {
                    lemma_sk_get_none(s0, key);
                }
                None
            },
        }
    }

    /// Binds `key` to `value`, replacing any earlier binding.
    pub fn insert(&mut self, key: u32, value: V)
        requires
            old(self).wf(),
        ensures
            final(self).wf(),
            sk_get(final(self)@, key) == Some(value),
            forall|k: u32| k != key ==> sk_get(final(self)@, k) == sk_get(old(self)@, k),
            final(self)@.len() > 0 && final(self)@.last() == (key, value),
            forall|j: int|
                0 <= j < final(self)@.len() - 1 ==> old(self)@.contains(#[trigger] final(self)@[j]),
    {
        let ghost s0 = self@;
        let _ = self.remove(key);
        let ghost s1 = self@;
        self.entries.push((key, value));
        proof {
            assert forall|k: u32| true implies sk_get(self@, k) == if k == key {
                Some(value)
            } else {
                sk_get(s1, k)
            } by {
                lemma_sk_get_push(s1, key, value, k);
            }
            assert forall|a: int, b: int|
                0 <= a < b < self@.len() implies self@[a].0 != self@[b].0 by {
                if b == self@.len() - 1 {
                    assert(self@[a] == s1[a]);
                    if s1[a].0 == key {
                        lemma_sk_get_at_index(s1, a);
                    }
                } else {
                    assert(self@[a] == s1[a]);
                    assert(self@[b] == s1[b]);
                }
            }
            assert forall|j: int|
                0 <= j < self@.len() - 1 implies s0.contains(#[trigger] self@[j]) by {
                assert(self@[j] == s1[j]);
                if sk_get(s0, key) is Some {
                    let i = choose|i: int|
                        0 <= i < s0.len() && (#[trigger] s0[i]).0 == key && s1 == s0.remove(i);
                    let j0 = if j < i { j } else { j + 1 };
                    assert(s1[j] == s0[j0]);
                }
            }
        }
    }
}

/// The Link Registry: mints sequential handles, starting at 1, strictly
/// increasing and never reused for the run's lifetime.
pub struct IncrementalMap<V> {
    pub map: IdMap<V>,
    pub key: u32,
}

impl<V> IncrementalMap<V> {
    /// Keys are distinct and every key ever minted lies in `1..=key`,
    /// so a released handle is never reassigned.
    pub open spec fn wf(&self) -> bool {
        self.map.wf() && forall|i: int|
            0 <= i < self.map@.len() ==> 1 <= (#[trigger] self.map@[i]).0 <= self.key
    }

    pub fn new() -> (r: Self)
        ensures
            r.wf(),
            r.map@ == Seq::<(u32, V)>::empty(),
            r.key == 0,
    {
        Self { map: IdMap::new(), key: 0 }
    }

    /// Stores `value` under the next handle and returns that handle,
    /// which was never in use before.
    pub fn insert(&mut self, value: V) -> (r: u32)
        requires
            old(self).wf(),
            old(self).key < u32::MAX,
        ensures
            final(self).wf(),
            r == old(self).key + 1,
            final(self).key == old(self).key + 1,
            sk_get(old(self).map@, r) is None,
            sk_get(final(self).map@, r) == Some(value),
            forall|k: u32| k != r ==> sk_get(final(self).map@, k) == sk_get(old(self).map@, k),
    {
        proof {
            lemma_sk_get_none(self.map@, (self.key + 1) as u32);
        }
        self.key = self.key + 1;
        self.map.insert(self.key, value);
        self.key
    }

    /// Hands back the value stored under `key`, withdrawing the handle;
    /// `None` for a handle that is not in use.
    pub fn remove(&mut self, key: u32) -> (r: Option<V>)
        requires
            old(self).wf(),
        ensures
            final(self).wf(),
            final(self).key == old(self).key,
            r == sk_get(old(self).map@, key),
            sk_get(final(self).map@, key) is None,
            forall|k: u32| k != key ==> sk_get(final(self).map@, k) == sk_get(old(self).map@, k),
            r is None ==> final(self).map@ == old(self).map@,
    {
        let ghost s0 = self.map@;
        let r = self.map.remove(key);
        proof {
            if r is Some {
                let i = choose|i: int|
                    0 <= i < s0.len() && (#[trigger] s0[i]).0 == key && self.map@ == s0.remove(i);
                assert forall|j: int|
                    0 <= j < self.map@.len() implies 1 <= (#[trigger] self.map@[j]).0
                    <= self.key by {
                    let j0 = if j < i { j } else { j + 1 };
                    assert(self.map@[j] == s0[j0]);
                }
            }
        }
        r
    }
}

impl<V> Default for IncrementalMap<V> {
    fn default() -> (r: Self)
        ensures
            r.wf(),
            r.map@ == Seq::<(u32, V)>::empty(),
            r.key == 0,
    {
        Self::new()
    }
}

/// The state owned by the Graph Reactor: the State Projection's two
/// id-keyed mappings, and the Link Registry.
pub struct ClientState {
    pub nodes: IdMap<Node>,
    pub ports: IdMap<Port>,
    pub links: IncrementalMap<LinkInfo>,
}

impl ClientState {
    /// Maps are well formed and each stored object is keyed by its own id.
    pub open spec fn wf(&self) -> bool {
        &&& self.nodes.wf()
        &&& self.ports.wf()
        &&& self.links.wf()
        &&& forall|k: u32|
            match #[trigger] sk_get(self.nodes@, k) {
                Some(n) => n.id == k,
                None => true,
            }
        &&& forall|k: u32|
            match #[trigger] sk_get(self.ports@, k) {
                Some(p) => p.id == k,
                None => true,
            }
    }

    pub fn new() -> (r: Self)
        ensures
            r.wf(),
            r.nodes@ == Seq::<(u32, Node)>::empty(),
            r.ports@ == Seq::<(u32, Port)>::empty(),
            r.links.map@ == Seq::<(u32, LinkInfo)>::empty(),
            r.links.key == 0,
    {
        let r = ClientState { nodes: IdMap::new(), ports: IdMap::new(), links: IncrementalMap::new() };
        proof {
            assert forall|k: u32| #[trigger] sk_get(r.nodes@, k) is None by {
                lemma_sk_get_none(r.nodes@, k);
            }
            assert forall|k: u32| #[trigger] sk_get(r.ports@, k) is None by {
                lemma_sk_get_none(r.ports@, k);
            }
        }
        r
    }
}

impl Default for ClientState {
    fn default() -> (r: Self)
        ensures
            r.wf(),
            r.nodes@ == Seq::<(u32, Node)>::empty(),
            r.ports@ == Seq::<(u32, Port)>::empty(),
            r.links.map@ == Seq::<(u32, LinkInfo)>::empty(),
            r.links.key == 0,
    {
        Self::new()
    }
}

/// A cloned, point-in-time snapshot of the node projection, in entry order.
pub fn snapshot_nodes(m: &IdMap<Node>) -> (r: Vec<Node>)
    ensures
        r@.len() == m@.len(),
        forall|i: int| 0 <= i < m@.len() ==> r@[i] == (#[trigger] m@[i]).1,
{
    let entries = m.entries();
    let mut r: Vec<Node> = Vec::new();
    let mut i: usize = 0;
    while i < entries.len()
        invariant
            entries@ == m@,
            0 <= i <= m@.len(),
            r@.len() == i,
            forall|j: int| 0 <= j < i ==> r@[j] == (#[trigger] m@[j]).1,
        decreases m@.len() - i,
    {
        r.push(entries[i].1.clone());
        i += 1;
    }
    r
}

/// A cloned, point-in-time snapshot of the port projection, in entry order.
pub fn snapshot_ports(m: &IdMap<Port>) -> (r: Vec<Port>)
    ensures
        r@.len() == m@.len(),
        forall|i: int| 0 <= i < m@.len() ==> r@[i] == (#[trigger] m@[i]).1,
{
    let entries = m.entries();
    let mut r: Vec<Port> = Vec::new();
    let mut i: usize = 0;
    while i < entries.len()
        invariant
            entries@ == m@,
            0 <= i <= m@.len(),
            r@.len() == i,
            forall|j: int| 0 <= j < i ==> r@[j] == (#[trigger] m@[j]).1,
        decreases m@.len() - i,
    {
        r.push(entries[i].1);
        i += 1;
    }
    r
}

} // verus!
