//! The table of requests that wait for their reply: each key (a request id
//! or a transaction hash) maps to what the reply must carry back and to the
//! channel that the reply goes out on. No key occurs twice.
use vstd::prelude::*;
use crate::protocol::{ReqInfo, ReqInfoView};

verus! {

struct PendingEntry<S> {
    key: Vec<u8>,
    info: ReqInfo,
    sender: S,
}

pub struct PendingTable<S> {
    entries: Vec<PendingEntry<S>>,
}

/// Some entry of `s` has key `k`.
spec fn seq_holds<S>(s: Seq<PendingEntry<S>>, k: Seq<u8>) -> bool {
    exists|i: int| 0 <= i < s.len() && (#[trigger] s[i]).key@ == k
}

/// The position of the entry of `s` with key `k`.
spec fn seq_slot<S>(s: Seq<PendingEntry<S>>, k: Seq<u8>) -> int {
    choose|i: int| 0 <= i < s.len() && (#[trigger] s[i]).key@ == k
}

/// No two entries of `s` have the same key.
spec fn distinct_keys<S>(s: Seq<PendingEntry<S>>) -> bool {
    forall|i: int, j: int|
        0 <= i < s.len() && 0 <= j < s.len() && i != j ==> (#[trigger] s[i]).key@ != (#[trigger] s[j]).key@
}

/// What the entries of `s` hold, by key.
spec fn seq_map<S>(s: Seq<PendingEntry<S>>) -> Map<Seq<u8>, (ReqInfoView, S)> {
    Map::new(
        |k: Seq<u8>| seq_holds(s, k),
        |k: Seq<u8>| (s[seq_slot(s, k)].info@, s[seq_slot(s, k)].sender),
    )
}

/// The value that `m` holds at `k`, if any.
pub open spec fn lookup<V>(m: Map<Seq<u8>, V>, k: Seq<u8>) -> Option<V> {
    if m.dom().contains(k) {
        Some(m[k])
    } else {
        None
    }
}

/// The mathematical value of a removed or displaced entry.
pub open spec fn entry_view<S>(r: Option<(ReqInfo, S)>) -> Option<(ReqInfoView, S)> {
    match r {
        Some(p) => Some((p.0@, p.1)),
        None => None,
    }
}

proof fn lemma_lookup<S>(s: Seq<PendingEntry<S>>, i: int)
    requires
        distinct_keys(s),
        0 <= i < s.len(),
    ensures
        seq_map(s).dom().contains(s[i].key@),
        seq_map(s)[s[i].key@] == (s[i].info@, s[i].sender),
{
    assert(seq_holds(s, s[i].key@));
    let j = seq_slot(s, s[i].key@);
    assert(s[j].key@ == s[i].key@);
}

proof fn lemma_remove<S>(s: Seq<PendingEntry<S>>, i: int)
    requires
        distinct_keys(s),
        0 <= i < s.len(),
    ensures
        distinct_keys(s.remove(i)),
        seq_map(s.remove(i)) == seq_map(s).remove(s[i].key@),
{
    let t = s.remove(i);
    let gone = s[i].key@;
    assert forall|a: int, b: int|
        0 <= a < t.len() && 0 <= b < t.len() && a != b implies (#[trigger] t[a]).key@ != (#[trigger] t[b]).key@ by {
        let a2 = if a < i { a } else { a + 1 };
        let b2 = if b < i { b } else { b + 1 };
        assert(t[a] == s[a2]);
        assert(t[b] == s[b2]);
    }
    assert forall|k: Seq<u8>| seq_holds(t, k) <==> seq_holds(s, k) && k != gone by {
        if seq_holds(t, k) {
            let j = choose|j: int| 0 <= j < t.len() && (#[trigger] t[j]).key@ == k;
            let j2 = if j < i { j } else { j + 1 };
            assert(t[j] == s[j2]);
            assert(s[j2].key@ == k);
        }
        if seq_holds(s, k) && k != gone {
            let j = choose|j: int| 0 <= j < s.len() && (#[trigger] s[j]).key@ == k;
            assert(j != i);
            let j2 = if j < i { j } else { j - 1 };
            assert(t[j2] == s[j]);
            assert(t[j2].key@ == k);
        }
    }
    assert forall|k: Seq<u8>| #[trigger] seq_holds(t, k) implies seq_map(t)[k] == seq_map(s)[k] by {
        let j = seq_slot(t, k);
        let j2 = if j < i { j } else { j + 1 };
        assert(t[j] == s[j2]);
        let m = seq_slot(s, k);
        assert(s[m].key@ == k);
        assert(m == j2);
    }
    assert(seq_map(t) =~= seq_map(s).remove(gone));
}

proof fn lemma_push<S>(s: Seq<PendingEntry<S>>, e: PendingEntry<S>)
    requires
        distinct_keys(s),
        !seq_holds(s, e.key@),
    ensures
        distinct_keys(s.push(e)),
        seq_map(s.push(e)) == seq_map(s).insert(e.key@, (e.info@, e.sender)),
{
    let t = s.push(e);
    let n = s.len() as int;
    assert forall|a: int, b: int|
        0 <= a < t.len() && 0 <= b < t.len() && a != b implies (#[trigger] t[a]).key@ != (#[trigger] t[b]).key@ by {
        if a < n && b < n {
            assert(t[a] == s[a] && t[b] == s[b]);
        } else if a < n {
            assert(t[a] == s[a]);
            assert(s[a].key@ != e.key@);
        } else {
            assert(t[b] == s[b]);
            assert(s[b].key@ != e.key@);
        }
    }
    assert forall|k: Seq<u8>| seq_holds(t, k) <==> seq_holds(s, k) || k == e.key@ by {
        if seq_holds(t, k) {
            let j = choose|j: int| 0 <= j < t.len() && (#[trigger] t[j]).key@ == k;
            if j < n {
                assert(t[j] == s[j]);
            }
        }
        if seq_holds(s, k) {
            let j = choose|j: int| 0 <= j < s.len() && (#[trigger] s[j]).key@ == k;
            assert(t[j] == s[j]);
        }
        if k == e.key@ {
            assert(t[n] == e);
        }
    }
    assert forall|k: Seq<u8>| #[trigger] seq_holds(t, k) implies seq_map(t)[k] == seq_map(s).insert(
        e.key@,
        (e.info@, e.sender),
    )[k] by {
        let j = seq_slot(t, k);
        if k == e.key@ {
            assert(t[n] == e);
            assert(j == n);
        } else {
            assert(j < n);
            assert(t[j] == s[j]);
            let m = seq_slot(s, k);
            assert(s[m].key@ == k);
            assert(m == j);
        }
    }
    assert(seq_map(t) =~= seq_map(s).insert(e.key@, (e.info@, e.sender)));
}

/// Whether two byte strings are equal.
fn bytes_equal(a: &[u8], b: &[u8]) -> (r: bool)
    ensures
        r == (a@ == b@),
{
    if a.len() != b.len() {
        return false;
    }
    let mut i: usize = 0;
    while i < a.len()
        invariant
            a@.len() == b@.len(),
            i <= a@.len(),
            forall|j: int| 0 <= j < i ==> a@[j] == b@[j],
        decreases a@.len() - i,
    {
        if a[i] != b[i] {
            return false;
        }
        i = i + 1;
    }
    assert(a@ =~= b@);
    true
}

impl<S> View for PendingTable<S> {
    type V = Map<Seq<u8>, (ReqInfoView, S)>;

    closed spec fn view(&self) -> Map<Seq<u8>, (ReqInfoView, S)> {
        seq_map(self.entries@)
    }
}

impl<S> PendingTable<S> {
    /// No key occurs twice.
    pub closed spec fn wf(&self) -> bool {
        distinct_keys(self.entries@)
    }

    /// An empty table.
    pub fn new() -> (t: Self)
        ensures
            t.wf(),
            t@ == Map::<Seq<u8>, (ReqInfoView, S)>::empty(),
    {
        let t = PendingTable { entries: Vec::new() };
        assert(t@ =~= Map::<Seq<u8>, (ReqInfoView, S)>::empty());
        t
    }

    /// The position of the entry with key `key`, if there is one.
    fn find(&self, key: &[u8]) -> (r: Option<usize>)
        ensures
            r matches Some(i) ==> i < self.entries@.len() && self.entries@[i as int].key@ == key@,
            r is None ==> !seq_holds(self.entries@, key@),
    {
        let mut i: usize = 0;
        while i < self.entries.len()
            invariant
                i <= self.entries@.len(),
                forall|j: int| 0 <= j < i ==> (#[trigger] self.entries@[j]).key@ != key@,
            decreases self.entries@.len() - i,
        {
            if bytes_equal(self.entries[i].key.as_slice(), key) {
                return Some(i);
            }
            i = i + 1;
        }
        None
    }

    /// Whether a request with key `key` waits.
    pub fn contains_key(&self, key: &[u8]) -> (r: bool)
        ensures
            r == self@.dom().contains(key@),
    {
        self.find(key).is_some()
    }

    /// Takes out the entry with key `key`, if there is one.
    pub fn remove(&mut self, key: &[u8]) -> (r: Option<(ReqInfo, S)>)
        requires
            old(self).wf(),
        ensures
            final(self).wf(),
            entry_view(r) == lookup(old(self)@, key@),
            final(self)@ == old(self)@.remove(key@),
    {
        match self.find(key) {
            None => {
                assert(self@ =~= old(self)@.remove(key@));
                None
            },
            Some(i) => {
                proof {
                    lemma_lookup(self.entries@, i as int);
                    lemma_remove(self.entries@, i as int);
                }
                let e = self.entries.remove(i);
                Some((e.info, e.sender))
            },
        }
    }

    /// Makes `key` map to `info` and `sender`, and gives back what it
    /// mapped to before, if anything.
    pub fn insert(&mut self, key: Vec<u8>, info: ReqInfo, sender: S) -> (r: Option<(ReqInfo, S)>)
        requires
            old(self).wf(),
        ensures
            final(self).wf(),
            entry_view(r) == lookup(old(self)@, key@),
            final(self)@ == old(self)@.insert(key@, (info@, sender)),
    {
        let displaced = self.remove(key.as_slice());
        assert(!self@.dom().contains(key@));
        assert(!seq_holds(self.entries@, key@));
        let entry = PendingEntry { key, info, sender };
        proof {
            lemma_push(self.entries@, entry);
        }
        self.entries.push(entry);
        assert(self@ =~= old(self)@.insert(entry.key@, (entry.info@, entry.sender)));
        displaced
    }
}

}
