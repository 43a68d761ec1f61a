use vstd::prelude::*;

verus! {

/// The label that the first entry with key `key` gives, if any.
pub open spec fn lookup(s: Seq<(char, String)>, key: char) -> Option<Seq<char>>
    decreases s.len(),
{
    if s.len() == 0 {
        None
    } else if s[0].0 == key {
        Some(s[0].1@)
    } else {
        lookup(s.drop_first(), key)
    }
}

/// The first entry with key `key` is at index `i`.
pub open spec fn first_key_at(s: Seq<(char, String)>, key: char, i: int) -> bool {
    &&& 0 <= i < s.len()
    &&& s[i].0 == key
    &&& forall|j: int| 0 <= j < i ==> (#[trigger] s[j]).0 != key
}

/// The registry of tags: each tag key with its label.
#[derive(Debug)]
pub struct SidePanelState {
    pub label: String,
    pub tags: Vec<(char, String)>,
}

impl SidePanelState {
    /// Each key is held once.
    pub open spec fn wf(&self) -> bool {
        forall|i: int, j: int|
            0 <= i < j < self.tags@.len() ==> (#[trigger] self.tags@[i]).0 != (#[trigger] self.tags@[j]).0
    }

    /// The label registered for `key`, if any.
    pub open spec fn label_of(&self, key: char) -> Option<Seq<char>> {
        lookup(self.tags@, key)
    }

    /// The registry as a map from key to label.
    pub open spec fn spec_map(&self) -> Map<char, Seq<char>> {
        Map::new(|k: char| self.label_of(k) is Some, |k: char| self.label_of(k)->0)
    }

    /// An empty registry under the given heading.
    pub fn new(label: String) -> (r: SidePanelState)
        ensures
            r.wf(),
            r.label@ == label@,
            forall|k: char| #[trigger] r.label_of(k) is None,
    {
        SidePanelState { label, tags: Vec::new() }
    }

    fn find(&self, key: char) -> (r: Option<usize>)
        ensures
            match r {
                Some(i) => first_key_at(self.tags@, key, i as int),
                None => forall|j: int| 0 <= j < self.tags@.len() ==> (#[trigger] self.tags@[j]).0 != key,
            },
    {
        let n = self.tags.len();
        let mut i: usize = 0;
        while i < n
            invariant
                n == self.tags@.len(),
                i <= n,
                forall|j: int| 0 <= j < i ==> (#[trigger] self.tags@[j]).0 != key,
            decreases n - i,
        {
            if self.tags[i].0 == key {
                return Some(i);
            }
            i = i + 1;
        }
        None
    }

    /// Whether `key` has a label.
    pub fn contains(&self, key: char) -> (r: bool)
        ensures
            r == self.label_of(key) is Some,
    {
        match self.find(key) {
            Some(i) => {
                proof { lemma_lookup_found(self.tags@, key, i as int); }
                true
            },
            None => {
                proof { lemma_lookup_absent(self.tags@, key); }
                false
            },
        }
    }

    /// The label of `key`, if any.
    pub fn get(&self, key: char) -> (r: Option<&String>)
        ensures
            match r {
                Some(l) => self.label_of(key) == Some(l@),
                None => self.label_of(key) is None,
            },
    {
        match self.find(key) {
            Some(i) => {
                proof { lemma_lookup_found(self.tags@, key, i as int); }
                Some(&self.tags[i].1)
            },
            None => {
                proof { lemma_lookup_absent(self.tags@, key); }
                None
            },
        }
    }

    /// Gives `tag` the label `value`, replacing any label it had.
    pub fn insert(&mut self, tag: char, value: String)
        requires
            old(self).wf(),
        ensures
            final(self).wf(),
            final(self).label@ == old(self).label@,
            final(self).label_of(tag) == Some(value@),
            forall|k: char| k != tag ==> #[trigger] final(self).label_of(k) == old(self).label_of(k),
            final(self).spec_map() == old(self).spec_map().insert(tag, value@),
    {
        let ghost before = self.tags@;
        let ghost v = value@;
        match self.find(tag) {
            Some(i) => {
                self.tags.set(i, (tag, value));
                proof {
                    lemma_lookup_update(before, tag, i as int, self.tags@[i as int]);
                }
            },
            None => {
                self.tags.push((tag, value));
                proof {
                    lemma_lookup_push(before, tag, self.tags@.last());
                }
            },
        }
        proof {
            assert(self.spec_map() =~= old(self).spec_map().insert(tag, v));
        }
    }
}

proof fn lemma_lookup_found(s: Seq<(char, String)>, key: char, i: int)
    requires
        first_key_at(s, key, i),
    ensures
        lookup(s, key) == Some(s[i].1@),
    decreases i,
{
    if i > 0 {
        let t = s.drop_first();
        assert forall|j: int| 0 <= j < i - 1 implies (#[trigger] t[j]).0 != key by {
            assert(t[j] == s[j + 1]);
        }
        lemma_lookup_found(t, key, i - 1);
    }
}

proof fn lemma_lookup_absent(s: Seq<(char, String)>, key: char)
    requires
        forall|j: int| 0 <= j < s.len() ==> (#[trigger] s[j]).0 != key,
    ensures
        lookup(s, key) is None,
    decreases s.len(),
{
    if s.len() > 0 {
        let t = s.drop_first();
        assert forall|j: int| 0 <= j < t.len() implies (#[trigger] t[j]).0 != key by {
            assert(t[j] == s[j + 1]);
        }
        lemma_lookup_absent(t, key);
    }
}

/// Replacing the first entry of `key` changes what `key` looks up, and nothing else.
proof fn lemma_lookup_update(s: Seq<(char, String)>, key: char, i: int, e: (char, String))
    requires
        first_key_at(s, key, i),
        e.0 == key,
    ensures
        forall|k: char| #[trigger] lookup(s.update(i, e), k) == if k == key {
            Some(e.1@)
        } else {
            lookup(s, k)
        },
    decreases i,
{
    let u = s.update(i, e);
    if i == 0 {
        assert forall|k: char| #[trigger] lookup(u, k) == if k == key { Some(e.1@) } else { lookup(s, k) } by {
            assert(u.drop_first() =~= s.drop_first());
            assert(u[0] == e);
            if k != key {
                assert(lookup(u, k) == lookup(u.drop_first(), k));
                assert(lookup(s, k) == lookup(s.drop_first(), k));
            }
        }
    } else {
        let t = s.drop_first();
        assert forall|j: int| 0 <= j < i - 1 implies (#[trigger] t[j]).0 != key by {
            assert(t[j] == s[j + 1]);
        }
        lemma_lookup_update(t, key, i - 1, e);
        assert(u.drop_first() =~= t.update(i - 1, e));
        assert forall|k: char| #[trigger] lookup(u, k) == if k == key { Some(e.1@) } else { lookup(s, k) } by {
            assert(u[0] == s[0]);
            if s[0].0 != k {
                assert(lookup(u, k) == lookup(u.drop_first(), k));
                assert(lookup(s, k) == lookup(t, k));
            }
        }
    }
}

/// Appending an entry for a key that has none gives it that label, and changes nothing else.
proof fn lemma_lookup_push(s: Seq<(char, String)>, key: char, e: (char, String))
    requires
        forall|j: int| 0 <= j < s.len() ==> (#[trigger] s[j]).0 != key,
        e.0 == key,
    ensures
        forall|k: char| #[trigger] lookup(s.push(e), k) == if k == key {
            Some(e.1@)
        } else {
            lookup(s, k)
        },
    decreases s.len(),
{
    let u = s.push(e);
    if s.len() == 0 {
        assert forall|k: char| #[trigger] lookup(u, k) == if k == key { Some(e.1@) } else { lookup(s, k) } by {
            assert(u[0] == e);
            if k != key {
                assert(lookup(u, k) == lookup(u.drop_first(), k));
                assert(lookup(u.drop_first(), k) is None);
            }
        }
    } else {
        let t = s.drop_first();
        assert forall|j: int| 0 <= j < t.len() implies (#[trigger] t[j]).0 != key by {
            assert(t[j] == s[j + 1]);
        }
        lemma_lookup_push(t, key, e);
        assert(u.drop_first() =~= t.push(e));
        assert forall|k: char| #[trigger] lookup(u, k) == if k == key { Some(e.1@) } else { lookup(s, k) } by {
            assert(u[0] == s[0]);
            if s[0].0 != k {
                assert(lookup(u, k) == lookup(u.drop_first(), k));
                assert(lookup(s, k) == lookup(t, k));
            }
        }
    }
}

} // verus!
