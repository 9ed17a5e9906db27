//! Key/value overrides (command-line flags, `SCORPIO_*` environment
//! variables): each key holds at most one value, and a later insert of a key
//! replaces its earlier value.

use vstd::prelude::*;

verus! {

pub type Entries = Seq<(Seq<char>, Seq<char>)>;

/// The position of the first entry whose key is `k`.
pub open spec fn key_index(e: Entries, k: Seq<char>) -> Option<nat>
    decreases e.len(),
{
    if e.len() == 0 {
        None
    } else if e[0].0 == k {
        Some(0)
    } else {
        match key_index(e.drop_first(), k) {
            Some(i) => Some(i + 1),
            None => None,
        }
    }
}

/// The value held under `k`.
pub open spec fn lookup(e: Entries, k: Seq<char>) -> Option<Seq<char>> {
    match key_index(e, k) {
        Some(i) => Some(e[i as int].1),
        None => None,
    }
}

/// The entries after `k` is set to `v`: the existing entry is replaced in
/// place, or a new one is appended.
pub open spec fn insert_entry(e: Entries, k: Seq<char>, v: Seq<char>) -> Entries {
    match key_index(e, k) {
        Some(i) => e.update(i as int, (k, v)),
        None => e.push((k, v)),
    }
}

proof fn lemma_key_index_first(e: Entries, k: Seq<char>, i: int)
    requires
        0 <= i <= e.len(),
        forall|j: int| 0 <= j < i ==> (#[trigger] e[j]).0 != k,
    ensures
        i < e.len() && e[i].0 == k ==> key_index(e, k) == Some(i as nat),
        i == e.len() ==> key_index(e, k) is None,
    decreases i,
{
    if i > 0 {
        assert forall|j: int| 0 <= j < i - 1 implies (#[trigger] e.drop_first()[j]).0 != k by {
            assert(e.drop_first()[j] == e[j + 1]);
        }
        lemma_key_index_first(e.drop_first(), k, i - 1);
    } else if e.len() > 0 {
    }
}

proof fn lemma_key_index_valid(e: Entries, k: Seq<char>)
    ensures
        key_index(e, k) matches Some(i) ==> i < e.len() && e[i as int].0 == k && (forall|j: int|
            0 <= j < i ==> (#[trigger] e[j]).0 != k),
        key_index(e, k) is None ==> forall|j: int| 0 <= j < e.len() ==> (#[trigger] e[j]).0 != k,
    decreases e.len(),
{
    if e.len() > 0 && e[0].0 != k {
        lemma_key_index_valid(e.drop_first(), k);
        assert forall|j: int| 0 < j < e.len() implies e[j] == #[trigger] e.drop_first()[j - 1] by {}
        if key_index(e.drop_first(), k) is None {
            assert forall|j: int| 0 <= j < e.len() implies (#[trigger] e[j]).0 != k by {
                if j > 0 {
                    assert(e[j] == e.drop_first()[j - 1]);
                }
            }
        } else {
            let i = key_index(e.drop_first(), k)->0;
            assert forall|j: int| 0 <= j < i + 1 implies (#[trigger] e[j]).0 != k by {
                if j > 0 {
                    assert(e[j] == e.drop_first()[j - 1]);
                }
            }
        }
    }
}

/// Setting a key and then looking it up gives the value just set.
pub proof fn lemma_lookup_after_insert(e: Entries, k: Seq<char>, v: Seq<char>)
    ensures
        lookup(insert_entry(e, k, v), k) == Some(v),
{
    lemma_key_index_valid(e, k);
    let e2 = insert_entry(e, k, v);
    match key_index(e, k) {
        Some(i) => {
            assert forall|j: int| 0 <= j < i implies (#[trigger] e2[j]).0 != k by {}
            lemma_key_index_first(e2, k, i as int);
        },
        None => {
            assert forall|j: int| 0 <= j < e.len() implies (#[trigger] e2[j]).0 != k by {}
            lemma_key_index_first(e2, k, e.len() as int);
        },
    }
}

/// Setting a key leaves every other key's value as it was.
pub proof fn lemma_lookup_other_after_insert(e: Entries, k: Seq<char>, v: Seq<char>, k2: Seq<char>)
    requires
        k2 != k,
    ensures
        lookup(insert_entry(e, k, v), k2) == lookup(e, k2),
{
    lemma_key_index_valid(e, k);
    lemma_key_index_valid(e, k2);
    let e2 = insert_entry(e, k, v);
    match key_index(e, k2) {
        Some(i) => {
            assert forall|j: int| 0 <= j < i implies (#[trigger] e2[j]).0 != k2 by {
                assert(e2[j].0 == e[j].0 || e2[j].0 == k);
            }
            lemma_key_index_first(e2, k2, i as int);
        },
        None => {
            assert forall|j: int| 0 <= j < e2.len() implies (#[trigger] e2[j]).0 != k2 by {
                if j < e.len() {
                    assert(e2[j].0 == e[j].0 || e2[j].0 == k);
                }
            }
            lemma_key_index_first(e2, k2, e2.len() as int);
        },
    }
}

/// A set of key/value overrides, at most one value per key. The pairs are
/// kept in a vector with unique keys rather than in a `HashMap<String,
/// String>`: vstd's `HashMap` specification gives nothing to prove with
/// `String` keys, so the resolver's contracts could not say which value a
/// lookup finds.
pub struct Overrides {
    entries: Vec<(String, String)>,
}

impl View for Overrides {
    type V = Entries;

    closed spec fn view(&self) -> Entries {
        self.entries@.map_values(|p: (String, String)| (p.0@, p.1@))
    }
}

impl Overrides {
    /// No overrides at all.
    pub fn new() -> (r: Self)
        ensures
            r@ == Seq::<(Seq<char>, Seq<char>)>::empty(),
    {
        let r = Overrides { entries: Vec::new() };
        assert(r@ =~= Seq::<(Seq<char>, Seq<char>)>::empty());
        r
    }

    fn find(&self, key: &str) -> (r: Option<usize>)
        ensures
            match (r, key_index(self@, key@)) {
                (Some(i), Some(j)) => i == j && i < self.entries.len(),
                (None, None) => true,
                _ => false,
            },
    {
        let k = String::from_str(key);
        let mut i: usize = 0;
        while i < self.entries.len()
            invariant
                i <= self.entries.len(),
                k@ == key@,
                forall|j: int| 0 <= j < i ==> (#[trigger] self@[j]).0 != key@,
            decreases self.entries.len() - i,
        {
            if self.entries[i].0 == k {
                assert(self@[i as int].0 == key@);
                proof {
                    lemma_key_index_first(self@, key@, i as int);
                }
                return Some(i);
            }
            assert(self@[i as int].0 != key@);
            i = i + 1;
        }
        proof {
            lemma_key_index_first(self@, key@, i as int);
        }
        None
    }

    /// The value held under `key`.
    pub fn get(&self, key: &str) -> (r: Option<&String>)
        ensures
            match (r, lookup(self@, key@)) {
                (Some(v), Some(w)) => v@ == w,
                (None, None) => true,
                _ => false,
            },
    {
        match self.find(key) {
            Some(i) => Some(&self.entries[i].1),
            None => None,
        }
    }

    /// Sets `key` to `value`, replacing any value it held.
    pub fn insert(&mut self, key: String, value: String)
        ensures
            final(self)@ == insert_entry(old(self)@, key@, value@),
    {
        match self.find(key.as_str()) {
            Some(i) => {
                let ghost kv = key@;
                let ghost vv = value@;
                self.entries.set(i, (key, value));
                assert(self@ =~= insert_entry(old(self)@, kv, vv));
            },
            None => {
                let ghost kv = key@;
                let ghost vv = value@;
                self.entries.push((key, value));
                assert(self@ =~= insert_entry(old(self)@, kv, vv));
            },
        }
    }

    /// The number of keys set.
    pub fn len(&self) -> (n: usize)
        ensures
            n == self@.len(),
    {
        self.entries.len()
    }
}

} // verus!
