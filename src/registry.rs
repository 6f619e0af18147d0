//! The registry that maps a type to its persistence parameters.

use vstd::prelude::*;
use crate::format::str_equal;
use crate::params::{ParamsView, PersistentConfigParameters};

verus! {

/// The registry's contents as a map, the later of two entries for one key
/// winning.
pub open spec fn entries_map(s: Seq<(String, PersistentConfigParameters)>) -> Map<
    Seq<char>,
    ParamsView,
>
    decreases s.len(),
{
    if s.len() == 0 {
        Map::empty()
    } else {
        entries_map(s.drop_last()).insert(s.last().0@, s.last().1@)
    }
}

/// No key occurs twice.
pub open spec fn keys_unique(s: Seq<(String, PersistentConfigParameters)>) -> bool {
    forall|i: int, j: int| 0 <= i < j < s.len() ==> s[i].0@ != s[j].0@
}

proof fn lemma_entry_found(s: Seq<(String, PersistentConfigParameters)>, i: int)
    requires
        keys_unique(s),
        0 <= i < s.len(),
    ensures
        entries_map(s).contains_key(s[i].0@),
        entries_map(s)[s[i].0@] == s[i].1@,
    decreases s.len(),
{
    if i < s.len() - 1 {
        let d = s.drop_last();
        assert(keys_unique(d));
        lemma_entry_found(d, i);
        assert(d[i] == s[i]);
        assert(s[i].0@ != s.last().0@);
    }
}

proof fn lemma_entry_absent(s: Seq<(String, PersistentConfigParameters)>, k: Seq<char>)
    requires
        forall|i: int| 0 <= i < s.len() ==> s[i].0@ != k,
    ensures
        !entries_map(s).contains_key(k),
    decreases s.len(),
{
    if s.len() > 0 {
        let d = s.drop_last();
        assert forall|i: int| 0 <= i < d.len() implies d[i].0@ != k by {
            assert(d[i] == s[i]);
        }
        lemma_entry_absent(d, k);
    }
}

proof fn lemma_entry_replaced(
    s: Seq<(String, PersistentConfigParameters)>,
    i: int,
    e: (String, PersistentConfigParameters),
)
    requires
        keys_unique(s),
        0 <= i < s.len(),
        s[i].0@ == e.0@,
    ensures
        entries_map(s.update(i, e)) == entries_map(s).insert(e.0@, e.1@),
    decreases s.len(),
{
    let u = s.update(i, e);
    let d = s.drop_last();
    if i == s.len() - 1 {
        assert(u.drop_last() == d);
        assert(entries_map(u) =~= entries_map(s).insert(e.0@, e.1@));
    } else {
        assert(keys_unique(d));
        assert(u.drop_last() == d.update(i, e));
        lemma_entry_replaced(d, i, e);
        assert(s.last().0@ != s[i].0@);
        assert(entries_map(u) =~= entries_map(s).insert(e.0@, e.1@));
    }
}

/// Registry of persistence parameters, one entry per type key.
///
/// A type's key is a stable name that the type itself chooses (see
/// `PersistentConfigBuilder::type_key`).
pub struct PersistentConfigDB {
    entries: Vec<(String, PersistentConfigParameters)>,
}

impl View for PersistentConfigDB {
    type V = Map<Seq<char>, ParamsView>;

    closed spec fn view(&self) -> Map<Seq<char>, ParamsView> {
        entries_map(self.entries@)
    }
}

impl PersistentConfigDB {
    #[verifier::type_invariant]
    spec fn inv(&self) -> bool {
        keys_unique(self.entries@)
    }

    /// An empty registry.
    pub fn new() -> (r: PersistentConfigDB)
        ensures
            r@ == Map::<Seq<char>, ParamsView>::empty(),
    {
        PersistentConfigDB { entries: Vec::new() }
    }

    fn position(&self, key: &str) -> (r: Option<usize>)
        ensures
            match r {
                Some(i) => i < self.entries@.len() && self.entries@[i as int].0@ == key@,
                None => forall|j: int|
                    0 <= j < self.entries@.len() ==> self.entries@[j].0@ != key@,
            },
    {
        let n = self.entries.len();
        let mut i: usize = 0;
        while i < n
            invariant
                n == self.entries@.len(),
                i <= n,
                forall|j: int| 0 <= j < i ==> self.entries@[j].0@ != key@,
            decreases n - i,
        {
            if str_equal(self.entries[i].0.as_str(), key) {
                return Some(i);
            }
            i = i + 1;
        }
        None
    }

    /// Inserts or replaces the parameters stored under `key`.
    pub fn add_config(&mut self, key: &str, config: PersistentConfigParameters)
        ensures
            final(self)@ == old(self)@.insert(key@, config@),
    {
        proof {
            use_type_invariant(&*self);
        }
        let found = self.position(key);
        let mut entries: Vec<(String, PersistentConfigParameters)> = Vec::new();
        std::mem::swap(&mut entries, &mut self.entries);
        let ghost s = entries@;
        let e = (String::from_str(key), config);
        match found {
            Some(i) => {
                entries.set(i, e);
                proof {
                    lemma_entry_replaced(s, i as int, e);
                    assert forall|a: int, b: int|
                        0 <= a < b < entries@.len() implies entries@[a].0@ != entries@[b].0@ by {
                        assert(s[a].0@ != s[b].0@);
                    }
                }
            },
            None => {
                entries.push(e);
                proof {
                    assert(entries@.drop_last() == s);
                }
            },
        }
        self.entries = entries;
    }

    /// The parameters stored under `key`, if any.
    pub fn get_config(&self, key: &str) -> (r: Option<PersistentConfigParameters>)
        ensures
            match r {
                Some(p) => self@.contains_key(key@) && p@ == self@[key@],
                None => !self@.contains_key(key@),
            },
    {
        proof {
            use_type_invariant(&*self);
        }
        match self.position(key) {
            Some(i) => {
                proof {
                    lemma_entry_found(self.entries@, i as int);
                }
                Some(self.entries[i].1.duplicate())
            },
            None => {
                proof {
                    lemma_entry_absent(self.entries@, key@);
                }
                None
            },
        }
    }
}

impl Default for PersistentConfigDB {
    fn default() -> (r: PersistentConfigDB)
        ensures
            r@ == Map::<Seq<char>, ParamsView>::empty(),
    {
        PersistentConfigDB::new()
    }
}

/// Registering parameters under a key makes a lookup of that key return them.
pub proof fn lemma_registered_config_is_returned(
    db: Map<Seq<char>, ParamsView>,
    key: Seq<char>,
    config: ParamsView,
)
    ensures
        db.insert(key, config).contains_key(key),
        db.insert(key, config)[key] == config,
{
}

/// Registering a key again replaces its parameters: the last registration wins.
pub proof fn lemma_last_registration_wins(
    db: Map<Seq<char>, ParamsView>,
    key: Seq<char>,
    first: ParamsView,
    second: ParamsView,
)
    ensures
        db.insert(key, first).insert(key, second).contains_key(key),
        db.insert(key, first).insert(key, second)[key] == second,
        db.insert(key, first).insert(key, second) == db.insert(key, second),
{
    assert(db.insert(key, first).insert(key, second) =~= db.insert(key, second));
}

} // verus!
