//! A durable memo from zone name to provider zone id: loaded once at
//! process start, consulted and extended during the run, written back
//! wholesale at run end.
use vstd::prelude::*;

verus! {

/// The zone-name memo. Keys are unique; the view is the map it
/// represents.
#[derive(Debug)]
pub struct Cache {
    entries: Vec<(String, String)>,
}

/// The map that an entry list stands for; a later entry for the same
/// key overrides an earlier one.
pub open spec fn map_of(entries: Seq<(String, String)>) -> Map<Seq<char>, Seq<char>>
    decreases entries.len(),
{
    if entries.len() == 0 {
        Map::empty()
    } else {
        map_of(entries.drop_last()).insert(entries.last().0@, entries.last().1@)
    }
}

/// No two entries share a key.
pub open spec fn keys_unique(entries: Seq<(String, String)>) -> bool {
    forall|i: int, j: int| 0 <= i < j < entries.len() ==> entries[i].0@ != entries[j].0@
}

/// An entry's key is in the map, bound to that entry's value, provided
/// no later entry shares the key.
proof fn lemma_map_of_last_match(entries: Seq<(String, String)>, i: int)
    requires
        0 <= i < entries.len(),
        forall|j: int| i < j < entries.len() ==> entries[j].0@ != entries[i].0@,
    ensures
        map_of(entries).contains_key(entries[i].0@),
        map_of(entries)[entries[i].0@] == entries[i].1@,
    decreases entries.len(),
{
    if i + 1 < entries.len() {
        lemma_map_of_last_match(entries.drop_last(), i);
    }
}

/// A key no entry carries is not in the map.
proof fn lemma_map_of_absent(entries: Seq<(String, String)>, k: Seq<char>)
    requires
        forall|i: int| 0 <= i < entries.len() ==> entries[i].0@ != k,
    ensures
        !map_of(entries).contains_key(k),
    decreases entries.len(),
{
    if entries.len() > 0 {
        lemma_map_of_absent(entries.drop_last(), k);
    }
}

/// Overwriting the entry at `i` with a new value for the same key
/// updates the map at that key alone.
proof fn lemma_map_of_update(entries: Seq<(String, String)>, i: int, v: (String, String))
    requires
        0 <= i < entries.len(),
        keys_unique(entries),
        v.0@ == entries[i].0@,
    ensures
        map_of(entries.update(i, v)) =~= map_of(entries).insert(v.0@, v.1@),
    decreases entries.len(),
{
    let updated = entries.update(i, v);
    assert(updated.drop_last() =~= if i == entries.len() - 1 {
        entries.drop_last()
    } else {
        entries.drop_last().update(i, v)
    });
    if i < entries.len() - 1 {
        lemma_map_of_update(entries.drop_last(), i, v);
        assert(entries[i].0@ != entries.last().0@);
    }
}

/// Appending an entry with a fresh key keeps the other entries' keys
/// unique.
proof fn lemma_push_keeps_keys_unique(entries: Seq<(String, String)>, v: (String, String))
    requires
        keys_unique(entries),
        forall|i: int| 0 <= i < entries.len() ==> entries[i].0@ != v.0@,
    ensures
        keys_unique(entries.push(v)),
{
}

/// What consulting the cache for a zone name yields: a hit returns
/// the memoised id at once, with no external call; a miss directs the
/// caller to the external zone lookup, whose result it must insert
/// back.
#[derive(Debug, PartialEq, Eq)]
pub enum ZoneStep {
    Hit(String),
    Miss,
}

/// The id a cache state yields for a zone name, if any.
pub open spec fn spec_resolve(m: Map<Seq<char>, Seq<char>>, zone: Seq<char>) -> Option<Seq<char>> {
    if m.contains_key(zone) {
        Some(m[zone])
    } else {
        None
    }
}

/// Once a zone's id stands in the cache, resolving that zone is a hit:
/// after a first successful resolution inserts the id, a second
/// resolution of the same zone name issues no external lookup.
pub proof fn lemma_resolve_after_insert(
    m: Map<Seq<char>, Seq<char>>,
    zone: Seq<char>,
    id: Seq<char>,
)
    ensures
        spec_resolve(m.insert(zone, id), zone) == Some(id),
{
}

/// Equality of two borrowed strings, by their character sequences.
fn str_eq(a: &str, b: &str) -> (r: bool)
    ensures
        r == (a@ == b@),
{
    let a_owned: String = a.to_owned();
    let b_owned: String = b.to_owned();
    a_owned == b_owned
}

impl Cache {
    /// Well-formed: no two entries share a key. Constructors establish
    /// it and `insert` preserves it.
    pub closed spec fn wf(self) -> bool {
        keys_unique(self.entries@)
    }

    pub closed spec fn view(self) -> Map<Seq<char>, Seq<char>> {
        map_of(self.entries@)
    }

    /// An empty cache.
    pub fn new() -> (r: Cache)
        ensures
            r.wf(),
            r@ =~= Map::<Seq<char>, Seq<char>>::empty(),
    {
        Cache { entries: Vec::new() }
    }

    /// Rebuilds the cache from persisted entries; an entry read later
    /// overrides an earlier one with the same key, so a well-formed
    /// store round-trips unchanged.
    pub fn from_entries(entries: &Vec<(String, String)>) -> (r: Cache)
        ensures
            r.wf(),
            r@ == map_of(entries@),
    {
        let mut cache = Cache::new();
        let n = entries.len();
        let mut i: usize = 0;
        while i < n
            invariant
                n == entries@.len(),
                i <= n,
                cache.wf(),
                cache@ == map_of(entries@.take(i as int)),
            decreases n - i,
        {
            let entry = &entries[i];
            cache.insert(entry.0.clone(), entry.1.clone());
            i += 1;
            proof {
                assert(entries@.take(i as int).drop_last() =~= entries@.take(i - 1));
            }
        }
        proof {
            assert(entries@.take(n as int) =~= entries@);
        }
        cache
    }

    /// The entries to persist, one per key.
    pub fn entries(&self) -> (r: &Vec<(String, String)>)
        requires
            self.wf(),
        ensures
            map_of(r@) == self@,
            keys_unique(r@),
    {
        &self.entries
    }

    /// The id memoised for a zone name, if any.
    pub fn get(&self, key: &str) -> (r: Option<&String>)
        requires
            self.wf(),
        ensures
            match r {
                Some(v) => self@.contains_key(key@) && v@ == self@[key@],
                None => !self@.contains_key(key@),
            },
    {
        let n = self.entries.len();
        let mut i: usize = 0;
        while i < n
            invariant
                n == self.entries@.len(),
                i <= n,
                keys_unique(self.entries@),
                forall|j: int| 0 <= j < i ==> self.entries@[j].0@ != key@,
            decreases n - i,
        {
            let entry = &self.entries[i];
            if str_eq(entry.0.as_str(), key) {
                proof {
                    lemma_map_of_last_match(self.entries@, i as int);
                }
                return Some(&entry.1);
            }
            i += 1;
        }
        proof {
            lemma_map_of_absent(self.entries@, key@);
        }
        None
    }

    /// Binds a zone name to an id, replacing any previous binding.
    pub fn insert(&mut self, key: String, value: String)
        requires
            old(self).wf(),
        ensures
            final(self).wf(),
            final(self)@ == old(self)@.insert(key@, value@),
    {
        let n = self.entries.len();
        let mut i: usize = 0;
        while i < n
            invariant
                n == self.entries@.len(),
                i <= n,
                self == old(self),
                keys_unique(self.entries@),
                forall|j: int| 0 <= j < i ==> self.entries@[j].0@ != key@,
            decreases n - i,
        {
            let entry = &self.entries[i];
            if str_eq(entry.0.as_str(), key.as_str()) {
                proof {
                    lemma_map_of_update(self.entries@, i as int, (key, value));
                }
                self.entries[i] = (key, value);
                proof {
                    assert(forall|j: int|
                        0 <= j < self.entries@.len() ==> self.entries@[j].0@ == old(
                            self,
                        ).entries@[j].0@);
                    assert(keys_unique(self.entries@));
                }
                return ;
            }
            i += 1;
        }
        proof {
            lemma_push_keeps_keys_unique(self.entries@, (key, value));
        }
        // Key absent: append a fresh entry.
        self.entries.push((key, value));
        proof {
            assert(self.entries@.drop_last() =~= old(self).entries@);
        }
    }

    /// The fast path of zone resolution: consult the memo under shared
    /// read access; only a miss obliges the caller to the external
    /// lookup (and to inserting its result).
    pub fn resolve_step(&self, zone: &str) -> (r: ZoneStep)
        requires
            self.wf(),
        ensures
            match r {
                ZoneStep::Hit(id) => spec_resolve(self@, zone@) == Some(id@),
                ZoneStep::Miss => spec_resolve(self@, zone@) is None,
            },
    {
        match self.get(zone) {
            Some(id) => ZoneStep::Hit(id.clone()),
            None => ZoneStep::Miss,
        }
    }

    /// Relies on `std::sync::RwLock::new` and `Arc::new`: wraps the
    /// cache for reader/writer-synchronised sharing across concurrent
    /// record tasks. The lock's contents are opaque here; callers lock
    /// outside verified code.
    #[verifier::external_body]
    pub fn into_threadsafe(self) -> std::sync::Arc<std::sync::RwLock<Cache>> {
        std::sync::Arc::new(std::sync::RwLock::new(self))
    }
}

#[verifier::external_type_specification]
#[verifier::external_body]
#[verifier::reject_recursive_types(T)]
pub struct ExRwLock<T: ?Sized>(std::sync::RwLock<T>);

} // verus!
