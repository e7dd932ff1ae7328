use vstd::prelude::*;
use crate::keyed::{lookup, position_of};

verus! {

/// The key-value persistence facade. Absence of a key is a normal outcome, and
/// removing an absent key is a successful no-op.
pub trait KeyValueStore {
    /// What the store holds.
    spec fn entries(&self) -> Map<Seq<char>, Seq<char>>;

    /// Whether a successful `set` is kept (false for a store that persists nothing).
    spec fn keeps_writes(&self) -> bool;

    /// Whether `set` and `remove` can report an error.
    spec fn may_fail(&self) -> bool;

    fn get(&self, key: &String) -> (r: Option<String>)
        ensures
            match r {
                Some(v) => self.entries().contains_key(key@) && self.entries()[key@] == v@,
                None => !self.entries().contains_key(key@),
            };

    fn set(&mut self, key: &String, value: &String) -> (r: Result<(), String>)
        ensures
            final(self).keeps_writes() == old(self).keeps_writes(),
            final(self).may_fail() == old(self).may_fail(),
            !old(self).may_fail() ==> r is Ok,
            r is Ok && old(self).keeps_writes() ==> final(self).entries() == old(
                self,
            ).entries().insert(key@, value@),
            r is Err || !old(self).keeps_writes() ==> final(self).entries() == old(
                self,
            ).entries(),
    ;

    fn remove(&mut self, key: &String) -> (r: Result<(), String>)
        ensures
            final(self).keeps_writes() == old(self).keeps_writes(),
            final(self).may_fail() == old(self).may_fail(),
            !old(self).may_fail() ==> r is Ok,
            r is Ok ==> final(self).entries() == old(self).entries().remove(key@),
            r is Err ==> final(self).entries() == old(self).entries(),
    ;
}

/// A store that persists nothing: every read finds nothing, every write succeeds.
#[derive(Clone, Copy, Debug, Default)]
pub struct NullStore;

impl NullStore {
    pub fn new() -> (r: NullStore)
        ensures
            r.entries() == Map::<Seq<char>, Seq<char>>::empty(),
    {
        NullStore
    }
}

impl KeyValueStore for NullStore {
    open spec fn entries(&self) -> Map<Seq<char>, Seq<char>> {
        Map::empty()
    }

    open spec fn keeps_writes(&self) -> bool {
        false
    }

    open spec fn may_fail(&self) -> bool {
        false
    }

    fn get(&self, key: &String) -> (r: Option<String>) {
        None
    }

    fn set(&mut self, key: &String, value: &String) -> (r: Result<(), String>) {
        Ok(())
    }

    fn remove(&mut self, key: &String) -> (r: Result<(), String>) {
        assert(Map::<Seq<char>, Seq<char>>::empty().remove(key@) =~= Map::empty());
        Ok(())
    }
}

/// A store that keeps its entries in memory for the life of the process.
#[derive(Clone, Debug)]
pub struct MemoryStore {
    items: Vec<(String, String)>,
}

/// The map that a list of keyed entries describes.
pub open spec fn map_of(items: Seq<(String, String)>) -> Map<Seq<char>, Seq<char>> {
    Map::new(|k: Seq<char>| lookup(items, k) is Some, |k: Seq<char>| (lookup(items, k)->Some_0)@)
}

/// The entries of `items` whose key is not `key`, in order.
fn without_key(items: &Vec<(String, String)>, key: &String) -> (r: Vec<(String, String)>)
    ensures
        forall|q: Seq<char>|
            #[trigger] lookup(r@, q) == (if q == key@ {
                None
            } else {
                lookup(items@, q)
            }),
{
    let mut out: Vec<(String, String)> = Vec::new();
    let mut i: usize = 0;
    while i < items.len()
        invariant
            i <= items@.len(),
            forall|q: Seq<char>|
                #[trigger] lookup(out@, q) == (if q == key@ {
                    None
                } else {
                    lookup(items@.take(i as int), q)
                }),
        decreases items@.len() - i,
    {
        let ghost before = out@;
        let ghost seen = items@.take(i + 1);
        assert(seen.drop_last() =~= items@.take(i as int));
        assert(seen.last() == items@[i as int]);
        let pushed = items[i].0 != *key;
        if pushed {
            out.push((items[i].0.clone(), items[i].1.clone()));
            assert(out@.drop_last() =~= before);
            assert(out@.last() == items@[i as int]);
        }
        assert forall|q: Seq<char>|
            #[trigger] lookup(out@, q) == (if q == key@ {
                None
            } else {
                lookup(seen, q)
            }) by {
            assert(lookup(seen, q) == (if seen.last().0@ == q {
                Some(seen.last().1)
            } else {
                lookup(seen.drop_last(), q)
            }));
            if pushed {
                assert(lookup(out@, q) == (if out@.last().0@ == q {
                    Some(out@.last().1)
                } else {
                    lookup(out@.drop_last(), q)
                }));
            } else {
                assert(out@ == before);
                assert(lookup(out@, q) == lookup(before, q));
            }
        }
        i = i + 1;
    }
    assert(items@.take(i as int) =~= items@);
    out
}

impl MemoryStore {
    /// An empty store.
    pub fn new() -> (r: MemoryStore)
        ensures
            r.entries() == Map::<Seq<char>, Seq<char>>::empty(),
    {
        let r = MemoryStore { items: Vec::new() };
        assert(r.entries() =~= Map::<Seq<char>, Seq<char>>::empty());
        r
    }
}

impl KeyValueStore for MemoryStore {
    closed spec fn entries(&self) -> Map<Seq<char>, Seq<char>> {
        map_of(self.items@)
    }

    open spec fn keeps_writes(&self) -> bool {
        true
    }

    open spec fn may_fail(&self) -> bool {
        false
    }

    fn get(&self, key: &String) -> (r: Option<String>) {
        match position_of(&self.items, key) {
            Some(i) => Some(self.items[i].1.clone()),
            None => None,
        }
    }

    fn set(&mut self, key: &String, value: &String) -> (r: Result<(), String>) {
        let ghost before = self.items@;
        let mut items = without_key(&self.items, key);
        let ghost kept = items@;
        items.push((key.clone(), value.clone()));
        assert(items@.drop_last() =~= kept);
        assert forall|q: Seq<char>|
            #[trigger] lookup(items@, q) == (if q == key@ {
                Some(items@.last().1)
            } else {
                lookup(before, q)
            }) by {
            assert(lookup(items@, q) == (if items@.last().0@ == q {
                Some(items@.last().1)
            } else {
                lookup(items@.drop_last(), q)
            }));
        }
        self.items = items;
        assert(map_of(self.items@) =~= map_of(before).insert(key@, value@));
        Ok(())
    }

    fn remove(&mut self, key: &String) -> (r: Result<(), String>) {
        let ghost before = self.items@;
        self.items = without_key(&self.items, key);
        assert(map_of(self.items@) =~= map_of(before).remove(key@));
        Ok(())
    }
}

/// After `set(key, value)` succeeds on a store that keeps writes, `get(key)`
/// gives back `value`.
pub proof fn written_value_is_read_back<S: KeyValueStore>(
    store: S,
    key: Seq<char>,
    value: Seq<char>,
)
    requires
        store.keeps_writes(),
    ensures
        store.entries().insert(key, value).contains_key(key),
        store.entries().insert(key, value)[key] == value,
{
}

/// The null store holds nothing: `get` finds every key absent, whatever was set.
pub proof fn null_store_reads_nothing(store: NullStore, key: Seq<char>)
    ensures
        !store.entries().contains_key(key),
{
}

/// Setting the same key to the same value twice leaves the store as setting it
/// once does.
pub proof fn set_is_idempotent<S: KeyValueStore>(store: S, key: Seq<char>, value: Seq<char>)
    ensures
        store.entries().insert(key, value).insert(key, value) == store.entries().insert(
            key,
            value,
        ),
{
    assert(store.entries().insert(key, value).insert(key, value) =~= store.entries().insert(
        key,
        value,
    ));
}

/// Removing a key that was never set changes nothing.
pub proof fn removing_absent_key_changes_nothing<S: KeyValueStore>(store: S, key: Seq<char>)
    requires
        !store.entries().contains_key(key),
    ensures
        store.entries().remove(key) == store.entries(),
{
    assert(store.entries().remove(key) =~= store.entries());
}

} // verus!
