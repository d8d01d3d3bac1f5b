//! The registry of the background tasks that are in flight.

use vstd::prelude::*;

use crate::docker_data::spawn_id::{SpawnId, SpawnKey};

verus! {

/// The keys of the tasks that are in flight. A key is entered when its task is
/// started and taken out by the task itself when it ends, so a key is present
/// exactly while its task runs, and no key is present twice.
#[derive(Debug)]
pub struct Spawns {
    keys: Vec<SpawnId>,
}

/// The keys that a list of identifiers stands for, in the same order.
pub open spec fn keys_of(ids: Seq<SpawnId>) -> Seq<SpawnKey> {
    ids.map_values(|id: SpawnId| id@)
}

impl View for Spawns {
    type V = Set<SpawnKey>;

    closed spec fn view(&self) -> Set<SpawnKey> {
        keys_of(self.keys@).to_set()
    }
}

impl Spawns {
    #[verifier::type_invariant]
    spec fn distinct(&self) -> bool {
        keys_of(self.keys@).no_duplicates()
    }

    /// A registry is a finite set of keys.
    pub broadcast proof fn view_finite(&self)
        ensures
            (#[trigger] self@).finite(),
    {
        vstd::seq_lib::seq_to_set_is_finite(keys_of(self.keys@));
    }

    /// The registry with no task in flight.
    pub fn new() -> (spawns: Self)
        ensures
            spawns@ == Set::<SpawnKey>::empty(),
    {
        let spawns = Spawns { keys: Vec::new() };
        assert(keys_of(spawns.keys@).to_set() =~= Set::<SpawnKey>::empty());
        spawns
    }

    /// The number of tasks in flight.
    pub fn len(&self) -> (n: usize)
        ensures
            n == self@.len(),
    {
        proof {
            use_type_invariant(self);
            keys_of(self.keys@).unique_seq_to_set();
        }
        self.keys.len()
    }

    /// Whether no task is in flight.
    pub fn is_empty(&self) -> (r: bool)
        ensures
            r == (self@ == Set::<SpawnKey>::empty()),
    {
        proof {
            if self.keys@.len() > 0 {
                assert(keys_of(self.keys@)[0] == self.keys@[0]@);
                assert(self@.contains(self.keys@[0]@));
            } else {
                assert(self@ =~= Set::<SpawnKey>::empty());
            }
        }
        self.keys.len() == 0
    }

    /// Where `key` stands in the list, if it is registered.
    fn position(&self, key: &SpawnId) -> (at: Option<usize>)
        ensures
            at is Some <==> self@.contains(key@),
            at matches Some(i) ==> i < self.keys@.len() && self.keys@[i as int]@ == key@,
    {
        let mut i: usize = 0;
        while i < self.keys.len()
            invariant
                i <= self.keys@.len(),
                forall|j: int| 0 <= j < i ==> self.keys@[j]@ != key@,
            decreases self.keys@.len() - i,
        {
            if self.keys[i] == *key {
                assert(keys_of(self.keys@)[i as int] == key@);
                return Some(i);
            }
            i += 1;
        }
        assert(!keys_of(self.keys@).contains(key@));
        None
    }

    /// Whether a task is registered under `key`.
    pub fn contains(&self, key: &SpawnId) -> (r: bool)
        ensures
            r == self@.contains(key@),
    {
        self.position(key).is_some()
    }

    /// Registers `key` unless a task is already in flight under it, and says
    /// whether it did: the caller starts the task only then.
    pub fn insert_if_absent(&mut self, key: SpawnId) -> (started: bool)
        ensures
            started == !old(self)@.contains(key@),
            final(self)@ == old(self)@.insert(key@),
    {
        if self.contains(&key) {
            assert(self@.insert(key@) =~= self@);
            false
        } else {
            self.push_new(key);
            true
        }
    }

    /// Registers `key` whether or not a task is in flight under it, and says
    /// whether there was one: the new task then takes the place of the old.
    pub fn insert(&mut self, key: SpawnId) -> (replaced: bool)
        ensures
            replaced == old(self)@.contains(key@),
            final(self)@ == old(self)@.insert(key@),
    {
        !self.insert_if_absent(key)
    }

    /// Appends a key that is not registered yet.
    fn push_new(&mut self, key: SpawnId)
        requires
            !old(self)@.contains(key@),
        ensures
            final(self)@ == old(self)@.insert(key@),
    {
        proof {
            use_type_invariant(&*self);
        }
        let ghost before = keys_of(self.keys@);
        let mut keys: Vec<SpawnId> = Vec::new();
        std::mem::swap(&mut self.keys, &mut keys);
        keys.push(key);
        proof {
            let after = keys_of(keys@);
            assert(after =~= before.push(key@));
            assert forall|i: int, j: int| 0 <= i < after.len() && 0 <= j < after.len() && i != j implies after[i]
                != after[j] by {
                if i < before.len() && j < before.len() {
                } else if i < before.len() {
                    assert(before.contains(before[i]));
                } else {
                    assert(before.contains(before[j]));
                }
            }
            assert forall|k: SpawnKey| after.to_set().contains(k) implies before.to_set().insert(
                key@,
            ).contains(k) by {
                let i = choose|i: int| 0 <= i < after.len() && after[i] == k;
                if i < before.len() {
                    assert(before[i] == k);
                }
            }
            assert forall|k: SpawnKey| before.to_set().insert(key@).contains(k) implies after.to_set().contains(
                k,
            ) by {
                if k == key@ {
                    assert(after[before.len() as int] == k);
                } else {
                    let i = choose|i: int| 0 <= i < before.len() && before[i] == k;
                    assert(after[i] == k);
                }
            }
            assert(after.to_set() =~= before.to_set().insert(key@));
        }
        self.keys = keys;
    }

    /// Takes `key` out, as its task does when it ends, and says whether it was
    /// registered. Taking out a key that is not registered changes nothing.
    pub fn remove(&mut self, key: &SpawnId) -> (found: bool)
        ensures
            found == old(self)@.contains(key@),
            final(self)@ == old(self)@.remove(key@),
    {
        proof {
            use_type_invariant(&*self);
        }
        match self.position(key) {
            None => {
                assert(self@.remove(key@) =~= self@);
                false
            },
            Some(i) => {
                let ghost before = keys_of(self.keys@);
                let mut keys: Vec<SpawnId> = Vec::new();
                std::mem::swap(&mut self.keys, &mut keys);
                keys.remove(i);
                proof {
                    let after = keys_of(keys@);
                    assert(after =~= before.remove(i as int));
                    assert(before[i as int] == key@);
                    assert forall|k: SpawnKey| after.to_set().contains(k) implies before.to_set().remove(
                        key@,
                    ).contains(k) by {
                        let j = choose|j: int| 0 <= j < after.len() && after[j] == k;
                        if j < i {
                            assert(before[j] == k);
                        } else {
                            assert(before[j + 1] == k);
                        }
                    }
                    assert forall|k: SpawnKey| before.to_set().remove(key@).contains(k) implies after.to_set().contains(
                        k,
                    ) by {
                        let j = choose|j: int| 0 <= j < before.len() && before[j] == k;
                        if j < i {
                            assert(after[j] == k);
                        } else {
                            assert(after[j - 1] == k);
                        }
                    }
                    assert(after.to_set() =~= before.to_set().remove(key@));
                }
                self.keys = keys;
                true
            },
        }
    }

    /// Empties the registry and hands out every key that was in it, each once:
    /// the tasks that the caller has to cancel.
    pub fn cancel_all(&mut self) -> (cancelled: Vec<SpawnId>)
        ensures
            final(self)@ == Set::<SpawnKey>::empty(),
            keys_of(cancelled@).to_set() == old(self)@,
            keys_of(cancelled@).no_duplicates(),
            cancelled@.len() == old(self)@.len(),
    {
        proof {
            use_type_invariant(&*self);
            keys_of(self.keys@).unique_seq_to_set();
        }
        let mut cancelled: Vec<SpawnId> = Vec::new();
        std::mem::swap(&mut self.keys, &mut cancelled);
        assert(keys_of(self.keys@).to_set() =~= Set::<SpawnKey>::empty());
        cancelled
    }
}

} // verus!
