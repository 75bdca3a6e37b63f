//! A read-through cache in front of a repository, with one loader per key.
//!
//! Loading a key goes in rounds: look the key up in storage; on a hit, return the
//! cached value; on a miss, register for the key. The first caller to register
//! becomes the key's leader: it loads from the repository, stores the value and
//! releases the key. A caller that finds the key already registered waits for the
//! leader and starts a new round.
use vstd::prelude::*;

pub mod keys;

verus! {

/// A cached lookup result, which may record that nothing was found.
pub struct Cached<T>(pub Option<T>);

/// The cache: a storage, the repository behind it, and the lifetime of entries in seconds.
pub struct Cache<S, R> {
    storage: S,
    repository: R,
    ttl: u32,
}

impl<S, R> Cache<S, R> {
    pub fn new(storage: S, repository: R, ttl: u32) -> (r: Self)
        ensures
            r.spec_storage() == storage,
            r.spec_repository() == repository,
            r.spec_ttl() == ttl,
    {
        Cache { storage, repository, ttl }
    }

    pub closed spec fn spec_storage(&self) -> S {
        self.storage
    }

    pub closed spec fn spec_repository(&self) -> R {
        self.repository
    }

    pub closed spec fn spec_ttl(&self) -> u32 {
        self.ttl
    }

    pub fn storage(&self) -> (r: &S)
        ensures
            *r == self.spec_storage(),
    {
        &self.storage
    }

    pub fn repository(&self) -> (r: &R)
        ensures
            *r == self.spec_repository(),
    {
        &self.repository
    }

    pub fn ttl(&self) -> (r: u32)
        ensures
            r == self.spec_ttl(),
    {
        self.ttl
    }
}

/// The keys being loaded right now, each by exactly one leader.
pub struct InflightRegistry {
    keys: Vec<String>,
}

/// Whether `s` holds each element at most once.
pub open spec fn no_duplicates(s: Seq<Seq<char>>) -> bool {
    forall|i: int, j: int| 0 <= i < s.len() && 0 <= j < s.len() && i != j ==> s[i] != s[j]
}

impl View for InflightRegistry {
    type V = Set<Seq<char>>;

    closed spec fn view(&self) -> Set<Seq<char>> {
        self.keys@.map_values(|k: String| k@).to_set()
    }
}

impl InflightRegistry {
    /// No key is held twice.
    pub closed spec fn wf(&self) -> bool {
        no_duplicates(self.keys@.map_values(|k: String| k@))
    }

    /// A registry with no key in flight.
    pub fn new() -> (r: Self)
        ensures
            r@ == Set::<Seq<char>>::empty(),
            r.wf(),
    {
        let r = InflightRegistry { keys: Vec::new() };
        assert(r.keys@.map_values(|k: String| k@) =~= Seq::<Seq<char>>::empty());
        r
    }

    fn position(&self, key: &str) -> (r: Option<usize>)
        ensures
            r matches Some(i) ==> i < self.keys@.len() && self.keys@[i as int]@ == key@,
            r is None ==> !self@.contains(key@),
    {
        let mut i: usize = 0;
        while i < self.keys.len()
            invariant
                i <= self.keys.len(),
                forall|j: int| 0 <= j < i ==> self.keys@[j]@ != key@,
            decreases self.keys.len() - i,
        {
            if crate::text::str_eq(self.keys[i].as_str(), key) {
                return Some(i);
            }
            i = i + 1;
        }
        proof {
            let m = self.keys@.map_values(|k: String| k@);
            if m.contains(key@) {
                let k = choose|j: int| 0 <= j < m.len() && #[trigger] m[j] == key@;
                assert(self.keys@[k]@ == key@);
            }
        }
        None
    }

    /// Whether a leader is loading `key`.
    pub fn is_inflight(&self, key: &str) -> (r: bool)
        ensures
            r == self@.contains(key@),
    {
        match self.position(key) {
            Some(i) => {
                proof {
                    let m = self.keys@.map_values(|k: String| k@);
                    assert(m[i as int] == key@);
                    assert(m.contains(key@));
                }
                true
            },
            None => false,
        }
    }

    /// Registers for `key`. Returns true when the caller becomes the key's leader,
    /// which happens exactly when no leader holds the key yet; the key is then held.
    pub fn begin(&mut self, key: &str) -> (leader: bool)
        requires
            old(self).wf(),
        ensures
            final(self).wf(),
            leader == !old(self)@.contains(key@),
            final(self)@ == old(self)@.insert(key@),
    {
        let ghost before = self.keys@.map_values(|k: String| k@);
        match self.position(key) {
            Some(i) => {
                proof {
                    assert(before[i as int] == key@);
                    assert(before.contains(key@));
                    assert(old(self)@.insert(key@) =~= old(self)@);
                }
                false
            },
            None => {
                self.keys.push(key.to_owned());
                proof {
                    let after = self.keys@.map_values(|k: String| k@);
                    assert(after =~= before.push(key@));
                    assert(!before.contains(key@));
                    assert forall|a: int, b: int| 0 <= a < after.len() && 0 <= b < after.len() && a != b implies after[a] != after[b] by {
                        if a == before.len() {
                            assert(before[b] == after[b]);
                        } else if b == before.len() {
                            assert(before[a] == after[a]);
                        }
                    }
                    assert forall|x: Seq<char>| #[trigger] after.contains(x) <==> (before.contains(x) || x == key@) by {
                        if after.contains(x) {
                            let j = choose|j: int| 0 <= j < after.len() && after[j] == x;
                            if j < before.len() {
                                assert(before[j] == x);
                            }
                        }
                        if before.contains(x) {
                            let j = choose|j: int| 0 <= j < before.len() && before[j] == x;
                            assert(after[j] == x);
                        }
                        if x == key@ {
                            assert(after[before.len() as int] == x);
                        }
                    }
                    assert(after.to_set() =~= before.to_set().insert(key@));
                }
                true
            },
        }
    }

    /// Releases `key` once its leader is done, whether the load succeeded or not.
    pub fn finish(&mut self, key: &str)
        requires
            old(self).wf(),
        ensures
            final(self).wf(),
            final(self)@ == old(self)@.remove(key@),
    {
        let ghost before = self.keys@.map_values(|k: String| k@);
        match self.position(key) {
            None => {
                proof {
                    assert(old(self)@.remove(key@) =~= old(self)@);
                }
            },
            Some(i) => {
                self.keys.remove(i);
                proof {
                    let after = self.keys@.map_values(|k: String| k@);
                    assert(after =~= before.remove(i as int));
                    assert(before[i as int] == key@);
                    assert forall|a: int, b: int| 0 <= a < after.len() && 0 <= b < after.len() && a != b implies after[a] != after[b] by {
                        let a2 = if a < i { a } else { a + 1 };
                        let b2 = if b < i { b } else { b + 1 };
                        assert(after[a] == before[a2]);
                        assert(after[b] == before[b2]);
                    }
                    assert forall|x: Seq<char>| #[trigger] after.contains(x) <==> (before.contains(x) && x != key@) by {
                        if after.contains(x) {
                            let j = choose|j: int| 0 <= j < after.len() && after[j] == x;
                            let j2 = if j < i { j } else { j + 1 };
                            assert(before[j2] == x);
                            assert(j2 != i);
                        }
                        if before.contains(x) && x != key@ {
                            let j = choose|j: int| 0 <= j < before.len() && before[j] == x;
                            if j < i {
                                assert(after[j] == x);
                            } else {
                                assert(j != i);
                                assert(after[j - 1] == x);
                            }
                        }
                    }
                    assert(after.to_set() =~= before.to_set().remove(key@));
                }
            },
        }
    }
}

/// What a caller of `load_or_cache` does next in a round.
pub enum LoadStep<T> {
    /// The value was cached: return it.
    Return(T),
    /// Another caller is loading the key: wait for it, then start a new round.
    Wait,
    /// This caller is the leader: load the value from the repository.
    Load,
}

/// Whether a round for `key` makes its caller the leader: nothing was cached and
/// nobody is loading the key.
pub open spec fn leads(inflight: Set<Seq<char>>, key: Seq<char>, cached: bool) -> bool {
    !cached && !inflight.contains(key)
}

/// The keys being loaded after a round for `key`: the leader's key joins them.
pub open spec fn after_round(inflight: Set<Seq<char>>, key: Seq<char>, cached: bool) -> Set<Seq<char>> {
    if leads(inflight, key, cached) { inflight.insert(key) } else { inflight }
}

/// Decides one round of `load_or_cache` for `key`, given what the storage returned.
pub fn next_step<T>(registry: &mut InflightRegistry, key: &str, cached: Option<T>) -> (r: LoadStep<T>)
    requires
        old(registry).wf(),
    ensures
        final(registry).wf(),
        final(registry)@ == after_round(old(registry)@, key@, cached is Some),
        (r is Load) == leads(old(registry)@, key@, cached is Some),
        cached matches Some(v) ==> r == LoadStep::Return(v),
        cached is None && old(registry)@.contains(key@) ==> r is Wait,
{
    match cached {
        Some(v) => LoadStep::Return(v),
        None => {
            if registry.begin(key) {
                LoadStep::Load
            } else {
                LoadStep::Wait
            }
        },
    }
}

/// Ends the leader's load of `key`: the key is released. The load's result is
/// handed back unchanged.
pub fn finish_load<T, E>(registry: &mut InflightRegistry, key: &str, loaded: Result<T, E>) -> (r: Result<T, E>)
    requires
        old(registry).wf(),
    ensures
        final(registry).wf(),
        r == loaded,
        final(registry)@ == old(registry)@.remove(key@),
{
    registry.finish(key);
    loaded
}

/// Single flight: of two rounds for the same key with no finished load between
/// them, at most one makes its caller the leader.
pub proof fn lemma_single_leader(inflight: Set<Seq<char>>, key: Seq<char>, first_cached: bool, second_cached: bool)
    ensures
        !(leads(inflight, key, first_cached) && leads(after_round(inflight, key, first_cached), key, second_cached)),
{
}

/// When the leader finishes, the key is free again: the next round that finds
/// nothing cached leads, and the loads of other keys are as they were before the
/// leader started.
pub proof fn lemma_finish_frees_key(inflight: Set<Seq<char>>, key: Seq<char>, other: Seq<char>, cached: bool)
    requires
        leads(inflight, key, false),
    ensures
        leads(after_round(inflight, key, false).remove(key), key, false),
        other != key ==> leads(after_round(inflight, key, false).remove(key), other, cached) == leads(inflight, other, cached),
{
}

} // verus!
