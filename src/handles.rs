use vstd::prelude::*;

verus! {

/// Key the propagation library returns for an element set it already holds.
pub const DUPKEY: i64 = 0;

/// Key the propagation library returns when it could not load or find a
/// resource.
pub const BADKEY: i64 = -1;

/// Failure to bind or release a native resource.
#[derive(Debug, Clone, Copy, PartialEq, Eq, Structural)]
pub enum ResourceError {
    /// The key is already held, or the library reported a duplicate.
    DuplicateKey,
    /// The key is not held, or the library reported a failure.
    InvalidKey,
}

/// The keys held after binding `key`, or why it cannot be bound.
pub open spec fn register_outcome(live: Set<i64>, key: i64) -> Result<Set<i64>, ResourceError> {
    if key < DUPKEY {
        Err(ResourceError::InvalidKey)
    } else if key == DUPKEY || live.contains(key) {
        Err(ResourceError::DuplicateKey)
    } else {
        Ok(live.insert(key))
    }
}

/// The keys held after releasing `key`, or why it cannot be released.
pub open spec fn release_outcome(live: Set<i64>, key: i64) -> Result<Set<i64>, ResourceError> {
    if live.contains(key) {
        Ok(live.remove(key))
    } else {
        Err(ResourceError::InvalidKey)
    }
}

/// Binds `owner_key` for an owner, binds `clone_key` for its clone, then releases both.
pub open spec fn clone_drop_round(live: Set<i64>, owner_key: i64, clone_key: i64) -> Result<
    Set<i64>,
    ResourceError,
> {
    match register_outcome(live, owner_key) {
        Err(e) => Err(e),
        Ok(l1) => match register_outcome(l1, clone_key) {
            Err(e) => Err(e),
            Ok(l2) => match release_outcome(l2, owner_key) {
                Err(e) => Err(e),
                Ok(l3) => release_outcome(l3, clone_key),
            },
        },
    }
}

/// Runs clone-and-drop rounds in order, one per pair of keys.
pub open spec fn clone_drop_rounds(live: Set<i64>, keys: Seq<(i64, i64)>) -> Result<
    Set<i64>,
    ResourceError,
>
    decreases keys.len(),
{
    if keys.len() == 0 {
        Ok(live)
    } else {
        match clone_drop_round(live, keys[0].0, keys[0].1) {
            Err(e) => Err(e),
            Ok(l) => clone_drop_rounds(l, keys.subrange(1, keys.len() as int)),
        }
    }
}

/// The keys of live native resources, each held once, so that each is
/// released exactly once.
pub struct KeyLedger {
    live: Vec<i64>,
}

impl View for KeyLedger {
    type V = Set<i64>;

    closed spec fn view(&self) -> Set<i64> {
        self.live@.to_set()
    }
}

impl KeyLedger {
    pub closed spec fn wf(&self) -> bool {
        self.live@.no_duplicates()
    }

    pub fn new() -> (r: KeyLedger)
        ensures
            r.wf(),
            r@ == Set::<i64>::empty(),
    {
        let r = KeyLedger { live: Vec::new() };
        assert(r.live@.to_set() =~= Set::<i64>::empty());
        r
    }

    fn position(&self, key: i64) -> (r: Option<usize>)
        ensures
            r matches Some(i) ==> i < self.live@.len() && self.live@[i as int] == key,
            r is None ==> !self.live@.contains(key),
    {
        let mut i: usize = 0;
        while i < self.live.len()
            invariant
                i <= self.live@.len(),
                forall|j: int| 0 <= j < i ==> self.live@[j] != key,
            decreases self.live@.len() - i,
        {
            if self.live[i] == key {
                return Some(i);
            }
            i = i + 1;
        }
        None
    }

    /// Whether `key` is held.
    pub fn is_live(&self, key: i64) -> (r: bool)
        ensures
            r == self@.contains(key),
    {
        self.position(key).is_some()
    }

    /// Number of live resources.
    pub fn live_count(&self) -> (r: usize)
        requires
            self.wf(),
        ensures
            r == self@.len(),
    {
        proof {
            self.live@.unique_seq_to_set();
        }
        self.live.len()
    }

    /// Records a key the library handed out. A key at or below `DUPKEY`
    /// reports the library's failure; a key already held would alias
    /// another owner's resource.
    pub fn register(&mut self, key: i64) -> (r: Result<(), ResourceError>)
        requires
            old(self).wf(),
        ensures
            final(self).wf(),
            match register_outcome(old(self)@, key) {
                Ok(l) => r is Ok && final(self)@ == l,
                Err(e) => r == Err::<(), ResourceError>(e) && final(self)@ == old(self)@,
            },
    {
        if key < DUPKEY {
            return Err(ResourceError::InvalidKey);
        }
        if key == DUPKEY || self.position(key).is_some() {
            return Err(ResourceError::DuplicateKey);
        }
        let ghost before = self.live@;
        self.live.push(key);
        proof {
            assert(self.live@.to_set() =~= before.to_set().insert(key)) by {
                assert forall|k: i64| self.live@.contains(k) <==> before.contains(k) || k == key by {
                    if self.live@.contains(k) {
                        let j = choose|j: int| 0 <= j < self.live@.len() && self.live@[j] == k;
                        if j < before.len() {
                            assert(before[j] == k);
                        }
                    }
                    if before.contains(k) {
                        let j = choose|j: int| 0 <= j < before.len() && before[j] == k;
                        assert(self.live@[j] == k);
                    }
                    if k == key {
                        assert(self.live@[before.len() as int] == k);
                    }
                }
            }
        }
        Ok(())
    }

    /// Records that the resource under `key` was released; a key not held
    /// would be a second release.
    pub fn release(&mut self, key: i64) -> (r: Result<(), ResourceError>)
        requires
            old(self).wf(),
        ensures
            final(self).wf(),
            match release_outcome(old(self)@, key) {
                Ok(l) => r is Ok && final(self)@ == l,
                Err(e) => r == Err::<(), ResourceError>(e) && final(self)@ == old(self)@,
            },
    {
        match self.position(key) {
            None => Err(ResourceError::InvalidKey),
            Some(i) => {
                let ghost before = self.live@;
                self.live.remove(i);
                proof {
                    assert(self.live@ =~= before.subrange(0, i as int) + before.subrange(
                        i + 1,
                        before.len() as int,
                    ));
                    assert forall|k: i64| self.live@.contains(k) <==> (before.contains(k) && k != key) by {
                        if self.live@.contains(k) {
                            let j = choose|j: int| 0 <= j < self.live@.len() && self.live@[j] == k;
                            if j < i {
                                assert(before[j] == k);
                            } else {
                                assert(before[j + 1] == k);
                            }
                        }
                        if before.contains(k) && k != key {
                            let j = choose|j: int| 0 <= j < before.len() && before[j] == k;
                            if j < i {
                                assert(self.live@[j] == k);
                            } else {
                                assert(j != i);
                                assert(self.live@[j - 1] == k);
                            }
                        }
                    }
                    assert(self.live@.to_set() =~= before.to_set().remove(key));
                }
                Ok(())
            },
        }
    }
}

/// A key released once cannot be released again.
pub proof fn lemma_no_double_release(live: Set<i64>, key: i64)
    requires
        live.contains(key),
    ensures
        release_outcome(live, key) matches Ok(l) && release_outcome(l, key) == Err::<
            Set<i64>,
            ResourceError,
        >(ResourceError::InvalidKey),
{
}

/// Cloning an owner under a fresh key and dropping both leaves the live keys,
/// and so their count, as they were.
pub proof fn lemma_clone_drop_restores(live: Set<i64>, owner_key: i64, clone_key: i64)
    requires
        owner_key > DUPKEY,
        clone_key > DUPKEY,
        owner_key != clone_key,
        !live.contains(owner_key),
        !live.contains(clone_key),
    ensures
        clone_drop_round(live, owner_key, clone_key) == Ok::<Set<i64>, ResourceError>(live),
{
    assert(live.insert(owner_key).insert(clone_key).remove(owner_key).remove(clone_key) =~= live);
}

/// Any number of clone-and-drop rounds on fresh keys returns the ledger to
/// its baseline.
pub proof fn lemma_clone_drop_rounds_restore(live: Set<i64>, keys: Seq<(i64, i64)>)
    requires
        forall|i: int|
            0 <= i < keys.len() ==> {
                &&& (#[trigger] keys[i]).0 > DUPKEY
                &&& keys[i].1 > DUPKEY
                &&& keys[i].0 != keys[i].1
                &&& !live.contains(keys[i].0)
                &&& !live.contains(keys[i].1)
            },
    ensures
        clone_drop_rounds(live, keys) == Ok::<Set<i64>, ResourceError>(live),
    decreases keys.len(),
{
    if keys.len() > 0 {
        lemma_clone_drop_restores(live, keys[0].0, keys[0].1);
        let rest = keys.subrange(1, keys.len() as int);
        assert forall|i: int| 0 <= i < rest.len() implies {
            &&& (#[trigger] rest[i]).0 > DUPKEY
            &&& rest[i].1 > DUPKEY
            &&& rest[i].0 != rest[i].1
            &&& !live.contains(rest[i].0)
            &&& !live.contains(rest[i].1)
        } by {
            assert(rest[i] == keys[i + 1]);
        }
        lemma_clone_drop_rounds_restore(live, rest);
    }
}

} // verus!
