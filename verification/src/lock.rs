//! A single-slot mutual-exclusion guard keyed by a task name, used to keep
//! two monitoring ticks from ever running at once.

use vstd::prelude::*;

use crate::ids::bytes_eq;

verus! {

/// Witness that a key is held. The holder hands it back to
/// [`ProcessExecutionLock::unlock`] when done; the driver around the
/// monitoring tick releases it on every exit path.
pub struct ProcessExecutionLockGuard {
    key: Vec<u8>,
}

impl ProcessExecutionLockGuard {
    /// The key this guard holds.
    pub closed spec fn key(&self) -> Seq<u8> {
        self.key@
    }
}

/// What a lock attempt does: an already-held key is refused and nothing
/// changes; otherwise the key is recorded.
pub open spec fn lock_post(
    pre: Set<Seq<u8>>,
    post: Set<Seq<u8>>,
    key: Seq<u8>,
    acquired: bool,
) -> bool {
    if pre.contains(key) {
        !acquired && post == pre
    } else {
        acquired && post == pre.insert(key)
    }
}

/// The keys of the processes that are currently executing.
pub struct ProcessExecutionLock {
    locks: Vec<Vec<u8>>,
}

impl ProcessExecutionLock {
    /// The set of keys currently held.
    pub closed spec fn held(&self) -> Set<Seq<u8>> {
        Set::new(|k: Seq<u8>| exists|i: int| 0 <= i < self.locks@.len() && self.locks@[i]@ == k)
    }

    /// Structural invariant: no key is recorded twice.
    pub closed spec fn well_formed(&self) -> bool {
        forall|i: int, j: int|
            0 <= i < j < self.locks@.len() ==> self.locks@[i]@ != self.locks@[j]@
    }

    /// Constructs a lock with no key held.
    pub fn new() -> (r: Self)
        ensures
            r.well_formed(),
            r.held() == Set::<Seq<u8>>::empty(),
    {
        let r = Self { locks: Vec::new() };
        proof {
            assert(r.held() =~= Set::<Seq<u8>>::empty());
        }
        r
    }

    /// Returns the position of the given key, if it is held.
    fn index_of(&self, key: &Vec<u8>) -> (r: Option<usize>)
        ensures
            match r {
                Some(i) => i < self.locks@.len() && self.locks@[i as int]@ == key@,
                None => !self.held().contains(key@),
            },
    {
        let mut i: usize = 0;
        while i < self.locks.len()
            invariant
                i <= self.locks@.len(),
                forall|j: int| 0 <= j < i ==> self.locks@[j]@ != key@,
            decreases self.locks@.len() - i,
        {
            if bytes_eq(&self.locks[i], key) {
                return Some(i);
            }
            i += 1;
        }
        None
    }

    /// Returns whether the given key is currently held.
    pub fn is_held(&self, key: &Vec<u8>) -> (r: bool)
        ensures
            r == self.held().contains(key@),
    {
        match self.index_of(key) {
            Some(_) => true,
            None => false,
        }
    }

    /// Tries to hold the given key: refused if a guard for it already exists,
    /// otherwise the key is recorded and a guard for it is handed out.
    pub fn lock(&mut self, key: Vec<u8>) -> (r: Option<ProcessExecutionLockGuard>)
        requires
            old(self).well_formed(),
        ensures
            final(self).well_formed(),
            lock_post(old(self).held(), final(self).held(), key@, r is Some),
            r is Some ==> r->0.key() == key@,
    {
        if self.is_held(&key) {
            return None;
        }
        let guard_key = crate::ids::clone_bytes(&key);
        self.locks.push(key);
        proof {
            let pre = old(self).locks@;
            let post = self.locks@;
            assert forall|k: Seq<u8>| self.held().contains(k) implies old(self).held().insert(
                guard_key@,
            ).contains(k) by {
                let j = choose|j: int| 0 <= j < post.len() && post[j]@ == k;
                if j < pre.len() {
                    assert(pre[j]@ == k);
                } else {
                    assert(k == guard_key@);
                }
            };
            assert forall|k: Seq<u8>|
                old(self).held().insert(guard_key@).contains(k) implies self.held().contains(
                k,
            ) by {
                if k == guard_key@ {
                    assert(post[pre.len() as int]@ == k);
                } else {
                    let j = choose|j: int| 0 <= j < pre.len() && pre[j]@ == k;
                    assert(post[j]@ == k);
                }
            };
            assert(self.held() =~= old(self).held().insert(guard_key@));
            assert forall|a: int, b: int| 0 <= a < b < post.len() implies post[a]@ != post[b]@ by {
                if b == pre.len() {
                    assert(post[a]@ == pre[a]@);
                    if pre[a]@ == guard_key@ {
                        assert(old(self).held().contains(guard_key@));
                    }
                }
            };
        }
        Some(ProcessExecutionLockGuard { key: guard_key })
    }

    /// Releases the key a guard holds.
    pub fn unlock(&mut self, guard: ProcessExecutionLockGuard)
        requires
            old(self).well_formed(),
        ensures
            final(self).well_formed(),
            final(self).held() == old(self).held().remove(guard.key()),
    {
        let found = self.index_of(&guard.key);
        match found {
            Some(i) => {
                self.locks.remove(i);
                proof {
                    let pre = old(self).locks@;
                    let post = self.locks@;
                    assert forall|k: Seq<u8>| self.held().contains(k) implies old(self).held()
                        .remove(guard.key()).contains(k) by {
                        let j = choose|j: int| 0 <= j < post.len() && post[j]@ == k;
                        let jo: int = if j < i { j } else { j + 1 };
                        assert(pre[jo]@ == k);
                        assert(jo != i);
                        assert(k != guard.key());
                    };
                    assert forall|k: Seq<u8>|
                        old(self).held().remove(guard.key()).contains(k) implies self.held()
                        .contains(k) by {
                        let jo = choose|jo: int| 0 <= jo < pre.len() && pre[jo]@ == k;
                        assert(jo != i);
                        let j: int = if jo < i { jo } else { jo - 1 };
                        assert(post[j]@ == k);
                    };
                    assert(self.held() =~= old(self).held().remove(guard.key()));
                    assert forall|a: int, b: int|
                        0 <= a < b < post.len() implies post[a]@ != post[b]@ by {
                        let ao: int = if a < i { a } else { a + 1 };
                        let bo: int = if b < i { b } else { b + 1 };
                        assert(post[a]@ == pre[ao]@ && post[b]@ == pre[bo]@);
                    };
                }
            },
            None => {
                proof {
                    assert(self.held() =~= old(self).held().remove(guard.key()));
                }
            },
        }
    }
}

/// Two ticks never run at once: while one successful acquisition of a key is
/// outstanding, a second attempt on the same key fails.
pub proof fn lemma_lock_mutual_exclusion(
    s0: Set<Seq<u8>>,
    s1: Set<Seq<u8>>,
    s2: Set<Seq<u8>>,
    key: Seq<u8>,
    first_acquired: bool,
    second_acquired: bool,
)
    requires
        lock_post(s0, s1, key, first_acquired),
        first_acquired,
        lock_post(s1, s2, key, second_acquired),
    ensures
        !second_acquired,
{
}

} // verus!
