//! References dropped while not attached.
//!
//! A reference dropped by a thread that is not attached cannot be released there. Its decref is
//! queued and applied on a later attach. There is one queue, a pool, per interpreter: each
//! deferred decref goes to its owner's pool, and a pool is drained only by an attach to its own
//! interpreter, or emptied by that interpreter's teardown. The owner has to be known when the
//! object is queued; later it can no longer be recovered.

use crate::config::{BuildConfig, PoolMode};
use crate::internal::home::ForeignTarget;
use crate::internal::state::{thread_is_attached, AttachCount};
use crate::marker::Interpreter;
use crate::table::Table;
use vstd::prelude::*;

verus! {

/// Which pool a deferred decref belongs to: an interpreter's address, or [`MAIN_POOL`].
pub type PoolKey = usize;

/// The main interpreter's pool. A constant rather than its address: a thread with no thread
/// state learns "main" without ever seeing the address.
pub const MAIN_POOL: PoolKey = 1;

/// The pool of an interpreter.
pub open spec fn key_of(interp: Interpreter) -> PoolKey {
    if interp.id == 0 {
        MAIN_POOL
    } else {
        interp.addr
    }
}

/// The pool of an interpreter.
pub fn pool_key(interp: Interpreter) -> (r: PoolKey)
    ensures
        r == key_of(interp),
{
    if interp.id == 0 {
        MAIN_POOL
    } else {
        interp.addr
    }
}

/// The objects that were dec_ref'd while not attached, for one interpreter.
pub struct ReferencePool {
    /// Whether any decrefs are pending.
    dirty: bool,
    pending_decrefs: Vec<usize>,
}

impl ReferencePool {
    /// Whether the pool's flag says that decrefs are pending.
    pub closed spec fn is_dirty(&self) -> bool {
        self.dirty
    }

    /// The pending decrefs, oldest first.
    pub closed spec fn pending(&self) -> Seq<usize> {
        self.pending_decrefs@
    }

    /// A pool is dirty exactly while it has something pending.
    pub open spec fn wf(&self) -> bool {
        self.is_dirty() <==> self.pending().len() > 0
    }

    /// A pool with nothing pending.
    pub fn new() -> (r: Self)
        ensures
            r.wf(),
            !r.is_dirty(),
            r.pending() == Seq::<usize>::empty(),
    {
        ReferencePool { dirty: false, pending_decrefs: Vec::new() }
    }

    /// Whether a decref of this object is pending.
    pub fn contains(&self, obj: usize) -> (r: bool)
        ensures
            r == self.pending().contains(obj),
    {
        let mut i: usize = 0;
        while i < self.pending_decrefs.len()
            invariant
                i <= self.pending_decrefs@.len(),
                forall|k: int| 0 <= k < i ==> self.pending_decrefs@[k] != obj,
            decreases self.pending_decrefs@.len() - i,
        {
            if self.pending_decrefs[i] == obj {
                return true;
            }
            i = i + 1;
        }
        false
    }

    /// Queues a decref. `dirty_pools` is the number of pools whose flag is set.
    pub fn register_decref(&mut self, dirty_pools: &mut usize, obj: usize)
        requires
            !old(self).is_dirty() ==> *old(dirty_pools) < usize::MAX,
        ensures
            final(self).is_dirty(),
            final(self).pending() == old(self).pending().push(obj),
            *final(dirty_pools) == *old(dirty_pools) + if old(self).is_dirty() {
                0int
            } else {
                1
            },
    {
        self.pending_decrefs.push(obj);
        if !self.dirty {
            self.dirty = true;
            *dirty_pools = *dirty_pools + 1;
        }
    }

    /// Takes what is pending, for the caller to apply once the pools are no longer locked: a
    /// decref can run arbitrary code, which may come back here.
    pub fn drop_deferred_references(&mut self, dirty_pools: &mut usize) -> (r: Vec<usize>)
        requires
            old(self).is_dirty() ==> *old(dirty_pools) > 0,
        ensures
            old(self).is_dirty() ==> {
                &&& r@ == old(self).pending()
                &&& !final(self).is_dirty()
                &&& final(self).pending() == Seq::<usize>::empty()
                &&& *final(dirty_pools) == *old(dirty_pools) - 1
            },
            !old(self).is_dirty() ==> {
                &&& r@ == Seq::<usize>::empty()
                &&& *final(self) == *old(self)
                &&& *final(dirty_pools) == *old(dirty_pools)
            },
    {
        if !self.dirty {
            return Vec::new();
        }
        self.drop_deferred_references_slow(dirty_pools)
    }

    fn drop_deferred_references_slow(&mut self, dirty_pools: &mut usize) -> (r: Vec<usize>)
        requires
            old(self).is_dirty() ==> *old(dirty_pools) > 0,
        ensures
            old(self).is_dirty() ==> {
                &&& r@ == old(self).pending()
                &&& !final(self).is_dirty()
                &&& final(self).pending() == Seq::<usize>::empty()
                &&& *final(dirty_pools) == *old(dirty_pools) - 1
            },
            !old(self).is_dirty() ==> {
                &&& r@ == Seq::<usize>::empty()
                &&& *final(self) == *old(self)
                &&& *final(dirty_pools) == *old(dirty_pools)
            },
    {
        if !self.dirty {
            // Another thread is already dropping the references.
            return Vec::new();
        }
        self.dirty = false;
        *dirty_pools = *dirty_pools - 1;
        let mut decrefs: Vec<usize> = Vec::new();
        if self.pending_decrefs.len() == 0 {
            return decrefs;
        }
        std::mem::swap(&mut decrefs, &mut self.pending_decrefs);
        decrefs
    }
}

/// The interpreters for which decrefs are pending.
pub open spec fn busy(queues: Map<PoolKey, Seq<usize>>) -> Set<PoolKey> {
    Set::new(|key: PoolKey| queues.dom().contains(key) && queues[key].len() > 0)
}

proof fn lemma_busy(queues: Map<PoolKey, Seq<usize>>)
    requires
        queues.dom().finite(),
    ensures
        busy(queues).finite(),
        busy(queues).len() <= queues.dom().len(),
{
    vstd::set_lib::lemma_len_subset(busy(queues), queues.dom());
}

/// A queue changes, or comes to be: it is counted while it is not empty.
proof fn lemma_busy_insert(queues: Map<PoolKey, Seq<usize>>, key: PoolKey, queue: Seq<usize>)
    requires
        queues.dom().finite(),
    ensures
        busy(queues.insert(key, queue)).len() == busy(queues).len() + (if queue.len() > 0 {
            1int
        } else {
            0
        }) - (if busy(queues).contains(key) {
            1int
        } else {
            0
        }),
{
    lemma_busy(queues);
    if queue.len() > 0 {
        assert(busy(queues.insert(key, queue)) =~= busy(queues).insert(key));
    } else {
        assert(busy(queues.insert(key, queue)) =~= busy(queues).remove(key));
    }
}

proof fn lemma_busy_remove(queues: Map<PoolKey, Seq<usize>>, key: PoolKey)
    requires
        queues.dom().finite(),
    ensures
        busy(queues.remove(key)).len() == busy(queues).len() - (if busy(queues).contains(key) {
            1int
        } else {
            0
        }),
{
    lemma_busy(queues);
    assert(busy(queues.remove(key)) =~= busy(queues).remove(key));
}

/// The pools of all interpreters.
pub struct Pools {
    pools: Table<ReferencePool>,
    /// Number of pools whose dirty flag is set. Zero is the common case.
    dirty_pools: usize,
    /// Bumped when a pool is removed, which invalidates every thread's cached pool.
    generation: u64,
}

/// A thread's note of the pool that it drained last.
#[derive(Clone, Copy)]
pub struct PoolCache {
    key: PoolKey,
    generation: u64,
    at: usize,
    noted: bool,
}

impl PoolCache {
    /// The cache of a thread that has drained nothing yet.
    pub fn new() -> (r: Self)
        ensures
            forall|pools: Pools| #[trigger] r.sound(pools),
    {
        PoolCache { key: 0, generation: 0, at: 0, noted: false }
    }

    /// What the cache says is so: where its generation is current, the pool of its key is the
    /// one that it notes.
    pub closed spec fn sound(self, pools: Pools) -> bool {
        &&& self.generation <= pools.generation
        &&& self.noted && self.generation == pools.generation ==> pools.pool_at(
            self.key,
            self.at as int,
        )
    }
}

impl Pools {
    /// What each pool has pending, oldest first.
    pub closed spec fn view(&self) -> Map<PoolKey, Seq<usize>> {
        self.pools@.map_values(|pool: ReferencePool| pool.pending())
    }

    /// What is pending for one interpreter; nothing where it has no pool.
    pub open spec fn queue(&self, key: PoolKey) -> Seq<usize> {
        if self@.dom().contains(key) {
            self@[key]
        } else {
            Seq::empty()
        }
    }

    /// How many pools are dirty: those that have anything pending.
    pub open spec fn dirty_pools(&self) -> nat {
        busy(self@).len()
    }

    /// The pool of `key` is the one at `at`.
    pub closed spec fn pool_at(&self, key: PoolKey, at: int) -> bool {
        self.pools.lies_at(key, at)
    }

    /// The generation of the threads' caches.
    pub closed spec fn generation(&self) -> u64 {
        self.generation
    }

    /// One pool per key, dirty exactly while it has something pending, and the dirty ones are
    /// counted.
    pub closed spec fn wf(&self) -> bool {
        &&& self.pools.wf()
        &&& forall|key: PoolKey| #[trigger]
            self.pools@.dom().contains(key) ==> self.pools@[key].wf()
        &&& self.dirty_pools == busy(self@).len()
    }

    /// Every cache that was sound stays so, whichever thread it is of. The generation is counted
    /// in 64 bits; the clause leaves out the step at which it would start over.
    pub open spec fn keeps_caches_sound(self, next: Self) -> bool {
        self.generation() < u64::MAX ==> forall|cache: PoolCache| #[trigger]
            cache.sound(self) ==> cache.sound(next)
    }

    /// One place holds the pool of one key, and a key has its pool in one place.
    pub proof fn a_pool_has_a_place_of_its_own(&self, a: PoolKey, at_a: int, b: PoolKey, at_b: int)
        requires
            self.wf(),
            self.pool_at(a, at_a),
            self.pool_at(b, at_b),
        ensures
            at_a == at_b <==> a == b,
            self@.dom().contains(a),
    {
        self.pools.lemma_lies_at(a, at_a);
    }

    /// There are only so many pools, so that their number can be counted.
    proof fn lemma_bound(&self, key: PoolKey)
        requires
            self.wf(),
            self@.dom().contains(key),
        ensures
            self@.dom().finite(),
            self.pools@[key].is_dirty() <==> busy(self@).contains(key),
            self.pools@[key].is_dirty() ==> self.dirty_pools > 0,
            !self.pools@[key].is_dirty() ==> self.dirty_pools < usize::MAX,
    {
        self.pools.lemma_len();
        assert(self@.dom() =~= self.pools@.dom());
        assert(self.pools@[key].wf());
        lemma_busy(self@);
        if self.pools@[key].is_dirty() {
            assert(busy(self@).contains(key));
            assert(busy(self@).len() > 0) by {
                if busy(self@).len() == 0 {
                    assert(busy(self@) =~= Set::<PoolKey>::empty());
                }
            }
        } else {
            lemma_busy_insert(self@, key, seq![0usize]);
            let more = self@.insert(key, seq![0usize]);
            assert(more.dom() =~= self@.dom());
            lemma_busy(more);
        }
    }

    /// No pool is dirty exactly where nothing is pending for any interpreter.
    pub proof fn no_pool_is_dirty_where_nothing_is_pending(&self)
        requires
            self.wf(),
        ensures
            self.dirty_pools() == 0 <==> forall|key: PoolKey| #[trigger]
                self.queue(key).len() == 0,
    {
        if self.dirty_pools() == 0 {
            assert forall|key: PoolKey| #[trigger] self.queue(key).len() == 0 by {
                self.lemma_clean(key);
            }
        } else if forall|key: PoolKey| #[trigger] self.queue(key).len() == 0 {
            assert forall|key: PoolKey| !busy(self@).contains(key) by {
                assert(self.queue(key).len() == 0);
            }
            assert(busy(self@) =~= Set::<PoolKey>::empty());
        }
    }

    /// Where no pool is dirty, nothing is pending.
    proof fn lemma_clean(&self, key: PoolKey)
        requires
            self.wf(),
            self.dirty_pools() == 0,
        ensures
            self.queue(key) == Seq::<usize>::empty(),
    {
        if self@.dom().contains(key) {
            self.lemma_bound(key);
            assert(self.pools@[key].wf());
            assert(self.queue(key) =~= Seq::<usize>::empty());
        }
    }

    /// No pools.
    pub fn new() -> (r: Self)
        ensures
            r.wf(),
            r@ == Map::<PoolKey, Seq<usize>>::empty(),
            r.dirty_pools() == 0,
            r.generation() == 0,
    {
        let r = Pools { pools: Table::new(), dirty_pools: 0, generation: 0 };
        assert(r@ =~= Map::<PoolKey, Seq<usize>>::empty());
        assert(busy(r@) =~= Set::<PoolKey>::empty());
        r
    }

    /// Where the pool for `key` lies, created on first use. The pools that there are stay where
    /// they lie.
    pub fn pool_for(&mut self, key: PoolKey) -> (r: usize)
        requires
            old(self).wf(),
        ensures
            final(self).wf(),
            final(self).pool_at(key, r as int),
            forall|other: PoolKey, at: int| #[trigger]
                old(self).pool_at(other, at) ==> final(self).pool_at(other, at),
            final(self)@ == old(self)@.insert(key, old(self).queue(key)),
            final(self).dirty_pools() == old(self).dirty_pools(),
            final(self).generation() == old(self).generation(),
            forall|cache: PoolCache| #[trigger]
                cache.sound(*old(self)) ==> cache.sound(*final(self)),
    {
        if let Some(at) = self.pools.find(key) {
            assert(self@ =~= self@.insert(key, self.queue(key)));
            return at;
        }
        let ghost before = *self;
        let at: usize = self.pools.push(key, ReferencePool::new());
        proof {
            assert(self@ =~= before@.insert(key, Seq::empty()));
            assert(before.queue(key) =~= Seq::<usize>::empty());
            assert(busy(self@) =~= busy(before@));
        }
        at
    }

    /// The pool for `key`, created on first use.
    pub fn get_pool<'a>(&'a mut self, key: PoolKey) -> (r: &'a ReferencePool)
        requires
            old(self).wf(),
        ensures
            r.wf(),
            r.pending() == old(self).queue(key),
            final(self).wf(),
            final(self)@ == old(self)@.insert(key, old(self).queue(key)),
            final(self).dirty_pools() == old(self).dirty_pools(),
            final(self).generation() == old(self).generation(),
            old(self).keeps_caches_sound(*final(self)),
    {
        let at: usize = self.pool_for(key);
        proof {
            self.pools.lemma_lies_at(key, at as int);
            assert(self@[key] == self.pools@[key].pending());
        }
        self.pools.get(key, at)
    }

    /// Queues a decref for the interpreter with this key.
    fn queue_decref(&mut self, key: PoolKey, obj: usize)
        requires
            old(self).wf(),
        ensures
            final(self).wf(),
            final(self)@ == old(self)@.insert(key, old(self).queue(key).push(obj)),
            final(self).dirty_pools() == old(self).dirty_pools() + if old(self).queue(key).len()
                == 0 {
                1int
            } else {
                0
            },
            final(self).generation() == old(self).generation(),
            forall|cache: PoolCache| #[trigger]
                cache.sound(*old(self)) ==> cache.sound(*final(self)),
    {
        let ghost before = *self;
        let at: usize = self.pool_for(key);
        let ghost found = *self;
        proof {
            found.pools.lemma_lies_at(key, at as int);
            found.lemma_bound(key);
        }
        self.pools.get_mut(key, at).register_decref(&mut self.dirty_pools, obj);
        proof {
            assert(self@ =~= found@.insert(key, found.queue(key).push(obj)));
            assert(self@ =~= before@.insert(key, before.queue(key).push(obj)));
            lemma_busy_insert(found@, key, found.queue(key).push(obj));
            assert forall|cache: PoolCache| #[trigger] cache.sound(before) implies cache.sound(
                *self,
            ) by {
                assert(cache.sound(found));
            }
        }
    }

    /// Drains the pool of the interpreter that this thread just attached to: what it returns is
    /// for the caller to decref, once the pools are no longer locked.
    pub fn drop_deferred_references(&mut self, cache: &mut PoolCache, interp: Interpreter) -> (r:
        Vec<usize>)
        requires
            old(self).wf(),
            old(cache).sound(*old(self)),
        ensures
            r@ == old(self).queue(key_of(interp)),
            final(self).wf(),
            final(self)@ == if old(self).dirty_pools() == 0 {
                old(self)@
            } else {
                old(self)@.insert(key_of(interp), Seq::empty())
            },
            final(self).queue(key_of(interp)) == Seq::<usize>::empty(),
            final(self).dirty_pools() == old(self).dirty_pools() - if old(self).queue(
                key_of(interp),
            ).len() > 0 {
                1int
            } else {
                0
            },
            final(self).generation() == old(self).generation(),
            final(cache).sound(*final(self)),
            old(self).keeps_caches_sound(*final(self)),
    {
        if self.dirty_pools != 0 {
            self.drop_deferred_references_slow(cache, interp)
        } else {
            proof {
                self.lemma_clean(key_of(interp));
            }
            Vec::new()
        }
    }

    fn drop_deferred_references_slow(&mut self, cache: &mut PoolCache, interp: Interpreter) -> (r:
        Vec<usize>)
        requires
            old(self).wf(),
            old(cache).sound(*old(self)),
        ensures
            r@ == old(self).queue(key_of(interp)),
            final(self).wf(),
            final(self)@ == old(self)@.insert(key_of(interp), Seq::empty()),
            final(self).dirty_pools() == old(self).dirty_pools() - if old(self).queue(
                key_of(interp),
            ).len() > 0 {
                1int
            } else {
                0
            },
            final(self).generation() == old(self).generation(),
            final(cache).sound(*final(self)),
            old(self).keeps_caches_sound(*final(self)),
    {
        let key: PoolKey = pool_key(interp);
        if cache.noted && cache.key == key && cache.generation == self.generation {
            return self.drain_at(cache.at, key);
        }
        let ghost before = *self;
        // Created if absent, so that "this interpreter has nothing queued" is noted too.
        let at: usize = self.pool_for(key);
        let ghost found = *self;
        *cache = PoolCache { key, generation: self.generation, at, noted: true };
        assert(cache.sound(found));
        let decrefs = self.drain_at(at, key);
        proof {
            assert(self@ =~= before@.insert(key, Seq::empty()));
            assert forall|other: PoolCache| #[trigger] other.sound(before) implies other.sound(
                *self,
            ) by {
                assert(other.sound(found));
            }
        }
        decrefs
    }

    /// Drains the pool at `at`.
    fn drain_at(&mut self, at: usize, key: PoolKey) -> (r: Vec<usize>)
        requires
            old(self).wf(),
            old(self).pool_at(key, at as int),
        ensures
            r@ == old(self).queue(key),
            final(self).wf(),
            final(self)@ == old(self)@.insert(key, Seq::empty()),
            final(self).dirty_pools() == old(self).dirty_pools() - if old(self).queue(key).len()
                > 0 {
                1int
            } else {
                0
            },
            final(self).generation() == old(self).generation(),
            forall|cache: PoolCache| #[trigger]
                cache.sound(*old(self)) ==> cache.sound(*final(self)),
    {
        let ghost before = *self;
        proof {
            before.pools.lemma_lies_at(key, at as int);
            before.lemma_bound(key);
            assert(before.pools@[key].wf());
        }
        let decrefs = self.pools.get_mut(key, at).drop_deferred_references(&mut self.dirty_pools);
        proof {
            assert(self.pools@[key].pending() =~= Seq::<usize>::empty());
            assert(decrefs@ =~= before.queue(key));
            assert(self@ =~= before@.insert(key, Seq::empty()));
            lemma_busy_insert(before@, key, Seq::empty());
        }
        decrefs
    }

    /// One round of the teardown of an interpreter: removes its pool and takes the decrefs still
    /// queued in it, for the caller to apply. The caller comes back until there is no pool: a
    /// decref can run a destructor that drops another reference of this interpreter.
    pub fn drain_pool_on_teardown(&mut self, interp: Interpreter) -> (r: Option<Vec<usize>>)
        requires
            old(self).wf(),
        ensures
            final(self).wf(),
            r is Some <==> old(self)@.dom().contains(key_of(interp)),
            r matches Some(decrefs) ==> {
                &&& decrefs@ == old(self)@[key_of(interp)]
                &&& final(self)@ == old(self)@.remove(key_of(interp))
                &&& final(self).dirty_pools() == old(self).dirty_pools() - if decrefs@.len() > 0 {
                    1int
                } else {
                    0
                }
                &&& final(self).generation() == old(self).generation().wrapping_add(1)
            },
            r is None ==> *final(self) == *old(self),
            r matches Some(decrefs) ==> torn_out(*old(self), *final(self), interp, decrefs@),
            !final(self)@.dom().contains(key_of(interp)),
            old(self).keeps_caches_sound(*final(self)),
    {
        let key: PoolKey = pool_key(interp);
        match self.pools.find(key) {
            None => None,
            Some(at) => {
                let ghost before = *self;
                proof {
                    before.pools.lemma_lies_at(key, at as int);
                    before.lemma_bound(key);
                    assert(before.pools@[key].wf());
                }
                let mut pool = self.pools.remove(key, at);
                self.generation = self.generation.wrapping_add(1);
                proof {
                    assert(self@ =~= before@.remove(key));
                    lemma_busy_remove(before@, key);
                }
                if pool.dirty {
                    pool.dirty = false;
                    self.dirty_pools = self.dirty_pools - 1;
                }
                Some(pool.pending_decrefs)
            },
        }
    }
}

pub const UNKNOWN_OWNER: &'static str =
    "a Py<T> was dropped on a thread that has no Python thread state (e.g. a rayon, tokio or std::thread worker), and this extension is loaded by more than one interpreter (or its interpreter is gone), so PyO3 cannot tell which interpreter owns the object. Decref'ing it in the wrong interpreter would corrupt memory. Drop it while attached, e.g. inside pyo3::sync::InterpreterHandle::attach, or give each interpreter its own copy of the extension";

pub const UNKNOWN_OWNER_LEAKED: &'static str =
    "a Py<T> was dropped on a thread that has no Python thread state (e.g. a rayon, tokio or std::thread worker), and this extension is loaded by more than one interpreter (or its interpreter is gone), so PyO3 cannot tell which interpreter owns the object. Decref'ing it in the wrong interpreter would corrupt memory. Drop it while attached, e.g. inside pyo3::sync::InterpreterHandle::attach, or give each interpreter its own copy of the extension (this thread is already panicking, so the object is leaked)";

pub const DROPPED_WITHOUT_POOL: &'static str =
    "Cannot drop pointer into Python heap without the thread being attached.";

/// What becomes of a dropped reference.
#[derive(Clone, Copy, Debug, PartialEq, Eq)]
pub enum DropAction {
    /// The thread is attached: the caller decrefs the object now.
    Decref,
    /// The decref is queued.
    Queued,
    /// The object is leaked, and the caller prints why.
    LeakLoudly(&'static str),
    /// The object is leaked.
    Leak,
    /// The caller panics with this message.
    Panic(&'static str),
    /// The caller panics with this message, in a way that ends the process.
    Abort(&'static str),
}

/// The interpreter that owns an object dropped right now by a thread that is not attached.
///
/// A thread that has a thread state owns it for that state's interpreter. One that has none
/// owns it for the extension copy's home interpreter. Otherwise the owner is unknown.
pub open spec fn owner(
    config: BuildConfig,
    thread: Option<Interpreter>,
    target: ForeignTarget,
    home_id: i64,
) -> Option<PoolKey> {
    if thread is Some && (!config.limited_api || config.py_minor >= 10) {
        Some(key_of(thread->0))
    } else {
        match target {
            ForeignTarget::Gilstate => Some(MAIN_POOL),
            ForeignTarget::Home(interp) => Some(key_of(Interpreter { addr: interp, id: home_id })),
            ForeignTarget::Ambiguous | ForeignTarget::HomeGone => None,
        }
    }
}

/// The interpreter that owns an object dropped right now, while not attached. `thread` is the
/// interpreter of the thread's GILState thread state, `target` the foreign target of the
/// extension copy, and `home_id` the id of the home where that is the target.
pub fn owner_now(
    config: &BuildConfig,
    thread: Option<Interpreter>,
    target: ForeignTarget,
    home_id: i64,
) -> (r: Option<PoolKey>)
    ensures
        r == owner(*config, thread, target, home_id),
{
    // The limited API of Python 3.9 cannot ask for a thread state's interpreter.
    if !config.limited_api || config.py_minor >= 10 {
        if let Some(interp) = thread {
            return Some(pool_key(interp));
        }
    }
    match target {
        ForeignTarget::Gilstate => Some(MAIN_POOL),
        ForeignTarget::Home(interp) => Some(pool_key(Interpreter { addr: interp, id: home_id })),
        ForeignTarget::Ambiguous | ForeignTarget::HomeGone => None,
    }
}

/// What becomes of an object whose owner is unknown. A decref in the wrong interpreter corrupts
/// memory, and a silent leak hides the bug, so this fails loudly; except while the thread is
/// already panicking, because a second panic would abort the process.
pub fn unknown_owner(panicking: bool) -> (r: DropAction)
    ensures
        panicking ==> (r matches DropAction::LeakLoudly(message) && message@
            == UNKNOWN_OWNER_LEAKED@),
        !panicking ==> (r matches DropAction::Panic(message) && message@ == UNKNOWN_OWNER@),
        reported(r, panicking),
{
    if panicking {
        DropAction::LeakLoudly(UNKNOWN_OWNER_LEAKED)
    } else {
        DropAction::Panic(UNKNOWN_OWNER)
    }
}

impl Pools {
    /// Queues a decref for an object dropped while not attached.
    pub fn defer_decref(&mut self, owner: Option<PoolKey>, obj: usize, panicking: bool) -> (r:
        DropAction)
        requires
            old(self).wf(),
        ensures
            final(self).wf(),
            final(self).generation() == old(self).generation(),
            old(self).keeps_caches_sound(*final(self)),
            owner matches Some(key) ==> deferred(*old(self), *final(self), key, obj),
            owner is None ==> reported(r, panicking),
            match owner {
                Some(key) => {
                    &&& r == DropAction::Queued
                    &&& final(self)@ == old(self)@.insert(key, old(self).queue(key).push(obj))
                    &&& final(self).dirty_pools() == old(self).dirty_pools() + if old(self).queue(
                        key,
                    ).len() == 0 {
                        1int
                    } else {
                        0
                    }
                },
                None => {
                    &&& *final(self) == *old(self)
                    &&& panicking ==> (r matches DropAction::LeakLoudly(message) && message@
                        == UNKNOWN_OWNER_LEAKED@)
                    &&& !panicking ==> (r matches DropAction::Panic(message) && message@
                        == UNKNOWN_OWNER@)
                },
            },
    {
        match owner {
            Some(key) => {
                self.queue_decref(key, obj);
                DropAction::Queued
            },
            None => unknown_owner(panicking),
        }
    }
}

/// The decref of `obj` was queued for the interpreter with this key, behind what was queued for
/// it before, and nothing else changed.
pub open spec fn deferred(before: Pools, after: Pools, key: PoolKey, obj: usize) -> bool {
    after@ == before@.insert(key, before.queue(key).push(obj))
}

/// The interpreter lost its pool, and `applied` is what was queued in it.
pub open spec fn torn_out(
    before: Pools,
    after: Pools,
    interp: Interpreter,
    applied: Seq<usize>,
) -> bool {
    &&& after@ == before@.remove(key_of(interp))
    &&& applied == before.queue(key_of(interp))
}

/// A drop whose owner is unknown is reported.
pub open spec fn reported(r: DropAction, panicking: bool) -> bool {
    if panicking {
        r matches DropAction::LeakLoudly(message) && message@ == UNKNOWN_OWNER_LEAKED@
    } else {
        r matches DropAction::Panic(message) && message@ == UNKNOWN_OWNER@
    }
}

/// What a drop of a reference does: `r` is what becomes of it, and `after` are the pools then.
pub open spec fn dropped(
    config: BuildConfig,
    count: AttachCount,
    before: Pools,
    after: Pools,
    owner: Option<PoolKey>,
    obj: usize,
    panicking: bool,
    r: DropAction,
) -> bool {
    if count.attached() {
        r == DropAction::Decref && after == before
    } else {
        match config.pool {
            PoolMode::Enabled => match owner {
                Some(key) => {
                    &&& r == DropAction::Queued
                    &&& deferred(before, after, key, obj)
                },
                None => after == before && reported(r, panicking),
            },
            PoolMode::Disabled => {
                &&& r matches DropAction::Abort(message)
                &&& message@ == DROPPED_WITHOUT_POOL@
                &&& after == before
            },
            PoolMode::LeakOnDrop => r == DropAction::Leak && after == before,
        }
    }
}

/// Releases an owned reference. If the thread is attached, the reference count is decreased
/// immediately; otherwise the decref is queued for the owner, to be applied the next time a
/// thread attaches to that interpreter.
pub fn register_decref(
    config: &BuildConfig,
    count: &AttachCount,
    pools: &mut Pools,
    owner: Option<PoolKey>,
    obj: usize,
    panicking: bool,
) -> (r: DropAction)
    requires
        old(pools).wf(),
    ensures
        final(pools).wf(),
        final(pools).generation() == old(pools).generation(),
        old(pools).keeps_caches_sound(*final(pools)),
        dropped(*config, *count, *old(pools), *final(pools), owner, obj, panicking, r),
        if count.attached() {
            r == DropAction::Decref && *final(pools) == *old(pools)
        } else {
            match config.pool {
                PoolMode::Enabled => match owner {
                    Some(key) => {
                        &&& r == DropAction::Queued
                        &&& final(pools)@ == old(pools)@.insert(
                            key,
                            old(pools).queue(key).push(obj),
                        )
                        &&& final(pools).dirty_pools() == old(pools).dirty_pools() + if old(pools).queue(
                            key,
                        ).len() == 0 {
                            1int
                        } else {
                            0
                        }
                    },
                    None => {
                        &&& *final(pools) == *old(pools)
                        &&& panicking ==> (r matches DropAction::LeakLoudly(message) && message@
                            == UNKNOWN_OWNER_LEAKED@)
                        &&& !panicking ==> (r matches DropAction::Panic(message) && message@
                            == UNKNOWN_OWNER@)
                    },
                },
                PoolMode::Disabled => {
                    &&& r matches DropAction::Abort(message)
                    &&& message@ == DROPPED_WITHOUT_POOL@
                    &&& *final(pools) == *old(pools)
                },
                PoolMode::LeakOnDrop => r == DropAction::Leak && *final(pools) == *old(pools),
            }
        },
{
    if thread_is_attached(count) {
        return DropAction::Decref;
    }
    match config.pool {
        PoolMode::Enabled => pools.defer_decref(owner, obj, panicking),
        PoolMode::Disabled => DropAction::Abort(DROPPED_WITHOUT_POOL),
        PoolMode::LeakOnDrop => DropAction::Leak,
    }
}

} // verus!
