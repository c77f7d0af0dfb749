//! Per-interpreter storage for values that must not be shared across sub-interpreters.
//!
//! Each cell claims a small index from a process-wide counter the first time it is used. Every
//! interpreter owns one flat vector of slots indexed by that number, its registry, so a lookup
//! is an offset rather than a hash.
//!
//! Each thread caches where the registry of the interpreter it is attached to lies, tagged with
//! that interpreter's address and with a generation. The generation is bumped whenever a cached
//! place could have become wrong: a registry is dropped, or its storage changes.

use crate::internal::state::{AssumeAttached, AttachCount};
use crate::table::Table;
use core::marker::PhantomData;
use vstd::prelude::*;

verus! {

/// The index of a cell that has not been used yet.
pub const UNCLAIMED: usize = usize::MAX;

/// One interpreter's values, indexed by cell.
pub struct Registry<T> {
    slots: Vec<Option<T>>,
}

impl<T> View for Registry<T> {
    type V = Seq<Option<T>>;

    closed spec fn view(&self) -> Seq<Option<T>> {
        self.slots@
    }
}

/// The values in a run of slots, in slot order.
pub open spec fn occupied<T>(slots: Seq<Option<T>>) -> Seq<T>
    decreases slots.len(),
{
    if slots.len() == 0 {
        Seq::empty()
    } else {
        match slots.last() {
            Some(value) => occupied(slots.drop_last()).push(value),
            None => occupied(slots.drop_last()),
        }
    }
}

/// The slots once the one at `index` holds `value`: as long as before, or just long enough.
pub open spec fn with_value<T>(slots: Seq<Option<T>>, index: int, value: T) -> Seq<Option<T>> {
    Seq::new(
        if index < slots.len() { slots.len() } else { (index + 1) as nat },
        |k: int|
            if k == index {
                Some(value)
            } else if k < slots.len() {
                slots[k]
            } else {
                None
            },
    )
}

impl<T> Registry<T> {
    /// Takes the values out, in slot order.
    fn into_values(self) -> (r: Vec<T>)
        ensures
            r@ == occupied(self@),
    {
        let mut slots = self.slots;
        let ghost all = slots@;
        let n: usize = slots.len();
        let mut values: Vec<T> = Vec::new();
        let mut i: usize = 0;
        while i < n
            invariant
                i <= n == all.len(),
                slots@.len() == n,
                forall|k: int| i <= k < n ==> slots@[k] == all[k],
                values@ == occupied(all.take(i as int)),
            decreases n - i,
        {
            let slot = slots[i].take();
            assert(slot == all[i as int]);
            assert(all.take(i + 1).drop_last() =~= all.take(i as int));
            if let Some(value) = slot {
                values.push(value);
            }
            i = i + 1;
        }
        assert(all.take(n as int) =~= all);
        values
    }
}

/// The registries of all interpreters, and what is shared between them: the counter that hands
/// out cell indices, and the generation of the threads' caches.
pub struct Registries<T> {
    entries: Table<Registry<T>>,
    generation: u64,
    next_index: usize,
}

/// A thread's note of where the registry of the interpreter it is attached to lies.
#[derive(Clone, Copy)]
pub struct RegistryCache {
    interp: usize,
    generation: u64,
    base: usize,
    len: usize,
}

impl RegistryCache {
    /// The cache of a thread that has read nothing yet.
    pub fn new() -> (r: Self)
        ensures
            r.is_unused(),
    {
        RegistryCache { interp: 0, generation: 0, base: 0, len: 0 }
    }

    /// Nothing has been noted yet.
    pub closed spec fn is_unused(self) -> bool {
        self.interp == 0 && self.generation == 0
    }

    /// A cache that notes nothing is sound, whatever the registries are.
    pub proof fn unused_is_sound<T>(self, registries: Registries<T>)
        requires
            self.is_unused(),
        ensures
            self.sound(registries),
    {
    }

    /// What the cache says is so: where its tags are current, the registry of its interpreter
    /// lies where it says and is as long as it says.
    pub closed spec fn sound<T>(self, registries: Registries<T>) -> bool {
        &&& self.generation <= registries.generation
        &&& self.interp != 0 && self.generation == registries.generation ==> {
            &&& registries.entries.lies_at(self.interp, self.base as int)
            &&& self.len == registries.entries@[self.interp]@.len()
        }
    }
}

impl<T> Registries<T> {
    /// The slots of every interpreter that has a registry.
    pub closed spec fn view(&self) -> Map<usize, Seq<Option<T>>> {
        self.entries@.map_values(|registry: Registry<T>| registry@)
    }

    /// No interpreter has two registries, and none is null. No registry has a slot for an index
    /// that was not handed out.
    pub closed spec fn wf(&self) -> bool {
        &&& self.entries.wf()
        &&& !self@.dom().contains(0)
        &&& forall|interp: usize| #[trigger]
            self@.dom().contains(interp) ==> self@[interp].len() <= self.next_index
    }

    /// No interpreter has a value for an index that was not handed out.
    pub proof fn only_handed_out_indices_have_values(&self, interp: usize, index: usize)
        requires
            self.wf(),
            index >= self.next_index(),
        ensures
            self.value(interp, index) is None,
    {
    }

    /// The generation of the threads' caches.
    pub closed spec fn generation(&self) -> u64 {
        self.generation
    }

    /// The index that the next new cell gets.
    pub closed spec fn next_index(&self) -> usize {
        self.next_index
    }

    /// The slots of an interpreter; none where it has no registry.
    pub open spec fn slots_of(&self, interp: usize) -> Seq<Option<T>> {
        if self@.dom().contains(interp) {
            self@[interp]
        } else {
            Seq::empty()
        }
    }

    /// The value of the cell with this index in this interpreter.
    pub open spec fn value(&self, interp: usize, index: usize) -> Option<T> {
        if self@.dom().contains(interp) && index < self@[interp].len() {
            self@[interp][index as int]
        } else {
            None
        }
    }

    proof fn lemma_lies_at(&self, interp: usize, at: int)
        requires
            self.wf(),
            self.entries.lies_at(interp, at),
        ensures
            self@.dom().contains(interp),
            self@[interp] == self.entries@[interp]@,
            interp != 0,
    {
        self.entries.lemma_lies_at(interp, at);
    }

    /// No registries, and no index handed out.
    pub fn new() -> (r: Self)
        ensures
            r.wf(),
            r@ == Map::<usize, Seq<Option<T>>>::empty(),
            r.next_index() == 0,
            r.generation() == 0,
    {
        let r = Registries { entries: Table::new(), generation: 0, next_index: 0 };
        assert(r@ =~= Map::<usize, Seq<Option<T>>>::empty());
        r
    }

    /// Where this interpreter's registry lies, if it has one.
    fn find_registry(&self, interp: usize) -> (r: Option<usize>)
        requires
            self.wf(),
        ensures
            r is Some <==> self@.dom().contains(interp),
            r matches Some(at) ==> self.entries.lies_at(interp, at as int),
    {
        self.entries.find(interp)
    }

    /// Where the registry of the interpreter this thread is attached to lies, and its length, or
    /// `None` if it has none yet. The thread's cache answers where its tags are current.
    fn current_registry(&self, cache: &mut RegistryCache, interp: usize) -> (r: Option<
        (usize, usize),
    >)
        requires
            self.wf(),
            interp != 0,
            old(cache).sound(*self),
        ensures
            final(cache).sound(*self),
            r is Some <==> self@.dom().contains(interp),
            r matches Some((base, len)) ==> {
                &&& self.entries.lies_at(interp, base as int)
                &&& len == self@[interp].len()
            },
    {
        if cache.interp == interp && cache.generation == self.generation {
            proof {
                self.lemma_lies_at(interp, cache.base as int);
            }
            return Some((cache.base, cache.len));
        }
        self.lookup_registry_slow(cache, interp)
    }

    fn lookup_registry_slow(&self, cache: &mut RegistryCache, interp: usize) -> (r: Option<
        (usize, usize),
    >)
        requires
            self.wf(),
            interp != 0,
            old(cache).sound(*self),
        ensures
            final(cache).sound(*self),
            r is Some <==> self@.dom().contains(interp),
            r matches Some((base, len)) ==> {
                &&& self.entries.lies_at(interp, base as int)
                &&& len == self@[interp].len()
            },
            r is None ==> *final(cache) == *old(cache),
            r matches Some((base, len)) ==> *final(cache) == (RegistryCache {
                interp,
                generation: self.generation,
                base,
                len,
            }),
    {
        match self.find_registry(interp) {
            None => None,
            Some(base) => {
                proof {
                    self.lemma_lies_at(interp, base as int);
                }
                let len: usize = self.entries.get(interp, base).slots.len();
                *cache = RegistryCache { interp, generation: self.generation, base, len };
                Some((base, len))
            },
        }
    }

    /// Invalidates every thread's cached place.
    fn invalidate_caches(&mut self)
        ensures
            final(self).entries == old(self).entries,
            final(self).next_index == old(self).next_index,
            final(self).generation == old(self).generation.wrapping_add(1),
    {
        self.generation = self.generation.wrapping_add(1);
    }

    /// Every cache that was sound stays so, whichever thread it is of. The generation is counted
    /// in 64 bits; the clause leaves out the step at which it would start over.
    pub open spec fn keeps_caches_sound(self, next: Self) -> bool {
        self.generation() < u64::MAX ==> forall|cache: RegistryCache| #[trigger]
            cache.sound(self) ==> cache.sound(next)
    }

    /// Gives an interpreter an empty registry.
    pub fn create_registry(&mut self, interp: usize)
        requires
            old(self).wf(),
            interp != 0,
            !old(self)@.dom().contains(interp),
        ensures
            final(self).wf(),
            final(self)@ == old(self)@.insert(interp, Seq::empty()),
            final(self).next_index() == old(self).next_index(),
            final(self).generation() == old(self).generation(),
            old(self).keeps_caches_sound(*final(self)),
    {
        let ghost before = *self;
        let _at: usize = self.entries.push(interp, Registry { slots: Vec::new() });
        proof {
            assert(self.entries@[interp]@ =~= Seq::<Option<T>>::empty());
            assert(self@ =~= before@.insert(interp, Seq::empty()));
            assert forall|cache: RegistryCache| #[trigger] cache.sound(before) implies cache.sound(
                *self,
            ) by {
                if cache.interp != 0 && cache.generation == before.generation {
                    before.lemma_lies_at(cache.interp, cache.base as int);
                }
            }
        }
    }

    /// Takes an interpreter's registry away: the values it held, in slot order, or `None` if it
    /// has none.
    fn remove_registry(&mut self, interp: usize) -> (r: Option<Vec<T>>)
        requires
            old(self).wf(),
        ensures
            final(self).wf(),
            r is Some <==> old(self)@.dom().contains(interp),
            r matches Some(values) ==> {
                &&& values@ == occupied(old(self)@[interp])
                &&& final(self)@ == old(self)@.remove(interp)
                &&& final(self).generation() == old(self).generation().wrapping_add(1)
            },
            r is None ==> *final(self) == *old(self),
            final(self).next_index() == old(self).next_index(),
            old(self).keeps_caches_sound(*final(self)),
    {
        let ghost before = *self;
        match self.find_registry(interp) {
            None => None,
            Some(at) => {
                proof {
                    before.lemma_lies_at(interp, at as int);
                }
                // The storage is about to go, and the interpreter's address may be reused.
                self.invalidate_caches();
                let registry = self.entries.remove(interp, at);
                assert(self@ =~= before@.remove(interp));
                Some(registry.into_values())
            },
        }
    }

    /// Drops an interpreter's registry, if it has one: the values it held, in slot order, for the
    /// caller to drop. CPython comes here from a capsule destructor, so the thread is marked as
    /// attached while they are dropped: their references are decref'd, not deferred. The caller
    /// releases the guard afterwards.
    pub fn drop_registry(&mut self, count: &mut AttachCount, interp: usize) -> (r: Option<
        (AssumeAttached, Vec<T>),
    >)
        requires
            old(self).wf(),
            old(count).can_increment(),
        ensures
            final(self).wf(),
            r is Some <==> old(self)@.dom().contains(interp),
            r matches Some((_, values)) ==> {
                &&& values@ == occupied(old(self)@[interp])
                &&& final(self)@ == old(self)@.remove(interp)
                &&& final(self).generation() == old(self).generation().wrapping_add(1)
                &&& *final(count) == old(count).plus(1)
                &&& old(count).cell is Some ==> final(count).attached()
                &&& final(count).plus(-1) == *old(count)
            },
            forall|index: usize| (#[trigger] final(self).value(interp, index)) is None,
            forall|other: usize, index: usize|
                other != interp ==> #[trigger] final(self).value(other, index) == old(self).value(
                    other,
                    index,
                ),
            r is None ==> *final(self) == *old(self) && *final(count) == *old(count),
            final(self).next_index() == old(self).next_index(),
            old(self).keeps_caches_sound(*final(self)),
    {
        match self.remove_registry(interp) {
            None => None,
            Some(values) => Some((AssumeAttached::new(count), values)),
        }
    }

    /// Hands out the next cell index.
    fn fresh_index(&mut self) -> (r: usize)
        requires
            old(self).next_index() < usize::MAX,
        ensures
            r == old(self).next_index(),
            final(self).next_index() == r + 1,
            final(self).entries == old(self).entries,
            final(self).generation == old(self).generation,
    {
        let fresh: usize = self.next_index;
        self.next_index = fresh + 1;
        fresh
    }

    /// Stores a value in the slot at `index` of the registry at `at`, which is empty.
    fn fill_slot(&mut self, interp: usize, at: usize, index: usize, value: T)
        requires
            old(self).wf(),
            old(self).entries.lies_at(interp, at as int),
            old(self).value(interp, index) is None,
            index < old(self).next_index(),
        ensures
            final(self).wf(),
            final(self)@ == old(self)@.insert(
                interp,
                with_value(old(self)@[interp], index as int, value),
            ),
            final(self).entries.lies_at(interp, at as int),
            final(self).next_index() == old(self).next_index(),
            final(self).generation() == old(self).generation().wrapping_add(1),
            old(self).keeps_caches_sound(*final(self)),
    {
        let ghost before = *self;
        proof {
            before.lemma_lies_at(interp, at as int);
        }
        let slots = &mut self.entries.get_mut(interp, at).slots;
        let ghost was = slots@;
        while slots.len() <= index
            invariant
                index < usize::MAX,
                was.len() <= slots@.len() <= (if was.len() > index { was.len() as int } else { index + 1 }),
                forall|k: int| 0 <= k < was.len() ==> slots@[k] == was[k],
                forall|k: int| was.len() <= k < slots@.len() ==> slots@[k] is None,
            decreases index + 1 - slots@.len(),
        {
            slots.push(None);
        }
        slots[index] = Some(value);
        // The storage may have moved, so every thread's cached place is stale.
        self.invalidate_caches();
        proof {
            assert(self.entries@[interp]@ =~= with_value(was, index as int, value));
            assert(self@ =~= before@.insert(interp, with_value(was, index as int, value)));
        }
    }
}

/// What became of a value that was to be stored.
pub enum Stored<'a, T> {
    /// It is stored now.
    Inserted(&'a T),
    /// Another thread of this interpreter won the race: its value, and the one that lost.
    Existing(&'a T, T),
    /// The interpreter has no registry.
    Unregistered(T),
}

/// A value that a cell gave.
pub enum CellRef<'a, T> {
    /// The interpreter's value.
    Stored(&'a T),
    /// A value that no registry holds, because the interpreter takes none.
    Unregistered(T),
}

/// A cell holding at most one value per interpreter.
///
/// A value written by one interpreter is invisible to every other, and is dropped when the
/// interpreter that created it is finalized.
pub struct PerInterpreterCell<T> {
    /// This cell's index into each interpreter's registry, claimed on first use.
    index: usize,
    _marker: PhantomData<T>,
}

impl<T> Default for PerInterpreterCell<T> {
    fn default() -> (r: Self)
        ensures
            r.claimed() is None,
    {
        Self::new()
    }
}

impl<T> PerInterpreterCell<T> {
    /// The index, once the cell has been used.
    pub closed spec fn claimed(&self) -> Option<usize> {
        if self.index == UNCLAIMED {
            None
        } else {
            Some(self.index)
        }
    }

    /// Creates a cell with no value in any interpreter.
    pub fn new() -> (r: Self)
        ensures
            r.claimed() is None,
    {
        PerInterpreterCell { index: UNCLAIMED, _marker: PhantomData }
    }

    /// The index that the cell has, or gets when it is first used.
    pub open spec fn index_in(&self, registries: &Registries<T>) -> usize {
        match self.claimed() {
            Some(index) => index,
            None => registries.next_index(),
        }
    }

    /// The cell can be used with these registries: they handed its index out, or they have one
    /// left for it.
    pub open spec fn usable(&self, registries: &Registries<T>) -> bool {
        match self.claimed() {
            Some(index) => index < registries.next_index(),
            None => registries.next_index() < usize::MAX,
        }
    }

    /// The index that stands for none is never claimed.
    pub proof fn unclaimed_is_no_index(&self)
        ensures
            self.claimed() != Some(UNCLAIMED),
    {
    }

    /// The counter after this cell was used.
    pub open spec fn counter_after(&self, registries: &Registries<T>) -> int {
        match self.claimed() {
            Some(_) => registries.next_index() as int,
            None => registries.next_index() + 1,
        }
    }

    /// This cell's registry index, claiming one if it has none.
    pub fn index(&mut self, registries: &mut Registries<T>) -> (r: usize)
        requires
            old(self).usable(old(registries)),
            old(registries).wf(),
        ensures
            r == old(self).index_in(old(registries)),
            r != UNCLAIMED,
            final(self).claimed() == Some(r),
            final(registries).wf(),
            final(registries)@ == old(registries)@,
            final(registries).generation() == old(registries).generation(),
            final(registries).next_index() == old(self).counter_after(old(registries)),
            forall|cache: RegistryCache| #[trigger]
                cache.sound(*old(registries)) ==> cache.sound(*final(registries)),
    {
        if self.index != UNCLAIMED {
            return self.index;
        }
        let fresh: usize = registries.fresh_index();
        self.claim_index(fresh)
    }

    /// Takes `fresh` as this cell's index, unless one was claimed in the meantime: that one is
    /// used then, and `fresh` is left unused. A gap costs one empty slot in each registry.
    fn claim_index(&mut self, fresh: usize) -> (r: usize)
        requires
            fresh != UNCLAIMED,
        ensures
            r == (match old(self).claimed() {
                Some(existing) => existing,
                None => fresh,
            }),
            final(self).claimed() == Some(r),
    {
        if self.index == UNCLAIMED {
            self.index = fresh;
            fresh
        } else {
            self.index
        }
    }

    /// Where this interpreter's value lies, if it has been initialized here: the place of the
    /// registry, and the slot.
    fn locate(
        &mut self,
        registries: &mut Registries<T>,
        cache: &mut RegistryCache,
        interp: usize,
    ) -> (r: Option<(usize, usize)>)
        requires
            old(registries).wf(),
            old(self).usable(old(registries)),
            old(cache).sound(*old(registries)),
            interp != 0,
        ensures
            r is Some <==> old(registries).value(
                interp,
                old(self).index_in(old(registries)),
            ) is Some,
            r matches Some((base, index)) ==> {
                &&& final(registries).entries.lies_at(interp, base as int)
                &&& index == old(self).index_in(old(registries))
                &&& index < final(registries).entries@[interp]@.len()
                &&& final(registries).entries@[interp]@[index as int] is Some
            },
            final(self).claimed() == Some(old(self).index_in(old(registries))),
            final(cache).sound(*final(registries)),
            final(registries).wf(),
            final(registries)@ == old(registries)@,
            final(registries).generation() == old(registries).generation(),
            final(registries).next_index() == old(self).counter_after(old(registries)),
            forall|other: RegistryCache| #[trigger]
                other.sound(*old(registries)) ==> other.sound(*final(registries)),
    {
        let index: usize = self.index(registries);
        match registries.current_registry(cache, interp) {
            None => None,
            Some((base, len)) => {
                proof {
                    registries.lemma_lies_at(interp, base as int);
                }
                if index >= len {
                    return None;
                }
                if registries.entries.get(interp, base).slots[index].is_some() {
                    Some((base, index))
                } else {
                    None
                }
            },
        }
    }

    /// Returns a reference to this interpreter's value, if it has been initialized here.
    pub fn get<'a>(
        &mut self,
        registries: &'a mut Registries<T>,
        cache: &mut RegistryCache,
        interp: usize,
    ) -> (r: Option<&'a T>)
        requires
            old(registries).wf(),
            old(self).usable(old(registries)),
            old(cache).sound(*old(registries)),
            interp != 0,
        ensures
            r is Some <==> old(registries).value(
                interp,
                old(self).index_in(old(registries)),
            ) is Some,
            r matches Some(value) ==> old(registries).value(
                interp,
                old(self).index_in(old(registries)),
            ) == Some(*value),
            final(self).claimed() == Some(old(self).index_in(old(registries))),
            final(cache).sound(*final(registries)),
            final(registries).wf(),
            final(registries)@ == old(registries)@,
            final(registries).generation() == old(registries).generation(),
            final(registries).next_index() == old(self).counter_after(old(registries)),
            old(registries).keeps_caches_sound(*final(registries)),
    {
        match self.locate(registries, cache, interp) {
            None => None,
            Some((base, index)) => {
                proof {
                    registries.lemma_lies_at(interp, base as int);
                }
                registries.entries.get(interp, base).slots[index].as_ref()
            },
        }
    }

    /// Stores this interpreter's value, unless it has one already.
    ///
    /// An interpreter without a registry is finalizing, or out of memory: nothing is stored then,
    /// and the value comes back to the caller, who keeps it for whoever asked for it.
    pub fn set_and_get<'a>(
        &mut self,
        registries: &'a mut Registries<T>,
        interp: usize,
        value: T,
    ) -> (r: Stored<'a, T>)
        requires
            old(registries).wf(),
            old(self).usable(old(registries)),
        ensures
            ({
                let index = old(self).index_in(old(registries));
                let existing = old(registries).value(interp, index);
                if !old(registries)@.dom().contains(interp) {
                    &&& r == Stored::<T>::Unregistered(value)
                    &&& final(registries)@ == old(registries)@
                    &&& final(registries).generation() == old(registries).generation()
                } else if existing is Some {
                    &&& r == Stored::Existing(&existing->0, value)
                    &&& final(registries)@ == old(registries)@
                    &&& final(registries).generation() == old(registries).generation()
                } else {
                    &&& r == Stored::Inserted(&value)
                    &&& final(registries)@ == old(registries)@.insert(
                        interp,
                        with_value(old(registries)@[interp], index as int, value),
                    )
                    &&& final(registries).generation() == old(
                        registries,
                    ).generation().wrapping_add(1)
                }
            }),
            r matches Stored::Inserted(stored) ==> *stored == value && final(registries).value(
                interp,
                old(self).index_in(old(registries)),
            ) == Some(*stored),
            r matches Stored::Existing(kept, lost) ==> lost == value && final(registries).value(
                interp,
                old(self).index_in(old(registries)),
            ) == Some(*kept),
            r matches Stored::Unregistered(lost) ==> lost == value,
            forall|other: usize, index: usize|
                other != interp || index != old(self).index_in(old(registries)) ==> #[trigger] final(registries).value(
                    other,
                    index,
                ) == old(registries).value(other, index),
            old(registries).value(interp, old(self).index_in(old(registries))) is Some ==> final(registries).value(interp, old(self).index_in(old(registries))) == old(registries).value(
                interp,
                old(self).index_in(old(registries)),
            ),
            final(self).claimed() == Some(old(self).index_in(old(registries))),
            final(registries).wf(),
            final(registries).next_index() == old(self).counter_after(old(registries)),
            old(registries).keeps_caches_sound(*final(registries)),
    {
        let ghost before = *registries;
        let index: usize = self.index(registries);
        let ghost indexed = *registries;
        match registries.find_registry(interp) {
            None => Stored::Unregistered(value),
            Some(at) => {
                proof {
                    registries.lemma_lies_at(interp, at as int);
                }
                if index < registries.entries.get(interp, at).slots.len()
                    && registries.entries.get(interp, at).slots[index].is_some() {
                    let existing = registries.entries.get(interp, at).slots[index].as_ref();
                    return Stored::Existing(existing.unwrap(), value);
                }
                registries.fill_slot(interp, at, index, value);
                proof {
                    assert(before.keeps_caches_sound(*registries)) by {
                        if before.generation() < u64::MAX {
                            assert forall|cache: RegistryCache| #[trigger]
                                cache.sound(before) implies cache.sound(*registries) by {
                                assert(cache.sound(indexed));
                            }
                        }
                    }
                    registries.lemma_lies_at(interp, at as int);
                }
                Stored::Inserted(registries.entries.get(interp, at).slots[index].as_ref().unwrap())
            },
        }
    }

    /// Returns this interpreter's value, initializing it with `f` if this interpreter has not
    /// initialized it yet. It never observes a value created by a different interpreter.
    ///
    /// `accepts_registry` says whether an interpreter without a registry can be given one; it
    /// cannot while it is finalizing, or out of memory.
    pub fn get_or_init<'a, F>(
        &mut self,
        registries: &'a mut Registries<T>,
        cache: &mut RegistryCache,
        interp: usize,
        accepts_registry: bool,
        f: F,
    ) -> (r: CellRef<'a, T>) where F: FnOnce() -> T
        requires
            old(registries).wf(),
            old(self).usable(old(registries)),
            old(cache).sound(*old(registries)),
            interp != 0,
            f.requires(()),
        ensures
            ({
                let index = old(self).index_in(old(registries));
                match old(registries).value(interp, index) {
                    Some(value) => {
                        &&& r == CellRef::Stored(&value)
                        &&& final(registries)@ == old(registries)@
                        &&& final(registries).generation() == old(registries).generation()
                    },
                    None => exists|value: T| #[trigger] f.ensures((), value) && {
                        if old(registries)@.dom().contains(interp) || accepts_registry {
                            &&& r == CellRef::Stored(&value)
                            &&& final(registries).generation() == old(
                                registries,
                            ).generation().wrapping_add(1)
                            &&& final(registries)@ == old(registries)@.insert(
                                interp,
                                with_value(
                                    old(registries).slots_of(interp),
                                    index as int,
                                    value,
                                ),
                            )
                        } else {
                            &&& r == CellRef::<T>::Unregistered(value)
                            &&& final(registries)@ == old(registries)@
                            &&& final(registries).generation() == old(registries).generation()
                        }
                    },
                }
            }),
            r matches CellRef::Stored(stored) ==> final(registries).value(
                interp,
                old(self).index_in(old(registries)),
            ) == Some(*stored),
            forall|other: usize, index: usize|
                other != interp || index != old(self).index_in(old(registries)) ==> #[trigger] final(registries).value(
                    other,
                    index,
                ) == old(registries).value(other, index),
            old(registries).value(interp, old(self).index_in(old(registries))) is Some ==> final(registries).value(interp, old(self).index_in(old(registries))) == old(registries).value(
                interp,
                old(self).index_in(old(registries)),
            ),
            final(self).claimed() == Some(old(self).index_in(old(registries))),
            old(registries).generation() < u64::MAX ==> final(cache).sound(*final(registries)),
            final(registries).wf(),
            final(registries).next_index() == old(self).counter_after(old(registries)),
            old(registries).keeps_caches_sound(*final(registries)),
    {
        if let Some((base, index)) = self.locate(registries, cache, interp) {
            proof {
                registries.lemma_lies_at(interp, base as int);
            }
            return CellRef::Stored(registries.entries.get(interp, base).slots[index].as_ref().unwrap());
        }
        let value = f();
        self.initialize(registries, cache, interp, accepts_registry, value)
    }

    /// Stores a value that this interpreter does not have yet, in a registry that it is given
    /// where it has none and takes one.
    fn initialize<'a>(
        &mut self,
        registries: &'a mut Registries<T>,
        cache: &RegistryCache,
        interp: usize,
        accepts_registry: bool,
        value: T,
    ) -> (r: CellRef<'a, T>)
        requires
            old(registries).wf(),
            old(self).claimed() is Some,
            old(self).usable(old(registries)),
            old(registries).value(interp, old(self).claimed()->0) is None,
            cache.sound(*old(registries)),
            interp != 0,
        ensures
            if old(registries)@.dom().contains(interp) || accepts_registry {
                &&& r == CellRef::Stored(&value)
                &&& final(registries)@ == old(registries)@.insert(
                    interp,
                    with_value(
                        old(registries).slots_of(interp),
                        old(self).claimed()->0 as int,
                        value,
                    ),
                )
                &&& final(registries).generation() == old(registries).generation().wrapping_add(1)
            } else {
                &&& r == CellRef::<T>::Unregistered(value)
                &&& final(registries)@ == old(registries)@
                &&& final(registries).generation() == old(registries).generation()
            },
            final(self).claimed() == old(self).claimed(),
            old(registries).generation() < u64::MAX ==> cache.sound(*final(registries)),
            final(registries).wf(),
            final(registries).next_index() == old(registries).next_index(),
            old(registries).keeps_caches_sound(*final(registries)),
    {
        let ghost before = *registries;
        if accepts_registry && registries.find_registry(interp).is_none() {
            registries.create_registry(interp);
        }
        let ghost ensured = *registries;
        assert forall|next: Registries<T>| #[trigger]
            ensured.keeps_caches_sound(next) implies before.keeps_caches_sound(next) by {
            if before.generation() < u64::MAX {
                assert forall|other: RegistryCache| #[trigger] other.sound(before) implies other.sound(
                    next,
                ) by {
                    assert(other.sound(ensured));
                }
            }
        }
        assert forall|slots: Seq<Option<T>>| #[trigger]
            ensured@.insert(interp, slots) == before@.insert(interp, slots) by {
            assert(ensured@.insert(interp, slots) =~= before@.insert(interp, slots));
        }
        match self.set_and_get(registries, interp, value) {
            Stored::Inserted(value) => CellRef::Stored(value),
            Stored::Existing(existing, _lost) => CellRef::Stored(existing),
            Stored::Unregistered(value) => CellRef::Unregistered(value),
        }
    }

    /// Fallible [`get_or_init`][Self::get_or_init].
    pub fn get_or_try_init<'a, F, E>(
        &mut self,
        registries: &'a mut Registries<T>,
        cache: &mut RegistryCache,
        interp: usize,
        accepts_registry: bool,
        f: F,
    ) -> (r: Result<CellRef<'a, T>, E>) where F: FnOnce() -> Result<T, E>
        requires
            old(registries).wf(),
            old(self).usable(old(registries)),
            old(cache).sound(*old(registries)),
            interp != 0,
            f.requires(()),
        ensures
            ({
                let index = old(self).index_in(old(registries));
                match old(registries).value(interp, index) {
                    Some(value) => {
                        &&& r == Ok::<CellRef<'a, T>, E>(CellRef::Stored(&value))
                        &&& final(registries)@ == old(registries)@
                        &&& final(registries).generation() == old(registries).generation()
                    },
                    None => exists|made: Result<T, E>| #[trigger] f.ensures((), made) && match made {
                        Err(e) => {
                            &&& r == Err::<CellRef<'a, T>, E>(e)
                            &&& final(registries)@ == old(registries)@
                            &&& final(registries).generation() == old(registries).generation()
                        },
                        Ok(value) => if old(registries)@.dom().contains(interp)
                            || accepts_registry {
                            &&& r == Ok::<CellRef<'a, T>, E>(CellRef::Stored(&value))
                            &&& final(registries).generation() == old(
                                registries,
                            ).generation().wrapping_add(1)
                            &&& final(registries)@ == old(registries)@.insert(
                                interp,
                                with_value(
                                    old(registries).slots_of(interp),
                                    index as int,
                                    value,
                                ),
                            )
                        } else {
                            &&& r == Ok::<CellRef<'a, T>, E>(CellRef::Unregistered(value))
                            &&& final(registries)@ == old(registries)@
                            &&& final(registries).generation() == old(registries).generation()
                        },
                    },
                }
            }),
            r matches Ok(CellRef::Stored(stored)) ==> final(registries).value(
                interp,
                old(self).index_in(old(registries)),
            ) == Some(*stored),
            forall|other: usize, index: usize|
                other != interp || index != old(self).index_in(old(registries)) ==> #[trigger] final(registries).value(
                    other,
                    index,
                ) == old(registries).value(other, index),
            old(registries).value(interp, old(self).index_in(old(registries))) is Some ==> final(registries).value(interp, old(self).index_in(old(registries))) == old(registries).value(
                interp,
                old(self).index_in(old(registries)),
            ),
            final(self).claimed() == Some(old(self).index_in(old(registries))),
            old(registries).generation() < u64::MAX ==> final(cache).sound(*final(registries)),
            final(registries).wf(),
            final(registries).next_index() == old(self).counter_after(old(registries)),
            old(registries).keeps_caches_sound(*final(registries)),
    {
        if let Some((base, index)) = self.locate(registries, cache, interp) {
            proof {
                registries.lemma_lies_at(interp, base as int);
            }
            return Ok(CellRef::Stored(registries.entries.get(interp, base).slots[index].as_ref().unwrap()));
        }
        let value = match f() {
            Ok(value) => value,
            Err(e) => {
                return Err(e);
            },
        };
        Ok(self.initialize(registries, cache, interp, accepts_registry, value))
    }
}

} // verus!
