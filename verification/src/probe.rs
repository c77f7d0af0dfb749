//! The probe extension: what it registers, and what its types do.
//!
//! The probe measures the cost of the boundary between Python and Rust, and whether interpreters
//! stay apart: each runs a counter of its own seed, and two raw types that differ only in
//! whether the collector tracks them.

use vstd::prelude::*;

verus! {

/// A class with state. Each interpreter computes with its own seed; where interpreters are not
/// isolated the totals mix.
pub struct Counter {
    seed: i64,
    total: i64,
}

impl Counter {
    /// What each bump is multiplied by.
    pub closed spec fn seed(&self) -> i64 {
        self.seed
    }

    /// The total so far.
    pub closed spec fn total(&self) -> i64 {
        self.total
    }

    /// The total after `k` is added to `total`, with this seed.
    pub open spec fn bumped(seed: i64, total: int, k: i64) -> int {
        total + seed * k
    }

    /// A counter that starts at zero.
    pub fn new(seed: i64) -> (r: Self)
        ensures
            r.seed() == seed,
            r.total() == 0,
    {
        Counter { seed, total: 0 }
    }

    /// Adds `k` times the seed, and returns the total.
    pub fn bump(&mut self, k: i64) -> (r: i64)
        requires
            i64::MIN <= old(self).seed() * k <= i64::MAX,
            i64::MIN <= old(self).total() + old(self).seed() * k <= i64::MAX,
        ensures
            r == old(self).total() + old(self).seed() * k,
            r == Self::bumped(old(self).seed(), old(self).total() as int, k),
            final(self).total() == r,
            final(self).seed() == old(self).seed(),
    {
        let step: i64 = self.seed * k;
        self.total = self.total + step;
        self.total
    }
}

/// The sum of some bumps.
pub open spec fn sum(bumps: Seq<i64>) -> int
    decreases bumps.len(),
{
    if bumps.len() == 0 {
        0
    } else {
        sum(bumps.drop_last()) + bumps.last()
    }
}

/// The total after some bumps.
pub open spec fn total_after(seed: i64, bumps: Seq<i64>) -> int
    decreases bumps.len(),
{
    if bumps.len() == 0 {
        0
    } else {
        Counter::bumped(seed, total_after(seed, bumps.drop_last()), bumps.last())
    }
}

/// A counter's total depends on its own seed and its own bumps alone: it is the seed times the
/// sum of the bumps.
pub proof fn a_counter_counts_its_own_bumps(seed: i64, bumps: Seq<i64>)
    ensures
        total_after(seed, bumps) == seed * sum(bumps),
    decreases bumps.len(),
{
    if bumps.len() > 0 {
        a_counter_counts_its_own_bumps(seed, bumps.drop_last());
        let rest = sum(bumps.drop_last());
        let last = bumps.last();
        assert(seed * (rest + last) == seed * rest + seed * last) by (nonlinear_arith);
    } else {
        assert(seed * 0 == 0) by (nonlinear_arith);
    }
}

/// The slots of a raw type.
#[derive(Clone, Copy, Debug, PartialEq, Eq, Structural)]
pub enum RawTypeSlot {
    /// `Py_tp_new`.
    New,
    /// `Py_tp_dealloc`.
    Dealloc,
    /// `Py_tp_traverse`.
    Traverse,
    /// Ends the array.
    End,
}

/// What `PyType_FromSpec` is handed for a raw type.
pub struct RawTypeSpec {
    /// The address of the name.
    pub name: usize,
    pub basicsize: i32,
    pub itemsize: i32,
    pub flags: u64,
    pub slots: Vec<RawTypeSlot>,
}

/// The slots of a raw type.
pub open spec fn raw_slots(with_gc: bool) -> Seq<RawTypeSlot> {
    if with_gc {
        seq![RawTypeSlot::New, RawTypeSlot::Dealloc, RawTypeSlot::Traverse, RawTypeSlot::End]
    } else {
        seq![RawTypeSlot::New, RawTypeSlot::Dealloc, RawTypeSlot::End]
    }
}

/// The flags of a raw type.
pub open spec fn raw_flags(default_flags: u64, gc_flag: u64, with_gc: bool) -> u64 {
    if with_gc {
        default_flags | gc_flag
    } else {
        default_flags
    }
}

/// The spec of a raw type. `default_flags` is `Py_TPFLAGS_DEFAULT`, and `gc_flag` is
/// `Py_TPFLAGS_HAVE_GC`, which only a type that the collector tracks has.
pub fn make_raw_type(
    name: usize,
    basicsize: i32,
    default_flags: u64,
    gc_flag: u64,
    with_gc: bool,
) -> (r: RawTypeSpec)
    ensures
        r.name == name,
        r.basicsize == basicsize,
        r.itemsize == 0,
        r.flags == if with_gc {
            default_flags | gc_flag
        } else {
            default_flags
        },
        r.slots@ == raw_slots(with_gc),
        r.flags == raw_flags(default_flags, gc_flag, with_gc),
        r.slots@ == if with_gc {
            seq![RawTypeSlot::New, RawTypeSlot::Dealloc, RawTypeSlot::Traverse, RawTypeSlot::End]
        } else {
            seq![RawTypeSlot::New, RawTypeSlot::Dealloc, RawTypeSlot::End]
        },
{
    let mut slots: Vec<RawTypeSlot> = Vec::new();
    slots.push(RawTypeSlot::New);
    slots.push(RawTypeSlot::Dealloc);
    if with_gc {
        slots.push(RawTypeSlot::Traverse);
    }
    slots.push(RawTypeSlot::End);
    let mut flags: u64 = default_flags;
    if with_gc {
        flags = flags | gc_flag;
    }
    assert(slots@ =~= if with_gc {
        seq![RawTypeSlot::New, RawTypeSlot::Dealloc, RawTypeSlot::Traverse, RawTypeSlot::End]
    } else {
        seq![RawTypeSlot::New, RawTypeSlot::Dealloc, RawTypeSlot::End]
    });
    RawTypeSpec { name, basicsize, itemsize: 0, flags, slots }
}

/// What happens to an object of a raw type that is deallocated.
#[derive(Clone, Copy, Debug, PartialEq, Eq, Structural)]
pub enum DeallocStep {
    /// `PyObject_GC_UnTrack` of the object.
    Untrack,
    /// The `tp_free` of its type, on the object.
    Free,
    /// `Py_DECREF` of its type.
    ReleaseType,
}

/// The steps to deallocate an object whose type has these flags.
pub open spec fn dealloc_steps(flags: u64, gc_flag: u64) -> Seq<DeallocStep> {
    if flags & gc_flag != 0 {
        seq![DeallocStep::Untrack, DeallocStep::Free, DeallocStep::ReleaseType]
    } else {
        seq![DeallocStep::Free, DeallocStep::ReleaseType]
    }
}

/// The steps to deallocate an object whose type has these flags, in order: the object is taken
/// from the collector first, where that tracks it, and its type goes last.
pub fn rawrow_dealloc(flags: u64, gc_flag: u64) -> (r: Vec<DeallocStep>)
    ensures
        r@ == if flags & gc_flag != 0 {
            seq![DeallocStep::Untrack, DeallocStep::Free, DeallocStep::ReleaseType]
        } else {
            seq![DeallocStep::Free, DeallocStep::ReleaseType]
        },
        r@ == dealloc_steps(flags, gc_flag),
{
    let mut steps: Vec<DeallocStep> = Vec::new();
    if flags & gc_flag != 0 {
        steps.push(DeallocStep::Untrack);
    }
    steps.push(DeallocStep::Free);
    steps.push(DeallocStep::ReleaseType);
    assert(steps@ =~= if flags & gc_flag != 0 {
        seq![DeallocStep::Untrack, DeallocStep::Free, DeallocStep::ReleaseType]
    } else {
        seq![DeallocStep::Free, DeallocStep::ReleaseType]
    });
    steps
}

/// A raw type is untracked on deallocation exactly where it was made to be tracked.
pub proof fn a_raw_type_is_untracked_where_it_is_tracked(
    default_flags: u64,
    gc_flag: u64,
    with_gc: bool,
)
    requires
        gc_flag != 0,
        default_flags & gc_flag == 0,
    ensures
        ({
            let flags = if with_gc {
                default_flags | gc_flag
            } else {
                default_flags
            };
            flags & gc_flag != 0 <==> with_gc
        }),
{
    assert((default_flags | gc_flag) & gc_flag == gc_flag) by (bit_vector);
}

/// An object of a raw type is freed once, and its type is given up once and last. It is taken
/// from the collector exactly where its type was made to be tracked, and before it is freed.
pub proof fn a_raw_object_is_freed_in_order(
    default_flags: u64,
    gc_flag: u64,
    with_gc: bool,
)
    requires
        gc_flag != 0,
        default_flags & gc_flag == 0,
    ensures
        ({
            let steps = dealloc_steps(raw_flags(default_flags, gc_flag, with_gc), gc_flag);
            let n = steps.len() as int;
            &&& n == if with_gc {
                3int
            } else {
                2
            }
            &&& steps[n - 1] is ReleaseType
            &&& steps[n - 2] is Free
            &&& with_gc ==> steps[0] is Untrack
        }),
        raw_flags(default_flags, gc_flag, with_gc) & gc_flag != 0 <==> with_gc,
        raw_flags(default_flags, gc_flag, false) == default_flags,
        raw_flags(default_flags, gc_flag, true) == default_flags | gc_flag,
{
    a_raw_type_is_untracked_where_it_is_tracked(default_flags, gc_flag, with_gc);
}

/// The two raw types differ in one slot alone: the tracked one can be traversed. Both can be made
/// and deallocated, and both arrays end.
pub proof fn raw_types_differ_in_one_slot(with_gc: bool)
    ensures
        raw_slots(with_gc).len() == if with_gc {
            4int
        } else {
            3
        },
        raw_slots(with_gc)[0] is New,
        raw_slots(with_gc)[1] is Dealloc,
        raw_slots(with_gc).last() is End,
        raw_slots(true)[2] is Traverse,
        raw_slots(true).remove(2) == raw_slots(false),
{
    assert(raw_slots(true).remove(2) =~= raw_slots(false));
}

/// What the probe registers in its module.
#[derive(Clone, Copy, Debug, PartialEq, Eq, Structural)]
pub enum ProbeItem {
    /// The submodule `inner`.
    Inner,
    /// The raw function `raw_noop`.
    RawNoop,
    /// The function `interp_id_ns`.
    InterpIdNs,
    /// The function `type_lookup_ns`.
    TypeLookupNs,
    /// The function `noop`.
    Noop,
    /// The function `sum_buf`.
    SumBuf,
    /// The class `Row`.
    Row,
    /// The class `Counter`.
    Counter,
    /// The raw type `RawRowNoGC`.
    RawRowNoGc,
    /// The raw type `RawRowGC`.
    RawRowGc,
}

/// What the submodule `inner` registers.
#[derive(Clone, Copy, Debug, PartialEq, Eq, Structural)]
pub enum InnerItem {
    /// The number `answer`.
    Answer(i64),
    /// The class `Row`.
    Row,
}

/// What the submodule registers, in order; the first that fails ends the initialization.
pub fn inner() -> (r: Vec<InnerItem>)
    ensures
        r@ == seq![InnerItem::Answer(42), InnerItem::Row],
{
    let mut items: Vec<InnerItem> = Vec::new();
    items.push(InnerItem::Answer(42));
    items.push(InnerItem::Row);
    assert(items@ =~= seq![InnerItem::Answer(42), InnerItem::Row]);
    items
}

/// What the probe registers, in order.
pub open spec fn registered(submodule: bool, abi3: bool) -> Seq<ProbeItem> {
    (if submodule {
        seq![ProbeItem::Inner]
    } else {
        Seq::empty()
    }) + seq![
        ProbeItem::RawNoop,
        ProbeItem::InterpIdNs,
        ProbeItem::TypeLookupNs,
        ProbeItem::Noop,
    ] + (if abi3 {
        Seq::empty()
    } else {
        seq![ProbeItem::SumBuf]
    }) + seq![ProbeItem::Row, ProbeItem::Counter, ProbeItem::RawRowNoGc, ProbeItem::RawRowGc]
}

/// The probe registers each of its items once, whichever features it was built with: the
/// submodule first where it has one, the sum of a buffer only outside the limited API, and all
/// others always and in one order.
pub proof fn the_probe_registers_each_item_once(submodule: bool, abi3: bool, i: int, j: int)
    requires
        0 <= i < registered(submodule, abi3).len(),
        0 <= j < registered(submodule, abi3).len(),
    ensures
        registered(submodule, abi3)[i] == registered(submodule, abi3)[j] <==> i == j,
        registered(true, abi3)[0] is Inner,
        registered(true, abi3).skip(1) == registered(false, abi3),
        forall|k: int|
            0 <= k < registered(false, abi3).len() ==> !(#[trigger] registered(false, abi3)[k]
                is Inner),
        registered(submodule, true) == if submodule {
            registered(submodule, false).remove(5)
        } else {
            registered(submodule, false).remove(4)
        },
        registered(false, false)[4] is SumBuf,
        registered(false, true) == seq![
            ProbeItem::RawNoop,
            ProbeItem::InterpIdNs,
            ProbeItem::TypeLookupNs,
            ProbeItem::Noop,
            ProbeItem::Row,
            ProbeItem::Counter,
            ProbeItem::RawRowNoGc,
            ProbeItem::RawRowGc,
        ],
{
    assert(registered(true, abi3).skip(1) =~= registered(false, abi3));
    assert(registered(true, true) =~= registered(true, false).remove(5));
    assert(registered(false, true) =~= registered(false, false).remove(4));
    assert(registered(false, true) =~= seq![
        ProbeItem::RawNoop,
        ProbeItem::InterpIdNs,
        ProbeItem::TypeLookupNs,
        ProbeItem::Noop,
        ProbeItem::Row,
        ProbeItem::Counter,
        ProbeItem::RawRowNoGc,
        ProbeItem::RawRowGc,
    ]);
}

/// What the probe registers in its module, in order; the first that fails ends the
/// initialization. The submodule is a feature, and the buffer protocol is not in the limited
/// API.
pub fn abi3t(submodule: bool, abi3: bool) -> (r: Vec<ProbeItem>)
    ensures
        r@ == registered(submodule, abi3),
{
    let mut items: Vec<ProbeItem> = Vec::new();
    if submodule {
        items.push(ProbeItem::Inner);
    }
    items.push(ProbeItem::RawNoop);
    items.push(ProbeItem::InterpIdNs);
    items.push(ProbeItem::TypeLookupNs);
    items.push(ProbeItem::Noop);
    if !abi3 {
        items.push(ProbeItem::SumBuf);
    }
    items.push(ProbeItem::Row);
    items.push(ProbeItem::Counter);
    items.push(ProbeItem::RawRowNoGc);
    items.push(ProbeItem::RawRowGc);
    assert(items@ =~= registered(submodule, abi3));
    items
}

} // verus!
