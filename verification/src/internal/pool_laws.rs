//! What holds of deferred decrefs over the whole history of a process.

use crate::config::BuildConfig;
use crate::internal::home::ForeignTarget;
use crate::internal::pool::{
    deferred, dropped, key_of, owner, torn_out, DropAction, PoolKey, Pools, DROPPED_WITHOUT_POOL,
    UNKNOWN_OWNER, UNKNOWN_OWNER_LEAKED,
};
use crate::internal::state::{drained, AttachCount};
use crate::marker::{Interpreter, Python};
use vstd::prelude::*;

verus! {

/// What happened to the pools.
pub enum PoolEvent {
    /// A decref was queued for the interpreter with this key.
    Deferred { key: PoolKey, obj: usize },
    /// A thread attached to an interpreter and drained its pool.
    Attached { py: Python },
    /// One round of an interpreter's teardown emptied its pool.
    TornDown { interp: Interpreter },
}

/// The event takes the pools from one state to the next and hands `applied` out to be decref'd.
pub open spec fn pool_step(
    config: &BuildConfig,
    before: Pools,
    event: PoolEvent,
    after: Pools,
    applied: Seq<usize>,
) -> bool {
    match event {
        PoolEvent::Deferred { key, obj } => {
            &&& deferred(before, after, key, obj)
            &&& applied == Seq::<usize>::empty()
        },
        PoolEvent::Attached { py } => drained(config, before, after, py, applied),
        PoolEvent::TornDown { interp } => torn_out(before, after, interp, applied),
    }
}

/// The interpreter in which an event applies decrefs, if it applies any.
pub open spec fn applies_in(event: PoolEvent) -> Option<PoolKey> {
    match event {
        PoolEvent::Deferred { .. } => None,
        PoolEvent::Attached { py } => Some(key_of(py.interp)),
        PoolEvent::TornDown { interp } => Some(key_of(interp)),
    }
}

/// A run of the pools, from none: `states[i]` is what they are before `events[i]`, which hands
/// out `applied[i]`.
pub open spec fn is_run(
    config: &BuildConfig,
    states: Seq<Pools>,
    events: Seq<PoolEvent>,
    applied: Seq<Seq<usize>>,
) -> bool {
    &&& states.len() == events.len() + 1
    &&& applied.len() == events.len()
    &&& states[0]@ == Map::<PoolKey, Seq<usize>>::empty()
    &&& forall|i: int|
        0 <= i < events.len() ==> #[trigger] pool_step(
            config,
            states[i],
            events[i],
            states[i + 1],
            applied[i],
        )
}

/// What was queued for an interpreter in the first `n` events, oldest first.
pub open spec fn deferred_for(key: PoolKey, events: Seq<PoolEvent>, n: nat) -> Seq<usize>
    decreases n,
{
    if n == 0 {
        Seq::empty()
    } else {
        let before = deferred_for(key, events, (n - 1) as nat);
        match events[n - 1] {
            PoolEvent::Deferred { key: k, obj } => if k == key {
                before.push(obj)
            } else {
                before
            },
            _ => before,
        }
    }
}

/// What was applied in an interpreter in the first `n` events, oldest first.
pub open spec fn applied_in(
    key: PoolKey,
    events: Seq<PoolEvent>,
    applied: Seq<Seq<usize>>,
    n: nat,
) -> Seq<usize>
    decreases n,
{
    if n == 0 {
        Seq::empty()
    } else {
        let before = applied_in(key, events, applied, (n - 1) as nat);
        if applies_in(events[n - 1]) == Some(key) {
            before + applied[n - 1]
        } else {
            before
        }
    }
}

/// Whatever happens, each interpreter applies the decrefs that were queued for it, each once, in
/// the order in which they were queued, and no others; what it has not applied yet is pending.
pub proof fn decrefs_are_applied_once_by_their_owner(
    config: &BuildConfig,
    states: Seq<Pools>,
    events: Seq<PoolEvent>,
    applied: Seq<Seq<usize>>,
    key: PoolKey,
    n: nat,
)
    requires
        is_run(config, states, events, applied),
        config.pool is Enabled,
        n <= events.len(),
    ensures
        deferred_for(key, events, n) == applied_in(key, events, applied, n) + states[n as int].queue(
            key,
        ),
    decreases n,
{
    if n == 0 {
        assert(states[0].queue(key) =~= Seq::<usize>::empty());
        assert(deferred_for(key, events, n) =~= applied_in(key, events, applied, n)
            + states[n as int].queue(key));
    } else {
        let m = (n - 1) as nat;
        decrefs_are_applied_once_by_their_owner(config, states, events, applied, key, m);
        let before = states[m as int];
        let after = states[n as int];
        assert(pool_step(config, before, events[m as int], states[m as int + 1], applied[m as int]));
        match events[m as int] {
            PoolEvent::Deferred { key: k, obj } => {
                if k == key {
                    assert(after.queue(key) =~= before.queue(key).push(obj));
                } else {
                    assert(after.queue(key) =~= before.queue(key));
                }
            },
            PoolEvent::Attached { py } => {
                if key_of(py.interp) != key {
                    assert(after.queue(key) =~= before.queue(key));
                }
            },
            PoolEvent::TornDown { interp } => {
                if key_of(interp) != key {
                    assert(after.queue(key) =~= before.queue(key));
                } else {
                    assert(after.queue(key) =~= Seq::<usize>::empty());
                }
            },
        }
        assert(deferred_for(key, events, n) =~= applied_in(key, events, applied, n) + after.queue(
            key,
        ));
    }
}

/// An attach to one interpreter leaves what is queued for every other interpreter alone.
pub proof fn attach_leaves_other_pools_alone(
    config: &BuildConfig,
    before: Pools,
    after: Pools,
    py: Python,
    decrefs: Seq<usize>,
    other: PoolKey,
)
    requires
        drained(config, before, after, py, decrefs),
        other != key_of(py.interp),
    ensures
        after.queue(other) == before.queue(other),
{
    assert(after.queue(other) =~= before.queue(other));
}

/// Asking for a pool changes no queue, and adds a pool only for a key that has none.
pub proof fn asking_for_a_pool_changes_no_queue(before: Pools, after: Pools, key: PoolKey)
    requires
        after@ == before@.insert(key, before.queue(key)),
    ensures
        forall|other: PoolKey| #[trigger] after.queue(other) == before.queue(other),
        after@.dom() == before@.dom().insert(key),
{
    assert forall|other: PoolKey| #[trigger] after.queue(other) == before.queue(other) by {
        assert(after.queue(other) =~= before.queue(other));
    }
}

/// Two keys name one pool exactly where they are equal: what is queued under one is found under
/// the other there, and nowhere else.
pub proof fn a_key_names_one_pool(
    before: Pools,
    after: Pools,
    a: PoolKey,
    b: PoolKey,
    obj: usize,
)
    requires
        after@ == before@.insert(a, before.queue(a).push(obj)),
    ensures
        after.queue(b) == if a == b {
            before.queue(b).push(obj)
        } else {
            before.queue(b)
        },
{
    assert(after.queue(b) =~= if a == b {
        before.queue(b).push(obj)
    } else {
        before.queue(b)
    });
}

/// Two interpreters never share a pool.
pub proof fn interpreters_have_pools_of_their_own(a: Interpreter, b: Interpreter)
    requires
        a.valid(),
        b.valid(),
        a.addr != b.addr,
        !(a.id == 0 && b.id == 0),
    ensures
        key_of(a) != key_of(b),
{
}

/// A thread that has a thread state owns what it drops for that thread state's interpreter,
/// whatever the home of the extension copy is: the main interpreter has the pool of its own key,
/// and every other the pool of its address. Only a build that cannot ask for the interpreter of a
/// thread state goes by the home.
pub proof fn a_thread_state_owns_what_its_thread_drops(
    config: BuildConfig,
    interp: Interpreter,
    target: ForeignTarget,
    home_id: i64,
)
    ensures
        !config.limited_api || config.py_minor >= 10 ==> owner(
            config,
            Some(interp),
            target,
            home_id,
        ) == Some(
            if interp.id == 0 {
                1usize
            } else {
                interp.addr
            },
        ),
        config.limited_api && config.py_minor < 10 ==> owner(config, Some(interp), target, home_id)
            == owner(config, None, target, home_id),
{
}

/// A thread that has no thread state owns what it drops for the home of the extension copy: for
/// the main interpreter where there is no other, and for nobody where the home is unknown or
/// gone. The build does not matter.
pub proof fn the_home_owns_what_a_foreign_thread_drops(
    config: BuildConfig,
    target: ForeignTarget,
    home_id: i64,
)
    ensures
        target is Gilstate ==> owner(config, None, target, home_id) == Some(1usize),
        target matches ForeignTarget::Home(addr) ==> owner(config, None, target, home_id) == Some(
            if home_id == 0 {
                1usize
            } else {
                addr
            },
        ),
        target is Ambiguous || target is HomeGone ==> owner(config, None, target, home_id) is None,
{
}

/// What a thread drops while it is detached is handed out by the next attach to the interpreter
/// of its thread state, and by no attach to another: the owner of the drop and the pool that the
/// attach drains are one.
pub proof fn a_drop_waits_for_its_own_interpreter(
    config: BuildConfig,
    count: AttachCount,
    dropper: Interpreter,
    target: ForeignTarget,
    home_id: i64,
    obj: usize,
    panicking: bool,
    r: DropAction,
    before: Pools,
    between: Pools,
    after: Pools,
    py: Python,
    decrefs: Seq<usize>,
)
    requires
        !config.limited_api || config.py_minor >= 10,
        config.pool is Enabled,
        !count.attached(),
        dropped(
            config,
            count,
            before,
            between,
            owner(config, Some(dropper), target, home_id),
            obj,
            panicking,
            r,
        ),
        drained(&config, between, after, py, decrefs),
        dropper.valid(),
        py.interp.valid(),
        dropper.id == 0 && py.interp.id == 0 ==> dropper.addr == py.interp.addr,
    ensures
        r == DropAction::Queued,
        py.interp.addr == dropper.addr && py.interp.id == dropper.id ==> decrefs == before.queue(
            key_of(dropper),
        ).push(obj),
        py.interp.addr != dropper.addr ==> {
            &&& decrefs == before.queue(key_of(py.interp))
            &&& after.queue(key_of(dropper)) == before.queue(key_of(dropper)).push(obj)
        },
{
    let key = key_of(dropper);
    assert(owner(config, Some(dropper), target, home_id) == Some(key));
    assert(between.queue(key) =~= before.queue(key).push(obj));
    if py.interp.addr != dropper.addr {
        let other = key_of(py.interp);
        assert(other != key);
        assert(between.queue(other) =~= before.queue(other));
        assert(after.queue(key) =~= between.queue(key));
    }
}

/// A dropped reference is decref'd exactly where the thread is attached, and then it is not
/// queued. Else a build with pools queues it, once and for its owner alone; where the owner is
/// unknown it is reported, by a panic unless the thread is panicking already, and never silently
/// lost. Nothing else of what is queued changes.
pub proof fn a_dropped_reference_is_released_or_reported(
    config: BuildConfig,
    count: AttachCount,
    before: Pools,
    after: Pools,
    owner: Option<PoolKey>,
    obj: usize,
    panicking: bool,
    r: DropAction,
    other: PoolKey,
)
    requires
        dropped(config, count, before, after, owner, obj, panicking, r),
    ensures
        r is Decref <==> (count.cell matches Some(current) && current >= 1),
        r is Queued <==> !(r is Decref) && config.pool is Enabled && owner is Some,
        r is Queued ==> after.queue(other) == if owner == Some(other) {
            before.queue(other).push(obj)
        } else {
            before.queue(other)
        },
        !(r is Queued) ==> after == before,
        !(r is Decref) && config.pool is Enabled && owner is None ==> if panicking {
            r matches DropAction::LeakLoudly(message) && message@ == UNKNOWN_OWNER_LEAKED@
        } else {
            r matches DropAction::Panic(message) && message@ == UNKNOWN_OWNER@
        },
        !(r is Decref) && config.pool is Disabled ==> (r matches DropAction::Abort(message)
            && message@ == DROPPED_WITHOUT_POOL@),
        r is Leak <==> !(r is Decref) && config.pool is LeakOnDrop,
{
    if r is Queued {
        assert(after.queue(other) =~= if owner == Some(other) {
            before.queue(other).push(obj)
        } else {
            before.queue(other)
        });
    }
}

/// A build without pools queues nothing and hands nothing out.
pub proof fn a_build_without_pools_hands_nothing_out(
    config: BuildConfig,
    before: Pools,
    after: Pools,
    py: Python,
    decrefs: Seq<usize>,
)
    requires
        config.pool is Disabled || config.pool is LeakOnDrop,
        drained(&config, before, after, py, decrefs),
    ensures
        decrefs.len() == 0,
        after == before,
{
}

} // verus!
