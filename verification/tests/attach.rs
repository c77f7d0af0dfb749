//! Attaching, detaching, and the references dropped in between.
//!
//! The tests stand in for CPython: they answer what a thread asks, and keep the reference
//! counts of a handful of objects.

use std::collections::HashMap;
use subinterp::config::{BuildConfig, PoolMode};
use subinterp::internal::home::{ForeignTarget, HomeState};
use subinterp::internal::pool::{
    owner_now, pool_key, register_decref, unknown_owner, DropAction, PoolCache, PoolKey, Pools,
    DROPPED_WITHOUT_POOL, MAIN_POOL, UNKNOWN_OWNER, UNKNOWN_OWNER_LEAKED,
};
use subinterp::internal::state::{
    attach_count_cell, current_interpreter_or_null, decrement_attach_count,
    drop_deferred_references, increment_attach_count, is_in_gc_traversal, thread_is_attached,
    AssumeAttached, Attach, AttachAnswer, AttachCount, AttachError, AttachGuard, AttachPlan,
    DetachAction, ForbidAttaching, SuspendAttach, TryAttach, AMBIGUOUS_INTERPRETER,
    CURRENTLY_PROHIBITED, FINALIZING, FORBIDDEN_DURING_TRAVERSE, HOME_INTERPRETER_GONE,
};
use subinterp::marker::{Interpreter, Python};

const MAIN: Interpreter = Interpreter { addr: 0x1000, id: 0 };
const SUB: Interpreter = Interpreter { addr: 0x2000, id: 1 };

fn config(py_minor: u32) -> BuildConfig {
    BuildConfig {
        py_minor,
        limited_api: false,
        gil_disabled: false,
        windows: false,
        alternative_impl: false,
        pool: PoolMode::Enabled,
    }
}

/// The process: its pools, its objects' reference counts, and what it says of itself.
struct World {
    config: BuildConfig,
    pools: Pools,
    home: HomeState,
    refs: HashMap<usize, isize>,
    initialized: bool,
    finalizing: bool,
}

impl World {
    fn new() -> Self {
        World {
            config: config(14),
            pools: Pools::new(),
            home: HomeState::new(),
            refs: HashMap::new(),
            initialized: true,
            finalizing: false,
        }
    }

    fn object(&mut self, obj: usize) -> usize {
        self.refs.insert(obj, 1);
        obj
    }

    fn clone_ref(&mut self, obj: usize) -> usize {
        *self.refs.get_mut(&obj).unwrap() += 1;
        obj
    }

    fn refcnt(&self, obj: usize) -> isize {
        self.refs[&obj]
    }

    fn apply(&mut self, decrefs: Vec<usize>) {
        for obj in decrefs {
            *self.refs.get_mut(&obj).unwrap() -= 1;
        }
    }

    fn id_of(&self, addr: usize) -> i64 {
        if addr == MAIN.addr {
            0
        } else {
            1
        }
    }
}

/// A thread: its count, its cache, and the interpreter of its thread state.
struct Thread {
    count: AttachCount,
    cache: PoolCache,
    state: Option<Interpreter>,
    current: Option<Interpreter>,
}

impl Thread {
    fn new(state: Option<Interpreter>) -> Self {
        Thread {
            count: AttachCount { cell: Some(0) },
            cache: PoolCache::new(),
            state,
            current: None,
        }
    }

    fn outcome(&self, world: &World) -> Result<AttachPlan, AttachError> {
        let mut step = AttachGuard::try_attach(&self.count);
        for _ in 0..5 {
            let answer = match step {
                TryAttach::IsInitialized => AttachAnswer::Flag(world.initialized),
                TryAttach::WaitForInitialization => AttachAnswer::Waited,
                TryAttach::IsFinalizing => AttachAnswer::Flag(world.finalizing),
                TryAttach::HasThreadState => AttachAnswer::Flag(self.state.is_some()),
                TryAttach::ForeignTarget => AttachAnswer::Target(world.home.foreign_target()),
                TryAttach::Decided(outcome) => return outcome,
            };
            step = step.next(&world.config, answer);
        }
        match step {
            TryAttach::Decided(outcome) => outcome,
            _ => unreachable!(),
        }
    }

    fn by(&mut self, world: &mut World, plan: AttachPlan) -> AttachGuard {
        let (guard, decrefs) = match plan {
            AttachPlan::Assume => {
                let py = Python { interp: self.current.unwrap() };
                AttachGuard::assume_attached(
                    &world.config,
                    &mut self.count,
                    &mut world.pools,
                    &mut self.cache,
                    py,
                )
            }
            AttachPlan::Ensure => {
                let interp = self.state.unwrap_or(MAIN);
                self.current = Some(interp);
                AttachGuard::do_attach_unchecked(
                    &world.config,
                    1,
                    &mut self.count,
                    &mut world.pools,
                    &mut self.cache,
                    Python { interp },
                )
            }
            AttachPlan::Home(addr) => {
                let interp = Interpreter { addr, id: world.id_of(addr) };
                self.current = Some(interp);
                AttachGuard::attached_home(
                    &world.config,
                    0x7700,
                    &mut self.count,
                    &mut world.pools,
                    &mut self.cache,
                    Python { interp },
                )
            }
        };
        world.apply(decrefs);
        guard
    }

    fn attach(&mut self, world: &mut World) -> AttachGuard {
        match AttachGuard::attach(self.outcome(world)) {
            Attach::By(plan) => self.by(world, plan),
            Attach::InitializeFirst => {
                world.initialized = true;
                self.by(world, AttachPlan::Ensure)
            }
            Attach::Panic(message) => panic!("{}", message),
        }
    }

    fn release(&mut self, guard: AttachGuard) {
        match guard.detach_action() {
            DetachAction::Nothing => {}
            DetachAction::ReleaseGil(_) | DetachAction::DetachHome(_) => self.current = None,
        }
        guard.release(&mut self.count);
    }

    /// Drops a reference on this thread.
    fn drop_ref(&mut self, world: &mut World, obj: usize, panicking: bool) -> DropAction {
        let target = world.home.foreign_target();
        let home_id = match target {
            ForeignTarget::Home(addr) => world.id_of(addr),
            _ => 0,
        };
        let owner = owner_now(&world.config, self.state, target, home_id);
        let action =
            register_decref(&world.config, &self.count, &mut world.pools, owner, obj, panicking);
        if action == DropAction::Decref {
            world.apply(vec![obj]);
        }
        action
    }

    fn pool_of_now(&self, world: &World) -> PoolKey {
        owner_now(&world.config, self.state, world.home.foreign_target(), 0).unwrap()
    }

    fn pool_contains(&self, world: &mut World, obj: usize) -> bool {
        let key = self.pool_of_now(world);
        world.pools.get_pool(key).contains(obj)
    }
}

#[test]
fn test_pyobject_drop_attached_decreases_refcnt() {
    let mut world = World::new();
    let mut thread = Thread::new(Some(MAIN));
    let guard = thread.attach(&mut world);
    let obj = world.object(0xa0);

    // Create a reference to drop while attached.
    let reference = world.clone_ref(obj);

    assert_eq!(world.refcnt(obj), 2);
    assert!(!thread.pool_contains(&mut world, obj));

    // While attached, reference count will be decreased immediately.
    assert_eq!(thread.drop_ref(&mut world, reference, false), DropAction::Decref);

    assert_eq!(world.refcnt(obj), 1);
    assert!(!thread.pool_contains(&mut world, obj));
    thread.release(guard);
}

#[test]
fn test_pyobject_drop_detached_doesnt_decrease_refcnt() {
    let mut world = World::new();
    let mut thread = Thread::new(Some(MAIN));
    let guard = thread.attach(&mut world);
    let obj = world.object(0xa0);
    let reference = world.clone_ref(obj);

    assert_eq!(world.refcnt(obj), 2);
    assert!(!thread.pool_contains(&mut world, obj));

    // Drop reference on a separate (detached) thread.
    let mut other = Thread::new(None);
    assert_eq!(other.drop_ref(&mut world, reference, false), DropAction::Queued);

    // The reference count should not have changed, it is remembered to release later.
    assert_eq!(world.refcnt(obj), 2);
    assert!(thread.pool_contains(&mut world, obj));
    thread.release(guard);

    // On next attach, the reference is released
    let guard = thread.attach(&mut world);
    assert_eq!(world.refcnt(obj), 1);
    assert!(!thread.pool_contains(&mut world, obj));
    thread.release(guard);
}

#[test]
fn test_attach_counts() {
    // Check `attach` and AttachGuard both increase counts correctly
    let mut world = World::new();
    let mut thread = Thread::new(Some(MAIN));
    let get_attach_count = |thread: &Thread| thread.count.cell.unwrap();

    assert_eq!(get_attach_count(&thread), 0);
    let outer = thread.attach(&mut world);
    {
        assert_eq!(get_attach_count(&thread), 1);

        let pool = thread.by(&mut world, AttachPlan::Assume);
        assert_eq!(get_attach_count(&thread), 2);

        let pool2 = thread.by(&mut world, AttachPlan::Assume);
        assert_eq!(get_attach_count(&thread), 3);

        thread.release(pool);
        assert_eq!(get_attach_count(&thread), 2);

        let nested = thread.attach(&mut world);
        // nested `attach` updates attach count
        assert_eq!(get_attach_count(&thread), 3);
        thread.release(nested);
        assert_eq!(get_attach_count(&thread), 2);

        thread.release(pool2);
        assert_eq!(get_attach_count(&thread), 1);
    }
    thread.release(outer);
    assert_eq!(get_attach_count(&thread), 0);
}

#[test]
fn test_detach() {
    let mut world = World::new();
    let mut thread = Thread::new(Some(MAIN));
    assert!(!thread_is_attached(&thread.count));

    let guard = thread.attach(&mut world);
    assert!(thread_is_attached(&thread.count));

    let suspended = SuspendAttach::new(&mut thread.count).saved_thread(0x5500);
    thread.current = None;
    assert!(!thread_is_attached(&thread.count));

    let inner = thread.attach(&mut world);
    assert!(thread_is_attached(&thread.count));
    thread.release(inner);

    assert!(!thread_is_attached(&thread.count));

    // dropped while detached: queued
    let obj = world.object(0xa0);
    assert_eq!(thread.drop_ref(&mut world, obj, false), DropAction::Queued);

    // the thread state comes back for `PyEval_RestoreThread`, and the decrefs after it
    let resume = suspended.release(&mut thread.count);
    assert_eq!(resume.tstate(), 0x5500);
    thread.current = Some(MAIN);
    let decrefs = resume.restored(
        &world.config,
        &mut world.pools,
        &mut thread.cache,
        Python { interp: MAIN },
    );
    assert_eq!(decrefs, vec![obj]);
    assert!(!thread.pool_contains(&mut world, obj));
    assert!(thread_is_attached(&thread.count));

    thread.release(guard);
    assert!(!thread_is_attached(&thread.count));
}

#[test]
fn recursive_attach_ok() {
    let mut world = World::new();
    let mut thread = Thread::new(Some(MAIN));
    let outer = thread.attach(&mut world);
    let inner = thread.attach(&mut world);
    assert_eq!(inner, AttachGuard::Assumed { counted: true });
    let obj = world.object(0xa0);
    thread.release(inner);
    assert_eq!(world.refcnt(obj), 1);
    assert!(thread_is_attached(&thread.count));
    thread.release(outer);
}

#[test]
fn test_detached_drop_is_collected_on_next_attach() {
    let mut world = World::new();
    let mut thread = Thread::new(Some(MAIN));
    let obj = world.object(0xa0);
    let count = world.refcnt(obj);
    let ptr = world.clone_ref(obj);

    // A decref registered while detached applies once an attach drains the pool.
    let owner = Some(thread.pool_of_now(&world));
    assert_eq!(world.pools.defer_decref(owner, ptr, false), DropAction::Queued);

    let guard = thread.attach(&mut world);
    assert_eq!(count, world.refcnt(obj));
    thread.release(guard);
}

#[test]
fn test_drop_deferred_references_does_not_deadlock() {
    // Applying a decref can run arbitrary code, which may drain the pool again. The decrefs are
    // handed out before the first of them is applied, so the inner drain finds nothing.
    let mut world = World::new();
    let mut thread = Thread::new(Some(MAIN));
    let guard = thread.attach(&mut world);
    let capsule = world.object(0xc0);
    let owner = Some(thread.pool_of_now(&world));
    world.pools.defer_decref(owner, capsule, false);

    let decrefs = world.pools.drop_deferred_references(&mut thread.cache, MAIN);
    assert_eq!(decrefs, vec![capsule]);
    for obj in decrefs {
        // the destructor of the capsule
        let inner = thread.by(&mut world, AttachPlan::Assume);
        world.apply(vec![obj]);
        thread.release(inner);
    }
    assert_eq!(world.refcnt(capsule), 0);
    thread.release(guard);
}

#[test]
fn test_attach_guard_drop_deferred_references() {
    let mut world = World::new();
    let mut thread = Thread::new(Some(MAIN));
    let outer = thread.attach(&mut world);
    let obj = world.object(0xa0);
    let owner = Some(thread.pool_of_now(&world));

    // For AttachGuard::attach
    let reference = world.clone_ref(obj);
    world.pools.defer_decref(owner, reference, false);
    assert!(thread.pool_contains(&mut world, obj));
    let guard = thread.attach(&mut world);
    assert!(!thread.pool_contains(&mut world, obj));

    // For AttachGuard::assume_attached
    let reference = world.clone_ref(obj);
    world.pools.defer_decref(owner, reference, false);
    assert!(thread.pool_contains(&mut world, obj));
    let guard2 = thread.by(&mut world, AttachPlan::Assume);
    assert!(!thread.pool_contains(&mut world, obj));

    assert_eq!(world.refcnt(obj), 1);
    thread.release(guard2);
    thread.release(guard);
    thread.release(outer);
}

#[test]
fn deferred_decref_is_applied_by_its_own_interpreter_only() {
    let mut world = World::new();
    let mut sub = Thread::new(Some(SUB));
    let guard = sub.attach(&mut world);
    let obj = world.object(0xa0);
    let extra = world.clone_ref(obj);
    let before = world.refcnt(obj);

    let suspended = SuspendAttach::new(&mut sub.count).saved_thread(0x5500);
    // detached: queued, not applied
    assert_eq!(sub.drop_ref(&mut world, extra, false), DropAction::Queued);

    // another thread attaches to the main interpreter meanwhile
    let mut main = Thread::new(Some(MAIN));
    let main_guard = main.attach(&mut world);
    main.release(main_guard);
    assert_eq!(world.refcnt(obj), before);

    let decrefs = suspended.release(&mut sub.count).restored(
        &world.config,
        &mut world.pools,
        &mut sub.cache,
        Python { interp: SUB },
    );
    assert_eq!(decrefs, vec![obj]);
    world.apply(decrefs);
    assert_eq!(world.refcnt(obj), before - 1);
    sub.release(guard);
}

#[test]
fn foreign_thread_attach_lands_in_the_home_interpreter() {
    let mut world = World::new();
    world.home.note_module_exec(SUB.addr, false);

    // a thread that has never had a Python thread state
    let mut worker = Thread::new(None);
    assert_eq!(worker.outcome(&world), Ok(AttachPlan::Home(SUB.addr)));
    let guard = worker.attach(&mut world);
    assert_eq!(worker.current, Some(SUB));
    assert_eq!(guard, AttachGuard::Home { tstate: 0x7700 });
    assert_eq!(guard.detach_action(), DetachAction::DetachHome(0x7700));
    worker.release(guard);
    assert_eq!(worker.count, AttachCount { cell: Some(0) });

    // dropped on such a thread: queued for the home interpreter, and applied at its teardown
    let flag = world.object(0xf0);
    assert_eq!(worker.drop_ref(&mut world, flag, false), DropAction::Queued);
    assert_eq!(world.refcnt(flag), 1);
    world.home.on_interpreter_teardown(SUB.addr);
    let decrefs = world.pools.drain_pool_on_teardown(SUB).unwrap();
    assert_eq!(decrefs, vec![flag]);
    world.apply(decrefs);
    assert_eq!(world.refcnt(flag), 0);
    assert!(world.pools.drain_pool_on_teardown(SUB).is_none());
}

#[test]
fn an_ambiguous_attach_and_drop_fail_loudly() {
    let mut world = World::new();
    world.home.note_module_exec(MAIN.addr, true);
    world.home.note_module_exec(SUB.addr, false);
    let mut worker = Thread::new(None);

    let outcome = worker.outcome(&world);
    assert_eq!(outcome, Err(AttachError::AmbiguousInterpreter));
    assert_eq!(AttachGuard::attach(outcome), Attach::Panic(AMBIGUOUS_INTERPRETER));
    assert!(AMBIGUOUS_INTERPRETER.contains("more than one interpreter"));

    let obj = world.object(0xa0);
    assert_eq!(worker.drop_ref(&mut world, obj, false), DropAction::Panic(UNKNOWN_OWNER));
    assert!(UNKNOWN_OWNER.contains("cannot tell which interpreter owns"));
    // a second panic would abort the process
    assert_eq!(
        worker.drop_ref(&mut world, obj, true),
        DropAction::LeakLoudly(UNKNOWN_OWNER_LEAKED)
    );
    assert_eq!(
        UNKNOWN_OWNER_LEAKED,
        format!("{} (this thread is already panicking, so the object is leaked)", UNKNOWN_OWNER)
    );
    assert_eq!(world.refcnt(obj), 1);

    // a thread with a thread state is not affected
    let sub = Thread::new(Some(SUB));
    assert_eq!(sub.outcome(&world), Ok(AttachPlan::Ensure));
}

#[test]
fn a_gone_home_fails_loudly() {
    let mut world = World::new();
    world.home.note_module_exec(SUB.addr, false);
    world.home.on_interpreter_teardown(SUB.addr);
    let mut worker = Thread::new(None);
    let outcome = worker.outcome(&world);
    assert_eq!(outcome, Err(AttachError::HomeGone));
    assert_eq!(AttachGuard::attach(outcome), Attach::Panic(HOME_INTERPRETER_GONE));
    assert_eq!(worker.drop_ref(&mut world, 0xa0, false), DropAction::Panic(UNKNOWN_OWNER));
}

#[test]
fn attach_errors_and_their_messages() {
    let mut world = World::new();
    let mut thread = Thread::new(Some(MAIN));

    world.finalizing = true;
    assert_eq!(thread.outcome(&world), Err(AttachError::Finalizing));
    assert_eq!(AttachGuard::attach(Err(AttachError::Finalizing)), Attach::Panic(FINALIZING));
    // before Python 3.13 a thread cannot ask
    world.config = config(12);
    assert_eq!(thread.outcome(&world), Ok(AttachPlan::Ensure));
    world.config = config(13);
    assert_eq!(thread.outcome(&world), Err(AttachError::Finalizing));
    world.finalizing = false;

    world.initialized = false;
    assert_eq!(thread.outcome(&world), Err(AttachError::NotInitialized));
    assert_eq!(
        AttachGuard::attach(Err(AttachError::NotInitialized)),
        Attach::InitializeFirst
    );
    let guard = thread.attach(&mut world);
    assert_eq!(guard, AttachGuard::Ensured { gstate: 1 });
    assert_eq!(guard.detach_action(), DetachAction::ReleaseGil(1));
    thread.release(guard);

    let lock = ForbidAttaching::during_traverse(&mut thread.count);
    assert!(is_in_gc_traversal(&thread.count));
    assert_eq!(thread.outcome(&world), Err(AttachError::ForbiddenDuringTraverse));
    assert_eq!(
        AttachGuard::attach(Err(AttachError::ForbiddenDuringTraverse)),
        Attach::Panic(FORBIDDEN_DURING_TRAVERSE)
    );
    assert_eq!(ForbidAttaching::bail(-1), FORBIDDEN_DURING_TRAVERSE);
    assert_eq!(ForbidAttaching::bail(-2), CURRENTLY_PROHIBITED);
    lock.release(&mut thread.count);
    assert_eq!(thread.count, AttachCount { cell: Some(0) });
    assert!(!is_in_gc_traversal(&thread.count));
}

#[test]
fn a_lock_gives_the_count_back() {
    let mut count = AttachCount { cell: Some(3) };
    let lock = ForbidAttaching::during_traverse(&mut count);
    assert_eq!(count, AttachCount { cell: Some(-1) });
    assert!(!thread_is_attached(&count));
    lock.release(&mut count);
    assert_eq!(count, AttachCount { cell: Some(3) });
}

#[test]
fn a_step_ignores_an_answer_to_another() {
    let config = config(14);
    let step = TryAttach::IsInitialized;
    assert_eq!(step.next(&config, AttachAnswer::Waited), TryAttach::IsInitialized);
    let decided = TryAttach::Decided(Ok(AttachPlan::Ensure));
    assert_eq!(decided.next(&config, AttachAnswer::Flag(true)), decided);
}

#[test]
fn unchecked_attach_takes_the_fast_path() {
    assert_eq!(
        AttachGuard::attach_unchecked(&AttachCount { cell: Some(2) }),
        AttachPlan::Assume
    );
    assert_eq!(
        AttachGuard::attach_unchecked(&AttachCount { cell: Some(0) }),
        AttachPlan::Ensure
    );
    assert_eq!(AttachGuard::attach_unchecked(&AttachCount { cell: None }), AttachPlan::Ensure);
}

#[test]
fn a_thread_without_a_count_is_left_alone() {
    let mut world = World::new();
    let mut thread = Thread::new(Some(MAIN));
    thread.count = AttachCount { cell: None };
    thread.current = Some(MAIN);
    assert!(!attach_count_cell(&thread.count));
    let guard = thread.by(&mut world, AttachPlan::Assume);
    assert_eq!(guard, AttachGuard::Assumed { counted: false });
    assert_eq!(thread.count, AttachCount { cell: None });
    thread.release(guard);
    assert_eq!(thread.count, AttachCount { cell: None });
    increment_attach_count(&mut thread.count);
    decrement_attach_count(&mut thread.count);
    assert_eq!(thread.count, AttachCount { cell: None });
}

#[test]
fn a_marked_callback_decrefs_at_once() {
    let mut world = World::new();
    let mut thread = Thread::new(Some(SUB));
    let obj = world.object(0xa0);
    let guard = AssumeAttached::new(&mut thread.count);
    assert_eq!(thread.drop_ref(&mut world, obj, false), DropAction::Decref);
    guard.release(&mut thread.count);
    assert_eq!(world.refcnt(obj), 0);
    assert_eq!(thread.count, AttachCount { cell: Some(0) });
}

#[test]
fn a_marked_callback_drains_no_pool() {
    let mut world = World::new();
    let mut thread = Thread::new(Some(SUB));
    let obj = world.object(0xa0);
    thread.drop_ref(&mut world, obj, false);
    let guard = AssumeAttached::new(&mut thread.count);
    assert!(thread.pool_contains(&mut world, obj));
    guard.release(&mut thread.count);
}

#[test]
fn builds_without_a_pool() {
    let mut world = World::new();
    let mut thread = Thread::new(None);
    let obj = world.object(0xa0);
    world.config.pool = PoolMode::Disabled;
    assert_eq!(
        thread.drop_ref(&mut world, obj, false),
        DropAction::Abort(DROPPED_WITHOUT_POOL)
    );
    world.config.pool = PoolMode::LeakOnDrop;
    assert_eq!(thread.drop_ref(&mut world, obj, false), DropAction::Leak);
    assert_eq!(world.refcnt(obj), 1);
    let decrefs = drop_deferred_references(
        &world.config,
        &mut world.pools,
        &mut thread.cache,
        Python { interp: MAIN },
    );
    assert_eq!(decrefs, Vec::<usize>::new());
}

#[test]
fn unknown_owners() {
    assert_eq!(unknown_owner(false), DropAction::Panic(UNKNOWN_OWNER));
    assert_eq!(unknown_owner(true), DropAction::LeakLoudly(UNKNOWN_OWNER_LEAKED));
}

#[test]
fn the_owner_of_a_drop() {
    let full = config(9);
    let mut limited = config(9);
    limited.limited_api = true;
    let target = ForeignTarget::Home(SUB.addr);
    assert_eq!(owner_now(&full, Some(SUB), ForeignTarget::Ambiguous, 0), Some(SUB.addr));
    assert_eq!(owner_now(&full, Some(MAIN), target, 1), Some(MAIN_POOL));
    // the limited API of Python 3.9 cannot ask for a thread state's interpreter
    assert_eq!(owner_now(&limited, Some(MAIN), target, 1), Some(SUB.addr));
    limited.py_minor = 10;
    assert_eq!(owner_now(&limited, Some(MAIN), target, 1), Some(MAIN_POOL));
    assert_eq!(owner_now(&full, None, ForeignTarget::Gilstate, 0), Some(MAIN_POOL));
    assert_eq!(owner_now(&full, None, ForeignTarget::Home(MAIN.addr), 0), Some(MAIN_POOL));
    assert_eq!(owner_now(&full, None, ForeignTarget::Ambiguous, 0), None);
    assert_eq!(owner_now(&full, None, ForeignTarget::HomeGone, 0), None);
}

#[test]
fn interpreters_have_distinct_pools() {
    assert_eq!(pool_key(MAIN), MAIN_POOL);
    assert_eq!(pool_key(SUB), SUB.addr);
    assert_ne!(pool_key(MAIN), pool_key(SUB));
}

#[test]
fn the_gilstate_interpreter() {
    let full = config(14);
    let mut limited = config(9);
    limited.limited_api = true;
    assert_eq!(current_interpreter_or_null(&full, 0x55, 0x2000), 0x2000);
    assert_eq!(current_interpreter_or_null(&full, 0, 0x2000), 0);
    assert_eq!(current_interpreter_or_null(&limited, 0x55, 0x2000), 0);
    limited.py_minor = 10;
    assert_eq!(current_interpreter_or_null(&limited, 0x55, 0x2000), 0x2000);
}

#[test]
fn guards_are_counted_from_any_start() {
    let mut world = World::new();
    let mut thread = Thread::new(Some(MAIN));
    thread.count = AttachCount { cell: Some(2) };
    thread.current = Some(MAIN);
    let first = thread.attach(&mut world);
    let second = thread.attach(&mut world);
    assert_eq!(thread.count, AttachCount { cell: Some(4) });
    thread.release(first);
    assert_eq!(thread.count, AttachCount { cell: Some(3) });
    thread.release(second);
    assert_eq!(thread.count, AttachCount { cell: Some(2) });
    assert!(thread_is_attached(&thread.count));
}
