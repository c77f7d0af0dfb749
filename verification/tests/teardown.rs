//! The teardown hook, and what a teardown does.

use std::collections::HashMap;
use subinterp::internal::home::{ForeignTarget, HomeState};
use subinterp::internal::pool::Pools;
use subinterp::internal::state::AttachCount;
use subinterp::marker::Interpreter;
use subinterp::sync::per_interpreter::{PerInterpreterCell, Registries, RegistryCache};
use subinterp::sync::teardown::{
    register_teardown_hook, teardown, HookCall, HookStep, Hooks, TeardownCall, COLLECT_PASSES,
};

const DICT: usize = 0xd1c7;
const GC: usize = 0x6c;
const COLLECT: usize = 0xc011;
const ATEXIT: usize = 0xa7;
const FUNCTION: usize = 0xf0;
const NAME: usize = 0x4a;
const RESULT: usize = 0x4e;

/// Runs a registration. The answers are by call; a call that is not listed fails.
fn register(answers: &[(HookCall, usize)]) -> (Vec<HookCall>, HookStep, HashMap<usize, isize>) {
    let mut step = register_teardown_hook(DICT);
    let mut calls = Vec::new();
    let mut refs: HashMap<usize, isize> = HashMap::new();
    while step.next_call() != HookCall::Done {
        let call = step.next_call();
        calls.push(call);
        let mut answer: usize = 0;
        for (asked, given) in answers {
            if *asked == call {
                answer = *given;
            }
        }
        match call {
            HookCall::ImportGc
            | HookCall::GetCollect
            | HookCall::ImportAtexit
            | HookCall::NewFunction
            | HookCall::NewName
            | HookCall::CallRegister => {
                if answer != 0 {
                    *refs.entry(answer).or_insert(0) += 1;
                }
            }
            HookCall::ReleaseGc => *refs.get_mut(&step.gc).unwrap() -= 1,
            HookCall::ReleaseResult => *refs.get_mut(&step.result).unwrap() -= 1,
            HookCall::ReleaseName => {
                if step.name != 0 {
                    *refs.get_mut(&step.name).unwrap() -= 1;
                }
            }
            HookCall::ReleaseCallable => *refs.get_mut(&step.callable).unwrap() -= 1,
            HookCall::ReleaseAtexit => *refs.get_mut(&step.atexit).unwrap() -= 1,
            HookCall::ReleaseCollect => {
                if step.collect != 0 {
                    *refs.get_mut(&step.collect).unwrap() -= 1;
                }
            }
            _ => {}
        }
        step = step.next(answer);
    }
    (calls, step, refs)
}

const ALL: [(HookCall, usize); 7] = [
    (HookCall::ImportGc, GC),
    (HookCall::GetCollect, COLLECT),
    (HookCall::ImportAtexit, ATEXIT),
    (HookCall::NewFunction, FUNCTION),
    (HookCall::NewName, NAME),
    (HookCall::CallRegister, RESULT),
    (HookCall::StoreHook, 1),
];

#[test]
fn the_hook_is_registered_with_atexit() {
    let (calls, end, refs) = register(&ALL);
    assert_eq!(
        calls,
        vec![
            HookCall::HasHook,
            HookCall::ImportGc,
            HookCall::GetCollect,
            HookCall::ReleaseGc,
            HookCall::ImportAtexit,
            HookCall::NewFunction,
            HookCall::NewName,
            HookCall::CallRegister,
            HookCall::ReleaseResult,
            HookCall::ReleaseName,
            HookCall::StoreHook,
            HookCall::ReleaseCallable,
            HookCall::ReleaseAtexit,
        ]
    );
    assert!(end.registered);
    assert_eq!(end.collect, COLLECT);
    // only the function that collects is kept
    for (obj, count) in refs {
        assert_eq!(count, if obj == COLLECT { 1 } else { 0 });
    }
}

#[test]
fn a_second_registration_does_nothing() {
    let (calls, end, _) = register(&[(HookCall::HasHook, FUNCTION)]);
    assert_eq!(calls, vec![HookCall::HasHook]);
    assert!(!end.registered);
    assert_eq!(end.collect, 0);
}

#[test]
fn a_failed_registration_leaks_nothing() {
    for failing in [
        HookCall::ImportGc,
        HookCall::GetCollect,
        HookCall::ImportAtexit,
        HookCall::NewFunction,
        HookCall::NewName,
        HookCall::CallRegister,
        HookCall::StoreHook,
    ] {
        let answers: Vec<(HookCall, usize)> =
            ALL.iter().filter(|(call, _)| *call != failing).copied().collect();
        let (calls, end, refs) = register(&answers);
        let optional = failing == HookCall::ImportGc
            || failing == HookCall::GetCollect
            || failing == HookCall::NewName
            || failing == HookCall::StoreHook;
        assert_eq!(end.registered, optional);
        // the mark says that the hook is registered, so a failed attempt leaves none
        assert_eq!(calls.contains(&HookCall::StoreHook), end.registered);
        let kept = end.registered && failing != HookCall::ImportGc && failing != HookCall::GetCollect;
        assert_eq!(end.collect, if kept { COLLECT } else { 0 });
        for (obj, count) in refs {
            assert_eq!(count, if obj == COLLECT && kept { 1 } else { 0 });
        }
        // a null name is cleared by the call that it makes fail
        assert_eq!(calls.contains(&HookCall::ClearError), failing != HookCall::NewName);
    }
}

#[test]
fn a_failed_registration_can_be_tried_again() {
    let answers: Vec<(HookCall, usize)> =
        ALL.iter().filter(|(call, _)| *call != HookCall::CallRegister).copied().collect();
    let (calls, end, _) = register(&answers);
    assert_eq!(
        &calls[7..],
        &[
            HookCall::CallRegister,
            HookCall::ClearError,
            HookCall::ReleaseName,
            HookCall::ReleaseCallable,
            HookCall::ReleaseAtexit,
            HookCall::ReleaseCollect,
        ]
    );
    assert!(!calls.contains(&HookCall::StoreHook));
    assert!(!end.registered);
    // no mark is found, and `atexit` takes the hook now
    assert!(register(&ALL).1.registered);
}

#[test]
fn the_stored_functions_are_per_interpreter() {
    let mut hooks = Hooks::new();
    hooks.store(0x1000, 0xc1);
    hooks.store(0x2000, 0xc2);
    hooks.store(0x3000, 0xc3);
    // the address of an interpreter that never ran its hook is reused
    hooks.store(0x2000, 0xc4);
    assert_eq!(hooks.take(0x1000), Some(0xc1));
    assert_eq!(hooks.take(0x1000), None);
    assert_eq!(hooks.take(0x3000), Some(0xc3));
    assert_eq!(hooks.take(0x2000), Some(0xc4));
    assert_eq!(hooks.take(0x4000), None);
}

/// What a teardown did.
struct Ended {
    calls: Vec<TeardownCall>,
    target: ForeignTarget,
    released: Vec<usize>,
    applied: Vec<usize>,
    collects: usize,
}

const SUB: Interpreter = Interpreter { addr: 0x2000, id: 1 };

/// Ends an interpreter that has one value and one queued decref. `dict` and `results` are what
/// CPython answers.
fn end_interpreter(dict: usize, stored: bool, results: &[usize]) -> Ended {
    let mut registries: Registries<usize> = Registries::new();
    let mut cache = RegistryCache::new();
    let mut cell: PerInterpreterCell<usize> = PerInterpreterCell::new();
    let mut pools = Pools::new();
    let mut home = HomeState::new();
    let mut hooks = Hooks::new();
    let mut count = AttachCount { cell: Some(0) };
    home.note_module_exec(SUB.addr, false);
    cell.get_or_init(&mut registries, &mut cache, SUB.addr, true, || 0x77);
    pools.defer_decref(Some(SUB.addr), 0x88, false);
    if stored {
        hooks.store(SUB.addr, COLLECT);
    }

    let collect = hooks.take(SUB.addr).unwrap_or(0);
    let (guard, mut step) = teardown(&mut count, collect);
    assert_eq!(count, AttachCount { cell: Some(1) });
    let mut ended = Ended {
        calls: Vec::new(),
        target: ForeignTarget::Gilstate,
        released: Vec::new(),
        applied: Vec::new(),
        collects: 0,
    };
    loop {
        let call = step.next_call();
        ended.calls.push(call);
        let answer = match call {
            TeardownCall::ForgetHome => {
                step = step.forget_home(&mut home, SUB);
                continue;
            }
            TeardownCall::GetDict => dict,
            TeardownCall::DeleteRegistry => match registries.drop_registry(&mut count, SUB.addr) {
                Some((marked, values)) => {
                    ended.released.extend(values);
                    marked.release(&mut count);
                    1
                }
                None => 0,
            },
            TeardownCall::DrainPool => {
                let (next, decrefs) = step.drain_pool(&mut pools, SUB);
                ended.applied.extend(decrefs);
                step = next;
                continue;
            }
            TeardownCall::Collect => {
                assert_eq!(step.collect, COLLECT);
                ended.collects += 1;
                results[ended.collects - 1]
            }
            TeardownCall::ReleaseResult
            | TeardownCall::ReleaseCollect
            | TeardownCall::ClearError => 0,
            TeardownCall::ReturnNone => break,
        };
        step = step.next(answer);
    }
    guard.release(&mut count);
    assert_eq!(count, AttachCount { cell: Some(0) });
    assert!(cell.get(&mut registries, &mut cache, SUB.addr).is_none() || dict == 0);
    ended.target = home.foreign_target();
    ended
}

#[test]
fn teardown_imports_nothing() {
    let ended = end_interpreter(DICT, true, &[1, 1, 1]);
    // the function was looked up when the hook was registered; none of these is an import
    assert_eq!(
        ended.calls,
        vec![
            TeardownCall::ForgetHome,
            TeardownCall::GetDict,
            TeardownCall::DeleteRegistry,
            TeardownCall::DrainPool,
            TeardownCall::DrainPool,
            TeardownCall::Collect,
            TeardownCall::ReleaseResult,
            TeardownCall::Collect,
            TeardownCall::ReleaseResult,
            TeardownCall::Collect,
            TeardownCall::ReleaseResult,
            TeardownCall::ReleaseCollect,
            TeardownCall::ReturnNone,
        ]
    );
}

#[test]
fn teardown_releases_applies_and_collects() {
    let ended = end_interpreter(DICT, true, &[1, 1, 1]);
    assert_eq!(ended.target, ForeignTarget::HomeGone);
    assert_eq!(ended.released, vec![0x77]);
    assert_eq!(ended.applied, vec![0x88]);
    assert_eq!(ended.collects, 3);
    assert_eq!(COLLECT_PASSES, 3);
}

#[test]
fn a_failed_collection_is_the_last() {
    let ended = end_interpreter(DICT, true, &[1, 0]);
    assert_eq!(ended.collects, 2);
    let n = ended.calls.len();
    assert_eq!(
        &ended.calls[n - 3..],
        &[TeardownCall::ClearError, TeardownCall::ReleaseCollect, TeardownCall::ReturnNone]
    );
}

#[test]
fn teardown_without_a_function_collects_nothing() {
    let ended = end_interpreter(DICT, false, &[]);
    assert_eq!(ended.collects, 0);
    assert_eq!(ended.released, vec![0x77]);
    assert_eq!(ended.applied, vec![0x88]);
}

#[test]
fn teardown_without_a_dict_only_drains() {
    let ended = end_interpreter(0, true, &[]);
    assert_eq!(ended.collects, 0);
    assert_eq!(ended.released, Vec::<usize>::new());
    assert_eq!(ended.applied, vec![0x88]);
    assert_eq!(ended.target, ForeignTarget::HomeGone);
}

#[test]
fn a_registry_that_is_gone_already_is_no_error() {
    let mut count = AttachCount { cell: None };
    let (guard, step) = teardown(&mut count, 0);
    let step = step.next(0).next(DICT);
    assert_eq!(step.next_call(), TeardownCall::DeleteRegistry);
    let step = step.next(0);
    assert_eq!(step.next_call(), TeardownCall::ClearError);
    let step = step.next(0);
    assert_eq!(step.next_call(), TeardownCall::DrainPool);
    guard.release(&mut count);
    assert_eq!(count, AttachCount { cell: None });
}

#[test]
fn many_registrations_register_one_hook() {
    let mut mark: usize = 0;
    let mut registered: Vec<bool> = Vec::new();
    for attempt in 0..5usize {
        let mut answers: Vec<(HookCall, usize)> = ALL.to_vec();
        answers.push((HookCall::HasHook, mark));
        if attempt < 2 {
            // `atexit` does not take the hook yet
            answers.retain(|(call, _)| *call != HookCall::CallRegister);
        }
        let (calls, end, _) = register(&answers);
        if calls.contains(&HookCall::StoreHook) {
            mark = FUNCTION;
        }
        registered.push(end.registered);
    }
    assert_eq!(registered, vec![false, false, true, false, false]);
}
