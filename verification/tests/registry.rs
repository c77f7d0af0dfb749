//! How an interpreter gets its registry, and the keys it is found under.

use subinterp::sync::keys::{keys, CAPSULE_NAME, HOOK_SUFFIX, REGISTRY_PREFIX};
use subinterp::sync::registry::{
    ensure_registry, find_registry, registry_destructor, DestructorAction, RegistryCall,
    RegistryStep,
};

/// Answers each call in turn and records what was asked.
fn run(mut step: RegistryStep, answers: &[usize]) -> (Vec<RegistryCall>, RegistryCall) {
    let mut calls = Vec::new();
    for answer in answers {
        calls.push(step.next_call());
        step = step.next(*answer);
    }
    (calls, step.next_call())
}

const DICT: usize = 0xd1c7;
const CAPSULE: usize = 0xca95;

#[test]
fn a_registry_is_found() {
    let (calls, end) = run(find_registry(), &[DICT, CAPSULE, 0x99]);
    assert_eq!(
        calls,
        vec![
            RegistryCall::FindDict,
            RegistryCall::FindItem { dict: DICT },
            RegistryCall::FindPointer { capsule: CAPSULE },
        ]
    );
    assert_eq!(end, RegistryCall::Ready);
}

#[test]
fn a_look_up_makes_nothing() {
    assert_eq!(run(find_registry(), &[0]).1, RegistryCall::Refused);
    assert_eq!(run(find_registry(), &[DICT, 0]).1, RegistryCall::Refused);
    let (calls, end) = run(find_registry(), &[DICT, CAPSULE, 0, 0]);
    assert_eq!(calls[3], RegistryCall::ClearError);
    assert_eq!(end, RegistryCall::Refused);
}

#[test]
fn an_existing_registry_is_kept() {
    assert_eq!(run(ensure_registry(), &[DICT, CAPSULE, 0x99]).1, RegistryCall::Ready);
}

#[test]
fn a_registry_is_made_where_there_is_none() {
    let (calls, end) = run(ensure_registry(), &[DICT, 0, DICT, CAPSULE, 1, 0, 0]);
    assert_eq!(
        calls,
        vec![
            RegistryCall::FindDict,
            RegistryCall::FindItem { dict: DICT },
            RegistryCall::GetDict,
            RegistryCall::NewCapsule,
            RegistryCall::StoreCapsule { dict: DICT, capsule: CAPSULE },
            RegistryCall::ReleaseCapsule { capsule: CAPSULE },
            RegistryCall::RegisterHook { dict: DICT },
        ]
    );
    assert_eq!(end, RegistryCall::Ready);
}

#[test]
fn a_finalizing_interpreter_takes_no_registry() {
    let (calls, end) = run(ensure_registry(), &[0, 0]);
    assert_eq!(calls, vec![RegistryCall::FindDict, RegistryCall::GetDict]);
    assert_eq!(end, RegistryCall::Refused);
}

#[test]
fn without_a_capsule_the_registry_is_dropped() {
    let (calls, end) = run(ensure_registry(), &[DICT, 0, DICT, 0, 0, 0]);
    assert_eq!(calls[4], RegistryCall::ClearError);
    assert_eq!(calls[5], RegistryCall::DropRegistry);
    assert_eq!(end, RegistryCall::Refused);
}

#[test]
fn a_capsule_that_is_not_stored_is_released() {
    let (calls, end) = run(ensure_registry(), &[DICT, 0, DICT, CAPSULE, 0, 0, 0]);
    assert_eq!(calls[5], RegistryCall::ReleaseCapsule { capsule: CAPSULE });
    assert_eq!(calls[6], RegistryCall::ClearError);
    assert_eq!(end, RegistryCall::Refused);
}

#[test]
fn a_broken_capsule_is_replaced() {
    let (calls, end) = run(ensure_registry(), &[DICT, CAPSULE, 0, 0, DICT, CAPSULE, 1, 0, 0]);
    assert_eq!(calls[3], RegistryCall::ClearError);
    assert_eq!(calls[4], RegistryCall::GetDict);
    assert_eq!(end, RegistryCall::Ready);
}

#[test]
fn the_destructor_drops_what_the_capsule_holds() {
    assert_eq!(registry_destructor(0), DestructorAction::ClearError);
    assert_eq!(registry_destructor(0x99), DestructorAction::DropRegistry(0x99));
}

#[test]
fn keys_carry_the_tag() {
    let k = keys(0xbeef);
    assert_eq!(k.registry, "_pyo3_per_interpreter.beef");
    assert_eq!(k.hook, "_pyo3_per_interpreter.beef.hook");
    assert_eq!(keys(0).registry, "_pyo3_per_interpreter.0");
    assert_eq!(keys(0x0123_4567_89ab).registry, "_pyo3_per_interpreter.123456789ab");
    assert_eq!(keys(0xcdef).registry, "_pyo3_per_interpreter.cdef");
    assert_eq!(REGISTRY_PREFIX, "_pyo3_per_interpreter.");
    assert_eq!(HOOK_SUFFIX, ".hook");
    assert_eq!(CAPSULE_NAME, "pyo3.per_interpreter.registry");
}

#[test]
fn one_key_of_a_copy_is_its_registry() {
    let k = keys(0x7f00_1234);
    let found: Vec<&String> = vec![&k.registry, &k.hook]
        .into_iter()
        .filter(|key| match key.strip_prefix("_pyo3_per_interpreter.") {
            Some(tag) => !tag.contains('.'),
            None => false,
        })
        .collect();
    assert_eq!(found, vec![&k.registry]);
}

#[test]
fn two_copies_do_not_share_keys() {
    for a in 0..40usize {
        for b in 0..40usize {
            if a != b {
                assert_ne!(keys(a).registry, keys(b).registry);
                assert_ne!(keys(a).hook, keys(b).hook);
                assert_ne!(keys(a).registry, keys(b).hook);
            }
        }
    }
}
