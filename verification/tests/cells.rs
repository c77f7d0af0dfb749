//! Values that are kept per interpreter.

use std::collections::HashMap;
use subinterp::config::{BuildConfig, PoolMode};
use subinterp::internal::pool::{register_decref, DropAction, Pools};
use subinterp::internal::state::AttachCount;
use subinterp::sync::per_interpreter::{
    CellRef, PerInterpreterCell, Registries, RegistryCache, Stored,
};

const A: usize = 0x1000;
const B: usize = 0x2000;

fn config() -> BuildConfig {
    BuildConfig {
        py_minor: 14,
        limited_api: false,
        gil_disabled: false,
        windows: false,
        alternative_impl: false,
        pool: PoolMode::Enabled,
    }
}

fn stored<'a, T>(value: CellRef<'a, T>) -> &'a T {
    match value {
        CellRef::Stored(value) => value,
        CellRef::Unregistered(_) => panic!("not stored"),
    }
}

/// Drops a registry as CPython does: on a thread that is not attached, which the drop marks.
fn drop_registry(
    registries: &mut Registries<usize>,
    count: &mut AttachCount,
    pools: &mut Pools,
    refs: &mut HashMap<usize, isize>,
    interp: usize,
) {
    if let Some((guard, values)) = registries.drop_registry(count, interp) {
        for obj in values {
            match register_decref(&config(), count, pools, Some(interp), obj, false) {
                DropAction::Decref => *refs.get_mut(&obj).unwrap() -= 1,
                _ => {}
            }
        }
        guard.release(count);
    }
}

#[test]
fn registry_teardown_releases_its_values() {
    let mut registries: Registries<usize> = Registries::new();
    let mut cache = RegistryCache::new();
    let mut cell: PerInterpreterCell<usize> = PerInterpreterCell::new();
    let mut pools = Pools::new();
    let mut refs: HashMap<usize, isize> = HashMap::new();
    // CPython comes from outside: the thread is not attached
    let mut count = AttachCount { cell: Some(0) };

    let class: usize = 0xc1a55;
    refs.insert(class, 1);
    let before = refs[&class];
    cell.get_or_init(&mut registries, &mut cache, A, true, || class);
    *refs.get_mut(&class).unwrap() += 1;
    assert_eq!(refs[&class], before + 1, "storing a value should hold one reference");

    drop_registry(&mut registries, &mut count, &mut pools, &mut refs, A);
    assert_eq!(
        refs[&class], before,
        "the registry's reference must be released, not deferred into the reference pool"
    );
    assert!(!pools.get_pool(A).contains(class));
    assert_eq!(count, AttachCount { cell: Some(0) });
}

#[test]
fn cell_is_empty_after_teardown() {
    let mut registries: Registries<usize> = Registries::new();
    let mut cache = RegistryCache::new();
    let mut pads: Vec<PerInterpreterCell<usize>> = Vec::new();
    for _ in 0..512 {
        let mut pad = PerInterpreterCell::new();
        pad.get_or_init(&mut registries, &mut cache, A, true, || 0);
        pads.push(pad);
    }
    let mut cell: PerInterpreterCell<usize> = PerInterpreterCell::new();
    cell.get_or_init(&mut registries, &mut cache, A, true, || 0x40);
    assert!(cell.get(&mut registries, &mut cache, A).is_some());

    let mut count = AttachCount { cell: Some(0) };
    let (guard, values) = registries.drop_registry(&mut count, A).unwrap();
    assert_eq!(values.len(), 513);
    guard.release(&mut count);
    assert!(
        cell.get(&mut registries, &mut cache, A).is_none(),
        "a stale base pointer must not survive the registry it pointed into"
    );
}

#[test]
fn neighbouring_cells_have_distinct_slots() {
    struct Pair {
        a: PerInterpreterCell<&'static str>,
        b: PerInterpreterCell<&'static str>,
    }
    let mut registries: Registries<&'static str> = Registries::new();
    let mut cache = RegistryCache::new();
    let mut pair = Pair { a: PerInterpreterCell::new(), b: PerInterpreterCell::new() };

    pair.a.get_or_init(&mut registries, &mut cache, A, true, || "first");
    pair.b.get_or_init(&mut registries, &mut cache, A, true, || "second");

    assert_eq!(pair.a.get(&mut registries, &mut cache, A), Some(&"first"));
    assert_eq!(pair.b.get(&mut registries, &mut cache, A), Some(&"second"));
}

#[test]
fn a_value_is_invisible_to_other_interpreters() {
    let mut registries: Registries<u32> = Registries::new();
    let mut cache_a = RegistryCache::new();
    let mut cache_b = RegistryCache::new();
    let mut cell: PerInterpreterCell<u32> = PerInterpreterCell::default();
    assert_eq!(*stored(cell.get_or_init(&mut registries, &mut cache_a, A, true, || 1)), 1);
    assert!(cell.get(&mut registries, &mut cache_b, B).is_none());
    assert_eq!(*stored(cell.get_or_init(&mut registries, &mut cache_b, B, true, || 2)), 2);
    assert_eq!(cell.get(&mut registries, &mut cache_a, A), Some(&1));
    // one thread that moves between interpreters
    assert_eq!(cell.get(&mut registries, &mut cache_a, B), Some(&2));
    assert_eq!(cell.get(&mut registries, &mut cache_a, A), Some(&1));
}

#[test]
fn a_cell_is_initialized_once() {
    let mut registries: Registries<u32> = Registries::new();
    let mut cache = RegistryCache::new();
    let mut cell: PerInterpreterCell<u32> = PerInterpreterCell::new();
    assert!(cell.get(&mut registries, &mut cache, A).is_none());
    assert_eq!(*stored(cell.get_or_init(&mut registries, &mut cache, A, true, || 7)), 7);
    assert_eq!(*stored(cell.get_or_init(&mut registries, &mut cache, A, true, || 8)), 7);
    match cell.set_and_get(&mut registries, A, 9) {
        Stored::Existing(existing, lost) => assert_eq!((*existing, lost), (7, 9)),
        _ => panic!("the first value must win"),
    }
}

#[test]
fn a_failed_initialization_stores_nothing() {
    let mut registries: Registries<u32> = Registries::new();
    let mut cache = RegistryCache::new();
    let mut cell: PerInterpreterCell<u32> = PerInterpreterCell::new();
    let failed: Result<CellRef<u32>, &str> =
        cell.get_or_try_init(&mut registries, &mut cache, A, true, || Err("no"));
    match failed {
        Err(e) => assert_eq!(e, "no"),
        Ok(_) => panic!("the error must come through"),
    }
    assert!(cell.get(&mut registries, &mut cache, A).is_none());
    let made: Result<CellRef<u32>, &str> =
        cell.get_or_try_init(&mut registries, &mut cache, A, true, || Ok(5));
    match made {
        Ok(value) => assert_eq!(*stored(value), 5),
        Err(_) => panic!("the value must be stored"),
    }
    let again: Result<CellRef<u32>, &str> =
        cell.get_or_try_init(&mut registries, &mut cache, A, true, || Err("not run"));
    match again {
        Ok(value) => assert_eq!(*stored(value), 5),
        Err(_) => panic!("the value must be kept"),
    }
}

#[test]
fn an_interpreter_without_a_registry_keeps_nothing() {
    let mut registries: Registries<u32> = Registries::new();
    let mut cache = RegistryCache::new();
    let mut cell: PerInterpreterCell<u32> = PerInterpreterCell::new();
    match cell.get_or_init(&mut registries, &mut cache, A, false, || 3) {
        CellRef::Unregistered(value) => assert_eq!(value, 3),
        CellRef::Stored(_) => panic!("there is no registry"),
    }
    assert!(cell.get(&mut registries, &mut cache, A).is_none());
    match cell.set_and_get(&mut registries, A, 4) {
        Stored::Unregistered(value) => assert_eq!(value, 4),
        _ => panic!("there is no registry"),
    }
    registries.create_registry(A);
    match cell.set_and_get(&mut registries, A, 5) {
        Stored::Inserted(value) => assert_eq!(*value, 5),
        _ => panic!("there is a registry now"),
    }
    assert_eq!(cell.get(&mut registries, &mut cache, A), Some(&5));
}

#[test]
fn another_threads_cache_does_not_go_stale() {
    let mut registries: Registries<u32> = Registries::new();
    let mut mine = RegistryCache::new();
    let mut theirs = RegistryCache::new();
    let mut first: PerInterpreterCell<u32> = PerInterpreterCell::new();
    let mut second: PerInterpreterCell<u32> = PerInterpreterCell::new();
    first.get_or_init(&mut registries, &mut mine, A, true, || 1);
    // they note a registry with one slot
    assert_eq!(first.get(&mut registries, &mut theirs, A), Some(&1));
    // it grows under another thread of the interpreter
    second.get_or_init(&mut registries, &mut mine, A, true, || 2);
    assert_eq!(second.get(&mut registries, &mut theirs, A), Some(&2));
}

#[test]
fn a_reused_address_starts_empty() {
    let mut registries: Registries<u32> = Registries::new();
    let mut cache = RegistryCache::new();
    let mut cell: PerInterpreterCell<u32> = PerInterpreterCell::new();
    let mut count = AttachCount { cell: Some(0) };
    cell.get_or_init(&mut registries, &mut cache, A, true, || 1);
    cell.get_or_init(&mut registries, &mut cache, B, true, || 2);
    assert_eq!(cell.get(&mut registries, &mut cache, A), Some(&1));
    let (guard, values) = registries.drop_registry(&mut count, A).unwrap();
    assert_eq!(count, AttachCount { cell: Some(1) });
    assert_eq!(values, vec![1]);
    guard.release(&mut count);
    assert!(registries.drop_registry(&mut count, A).is_none());
    // a later interpreter gets the address
    registries.create_registry(A);
    assert!(cell.get(&mut registries, &mut cache, A).is_none());
    assert_eq!(cell.get(&mut registries, &mut cache, B), Some(&2));
    assert_eq!(*stored(cell.get_or_init(&mut registries, &mut cache, A, true, || 3)), 3);
}

#[test]
fn values_come_out_in_slot_order() {
    let mut registries: Registries<u32> = Registries::new();
    let mut cache = RegistryCache::new();
    let mut cells: Vec<PerInterpreterCell<u32>> = Vec::new();
    for _ in 0..4 {
        let mut cell = PerInterpreterCell::new();
        // claims its index without a value
        assert!(cell.get(&mut registries, &mut cache, A).is_none());
        cells.push(cell);
    }
    cells[3].get_or_init(&mut registries, &mut cache, A, true, || 30);
    cells[1].get_or_init(&mut registries, &mut cache, A, true, || 10);
    let mut count = AttachCount { cell: Some(0) };
    let (guard, values) = registries.drop_registry(&mut count, A).unwrap();
    assert_eq!(values, vec![10, 30]);
    guard.release(&mut count);
}

#[test]
fn a_new_cell_reads_nothing_anywhere() {
    let mut registries: Registries<u32> = Registries::new();
    let mut cache = RegistryCache::new();
    let mut old: Vec<PerInterpreterCell<u32>> = Vec::new();
    for i in 0..5u32 {
        let mut cell = PerInterpreterCell::new();
        cell.get_or_init(&mut registries, &mut cache, A, true, || i);
        cell.get_or_init(&mut registries, &mut cache, B, true, || 10 + i);
        old.push(cell);
    }
    let mut fresh: PerInterpreterCell<u32> = PerInterpreterCell::new();
    assert!(fresh.get(&mut registries, &mut cache, A).is_none());
    assert!(fresh.get(&mut registries, &mut cache, B).is_none());
    fresh.get_or_init(&mut registries, &mut cache, A, true, || 99);
    for (i, cell) in old.iter_mut().enumerate() {
        assert_eq!(cell.get(&mut registries, &mut cache, A), Some(&(i as u32)));
        assert_eq!(cell.get(&mut registries, &mut cache, B), Some(&(10 + i as u32)));
    }
    assert!(fresh.get(&mut registries, &mut cache, B).is_none());
}

#[test]
fn an_index_is_claimed_once() {
    let mut registries: Registries<usize> = Registries::new();
    let mut first: PerInterpreterCell<usize> = PerInterpreterCell::new();
    let mut second: PerInterpreterCell<usize> = PerInterpreterCell::new();
    assert_eq!(second.index(&mut registries), 0);
    assert_eq!(first.index(&mut registries), 1);
    assert_eq!(second.index(&mut registries), 0);
    assert_eq!(first.index(&mut registries), 1);
    let mut third: PerInterpreterCell<usize> = PerInterpreterCell::new();
    assert_eq!(third.index(&mut registries), 2);
}
