//! The pools of deferred decrefs.

use subinterp::internal::pool::{DropAction, PoolCache, Pools, ReferencePool, MAIN_POOL};
use subinterp::marker::Interpreter;

const MAIN: Interpreter = Interpreter { addr: 0x1000, id: 0 };
const A: Interpreter = Interpreter { addr: 0x2000, id: 1 };
const B: Interpreter = Interpreter { addr: 0x3000, id: 2 };

#[test]
fn a_pool_hands_out_what_is_pending_in_order() {
    let mut dirty: usize = 0;
    let mut pool = ReferencePool::new();
    assert_eq!(pool.drop_deferred_references(&mut dirty), Vec::<usize>::new());
    pool.register_decref(&mut dirty, 0xa0);
    pool.register_decref(&mut dirty, 0xb0);
    pool.register_decref(&mut dirty, 0xa0);
    assert_eq!(dirty, 1);
    assert!(pool.contains(0xb0));
    assert!(!pool.contains(0xc0));
    assert_eq!(pool.drop_deferred_references(&mut dirty), vec![0xa0, 0xb0, 0xa0]);
    assert_eq!(dirty, 0);
    assert!(!pool.contains(0xb0));
    assert_eq!(pool.drop_deferred_references(&mut dirty), Vec::<usize>::new());
}

#[test]
fn each_interpreter_applies_its_own_decrefs_once() {
    let mut pools = Pools::new();
    let mut cache = PoolCache::new();
    pools.defer_decref(Some(A.addr), 0xa1, false);
    pools.defer_decref(Some(B.addr), 0xb1, false);
    pools.defer_decref(Some(A.addr), 0xa2, false);
    pools.defer_decref(Some(MAIN_POOL), 0xc1, false);
    assert_eq!(pools.drop_deferred_references(&mut cache, B), vec![0xb1]);
    pools.defer_decref(Some(A.addr), 0xa3, false);
    assert_eq!(pools.drop_deferred_references(&mut cache, A), vec![0xa1, 0xa2, 0xa3]);
    assert_eq!(pools.drop_deferred_references(&mut cache, A), Vec::<usize>::new());
    assert_eq!(pools.drop_deferred_references(&mut cache, B), Vec::<usize>::new());
    assert_eq!(pools.drop_deferred_references(&mut cache, MAIN), vec![0xc1]);
}

#[test]
fn a_stale_cache_is_not_used() {
    let mut pools = Pools::new();
    let mut cache = PoolCache::new();
    pools.defer_decref(Some(A.addr), 0xa1, false);
    pools.defer_decref(Some(B.addr), 0xb1, false);
    // the cache notes where A's pool lies
    assert_eq!(pools.drop_deferred_references(&mut cache, A), vec![0xa1]);
    // A goes; B's pool takes that place
    assert_eq!(pools.drain_pool_on_teardown(A), Some(Vec::new()));
    // a later interpreter at A's address does not get what is B's
    assert_eq!(pools.drop_deferred_references(&mut cache, A), Vec::<usize>::new());
    assert_eq!(pools.drop_deferred_references(&mut cache, B), vec![0xb1]);
}

#[test]
fn teardown_comes_back_until_there_is_no_pool() {
    let mut pools = Pools::new();
    pools.defer_decref(Some(A.addr), 0xa1, false);
    assert_eq!(pools.drain_pool_on_teardown(A), Some(vec![0xa1]));
    // the destructor of that object dropped another one
    assert_eq!(pools.defer_decref(Some(A.addr), 0xa2, false), DropAction::Queued);
    assert_eq!(pools.drain_pool_on_teardown(A), Some(vec![0xa2]));
    assert_eq!(pools.drain_pool_on_teardown(A), None);
    assert_eq!(pools.drain_pool_on_teardown(B), None);
}

#[test]
fn many_threads_share_the_pools() {
    let mut pools = Pools::new();
    let mut caches = vec![PoolCache::new(), PoolCache::new(), PoolCache::new()];
    let mut applied: Vec<usize> = Vec::new();
    for round in 0..30usize {
        pools.defer_decref(Some(A.addr), 0xa000 + round, false);
        pools.defer_decref(Some(B.addr), 0xb000 + round, false);
        if round % 7 == 6 {
            pools.drain_pool_on_teardown(B);
        }
        if round % 3 == 2 {
            applied.extend(pools.drop_deferred_references(&mut caches[round % 2], A));
        }
        caches[2] = caches[round % 2];
    }
    applied.extend(pools.drop_deferred_references(&mut caches[2], A));
    let expected: Vec<usize> = (0..30usize).map(|round| 0xa000 + round).collect();
    assert_eq!(applied, expected);
}

#[test]
fn a_drained_pool_is_no_longer_dirty() {
    let mut pools = Pools::new();
    let mut cache = PoolCache::new();
    pools.defer_decref(Some(A.addr), 0xa1, false);
    pools.defer_decref(Some(A.addr), 0xa2, false);
    // while a pool is dirty, a drain notes the one that it looked for
    assert_eq!(pools.drop_deferred_references(&mut cache, B), Vec::<usize>::new());
    assert_eq!(pools.drain_pool_on_teardown(B), Some(Vec::new()));
    assert_eq!(pools.drop_deferred_references(&mut cache, A), vec![0xa1, 0xa2]);
    // with none dirty it looks for no pool
    assert_eq!(pools.drop_deferred_references(&mut cache, B), Vec::<usize>::new());
    assert_eq!(pools.drain_pool_on_teardown(B), None);
    // one that went dirty again is emptied by a teardown, and counted no longer
    pools.defer_decref(Some(A.addr), 0xa3, false);
    assert_eq!(pools.drain_pool_on_teardown(A), Some(vec![0xa3]));
    assert_eq!(pools.drop_deferred_references(&mut cache, B), Vec::<usize>::new());
    assert_eq!(pools.drain_pool_on_teardown(B), None);
}

#[test]
fn pool_places_follow_the_keys() {
    let mut pools = Pools::new();
    let a = pools.pool_for(A.addr);
    let b = pools.pool_for(B.addr);
    assert_ne!(a, b);
    assert_eq!(pools.pool_for(A.addr), a);
    assert_eq!(pools.pool_for(B.addr), b);
    assert!(!pools.get_pool(A.addr).contains(0xa1));
    pools.defer_decref(Some(A.addr), 0xa1, false);
    assert!(pools.get_pool(A.addr).contains(0xa1));
    assert!(!pools.get_pool(B.addr).contains(0xa1));
    assert_eq!(pools.pool_for(A.addr), a);
}
