//! The home interpreter of an extension copy, and the thread states that attach to it.

use subinterp::internal::home::{
    attach_home, detach_home, on_exec, target, ForeignTarget, HomeState, ThreadStateCall,
    ThreadStep, HOME_GONE, HOME_IS_MAIN, MULTI, NULL_THREAD_STATE,
};

#[test]
fn no_exec_keeps_old_behaviour() {
    assert_eq!(target(0, 0), ForeignTarget::Gilstate);
}

#[test]
fn single_sub_interpreter_is_home() {
    let (h, f) = on_exec(0, 0, 0x10, false);
    assert_eq!(target(h, f), ForeignTarget::Home(0x10));
    // re-exec by the same interpreter changes nothing
    let (h, f) = on_exec(h, f, 0x10, false);
    assert_eq!(target(h, f), ForeignTarget::Home(0x10));
}

#[test]
fn main_only_keeps_old_behaviour() {
    let (h, f) = on_exec(0, 0, 0x20, true);
    assert_eq!(target(h, f), ForeignTarget::Gilstate);
}

#[test]
fn second_interpreter_is_ambiguous() {
    let (h, f) = on_exec(0, 0, 0x10, false);
    let (h, f) = on_exec(h, f, 0x30, false);
    assert_eq!(target(h, f), ForeignTarget::Ambiguous);
    // main + sub is ambiguous too
    let (h, f) = on_exec(0, 0, 0x20, true);
    let (h, f) = on_exec(h, f, 0x10, false);
    assert_eq!(target(h, f), ForeignTarget::Ambiguous);
}

#[test]
fn finalized_home_is_loud_then_rehomes() {
    // home finalized: pointer cleared, GONE set
    let (h, f) = on_exec(0, 0, 0x10, false);
    let (h, f) = (if h == 0x10 { 0 } else { h }, (f & MULTI) | HOME_GONE);
    assert_eq!(target(h, f), ForeignTarget::HomeGone);
    // a later interpreter re-homes the copy (nothing of the old one survives)
    let (h, f) = on_exec(h, f & !HOME_GONE, 0x40, false);
    assert_eq!(target(h, f), ForeignTarget::Home(0x40));
}

#[test]
fn exec_returns_the_exact_pair() {
    assert_eq!(on_exec(0, 0, 0x10, false), (0x10, 0));
    assert_eq!(on_exec(0, 0, 0x20, true), (0x20, HOME_IS_MAIN));
    assert_eq!(on_exec(0, HOME_GONE, 0x40, false), (0x40, 0));
    assert_eq!(on_exec(0, MULTI | HOME_GONE, 0x20, true), (0x20, MULTI | HOME_IS_MAIN));
    assert_eq!(on_exec(0x20, HOME_IS_MAIN, 0x10, false), (0x20, HOME_IS_MAIN | MULTI));
    assert_eq!(on_exec(0x10, MULTI, 0x10, false), (0x10, MULTI));
}

#[test]
fn the_state_follows_execs_and_teardowns() {
    let mut home = HomeState::new();
    assert_eq!(home.foreign_target(), ForeignTarget::Gilstate);
    home.note_module_exec(0x10, false);
    assert_eq!(home.foreign_target(), ForeignTarget::Home(0x10));
    // another interpreter's teardown changes nothing
    home.on_interpreter_teardown(0x30);
    assert_eq!(home.foreign_target(), ForeignTarget::Home(0x10));
    home.on_interpreter_teardown(0x10);
    assert_eq!(home.foreign_target(), ForeignTarget::HomeGone);
    home.note_module_exec(0x40, false);
    assert_eq!(home.foreign_target(), ForeignTarget::Home(0x40));
}

#[test]
fn ambiguity_outlives_the_home() {
    let mut home = HomeState::new();
    home.note_module_exec(0x10, false);
    home.note_module_exec(0x30, false);
    assert_eq!(home.foreign_target(), ForeignTarget::Ambiguous);
    home.on_interpreter_teardown(0x10);
    assert_eq!(home.foreign_target(), ForeignTarget::Ambiguous);
    home.note_module_exec(0x30, false);
    assert_eq!(home.foreign_target(), ForeignTarget::Ambiguous);
}

#[test]
fn a_finalized_main_home_is_gone_too() {
    let mut home = HomeState::new();
    home.note_module_exec(0x20, true);
    assert_eq!(home.foreign_target(), ForeignTarget::Gilstate);
    home.on_interpreter_teardown(0x20);
    assert_eq!(home.foreign_target(), ForeignTarget::HomeGone);
}

#[test]
fn attaching_home_makes_a_thread_state_and_makes_it_current() {
    let step = attach_home(0x10);
    assert_eq!(step, ThreadStep::Call(ThreadStateCall::New(0x10)));
    let step = step.next(0x77);
    assert_eq!(step, ThreadStep::Call(ThreadStateCall::Restore(0x77)));
    let step = step.next(0);
    assert_eq!(step, ThreadStep::Attached(0x77));
    // nothing more to do
    assert_eq!(step.next(5), ThreadStep::Attached(0x77));
}

#[test]
fn attaching_home_fails_without_a_thread_state() {
    assert_eq!(attach_home(0x10).next(0), ThreadStep::Failed(NULL_THREAD_STATE));
    assert_eq!(NULL_THREAD_STATE, "PyThreadState_New returned null");
}

#[test]
fn detaching_home_clears_saves_and_deletes() {
    let step = detach_home(0x77);
    assert_eq!(step, ThreadStep::Call(ThreadStateCall::Clear(0x77)));
    let step = step.next(0);
    assert_eq!(step, ThreadStep::Call(ThreadStateCall::Save(0x77)));
    let step = step.next(0x77);
    assert_eq!(step, ThreadStep::Call(ThreadStateCall::Delete(0x77)));
    let step = step.next(0);
    assert_eq!(step, ThreadStep::Detached);
}
