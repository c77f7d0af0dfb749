//! Attaching a thread to the interpreter that a handle was taken in.

use subinterp::config::{BuildConfig, PoolMode};
use subinterp::internal::home::{ThreadStateCall, NULL_THREAD_STATE};
use subinterp::internal::state::{thread_is_attached, AttachCount};
use subinterp::marker::{Interpreter, Python};
use subinterp::sync::interpreter_handle::{
    current_interpreter_or_null, current_source, CurrentSource, HandleStep, InterpreterHandle,
    ATTACHED_TO_ANOTHER,
};

const SUB: Python = Python { interp: Interpreter { addr: 0x2000, id: 1 } };
const OTHER: Python = Python { interp: Interpreter { addr: 0x3000, id: 2 } };

fn config(py_minor: u32) -> BuildConfig {
    BuildConfig {
        py_minor,
        limited_api: false,
        gil_disabled: false,
        windows: false,
        alternative_impl: false,
        pool: PoolMode::Enabled,
    }
}

/// Runs `f` as the steps say; records the calls.
fn attach<R>(
    handle: InterpreterHandle,
    current: usize,
    count: &mut AttachCount,
    calls: &mut Vec<ThreadStateCall>,
    f: impl FnOnce(&AttachCount) -> R,
) -> R {
    let mut f = Some(f);
    let mut result = None;
    let mut step = handle.attach(current);
    loop {
        let answer = match step {
            HandleStep::Run { .. } => {
                let running = step.enter(count);
                result = Some((f.take().unwrap())(count));
                step = running.leave(count);
                continue;
            }
            HandleStep::Call(call) => {
                calls.push(call);
                match call {
                    ThreadStateCall::New(_) => 0x77,
                    _ => 0,
                }
            }
            HandleStep::Finished => return result.unwrap(),
            HandleStep::Panic(message) => panic!("{}", message),
        };
        step = step.next(answer);
    }
}

#[test]
fn attaching_from_the_same_interpreter_is_a_no_op() {
    let handle = InterpreterHandle::current(SUB);
    let mut count = AttachCount { cell: Some(1) };
    let mut calls = Vec::new();
    let n = attach(handle, SUB.interp.addr, &mut count, &mut calls, |_| {
        assert_eq!(InterpreterHandle::current(SUB), handle);
        7
    });
    assert_eq!(n, 7);
    assert_eq!(calls, Vec::new());
    assert_eq!(count, AttachCount { cell: Some(1) });
}

#[test]
fn foreign_thread_can_attach_and_use_an_object() {
    let handle = InterpreterHandle::current(SUB);
    let mut count = AttachCount { cell: Some(0) };
    let mut calls = Vec::new();
    let got = attach(handle, 0, &mut count, &mut calls, |count| {
        assert!(thread_is_attached(count));
        "from the owning interpreter"
    });
    assert_eq!(got, "from the owning interpreter");
    assert_eq!(
        calls,
        vec![
            ThreadStateCall::New(0x2000),
            ThreadStateCall::Restore(0x77),
            ThreadStateCall::Clear(0x77),
            ThreadStateCall::Save(0x77),
            ThreadStateCall::Delete(0x77),
        ]
    );
    assert_eq!(count, AttachCount { cell: Some(0) });
}

#[test]
fn the_count_is_as_before_after_the_callback() {
    let mut count = AttachCount { cell: Some(2) };
    let step = InterpreterHandle::current(SUB).attach(SUB.interp.addr);
    assert_eq!(step, HandleStep::Run { fresh: None });
    let running = step.enter(&mut count);
    assert_eq!(count, AttachCount { cell: Some(3) });
    assert_eq!(running.leave(&mut count), HandleStep::Finished);
    assert_eq!(count, AttachCount { cell: Some(2) });
    // with a fresh thread state the thread is detached again afterwards
    let running = HandleStep::Run { fresh: Some(0x77) }.enter(&mut count);
    assert_eq!(running.leave(&mut count), HandleStep::Call(ThreadStateCall::Clear(0x77)));
    assert_eq!(count, AttachCount { cell: Some(2) });
}

#[test]
fn a_thread_attached_elsewhere_panics() {
    let handle = InterpreterHandle::current(SUB);
    assert_eq!(handle.attach(OTHER.interp.addr), HandleStep::Panic(ATTACHED_TO_ANOTHER));
    assert_eq!(
        ATTACHED_TO_ANOTHER,
        "this thread is attached to a different interpreter; detach from it before attaching to another"
    );
}

#[test]
fn a_null_thread_state_panics() {
    let handle = InterpreterHandle::current(SUB);
    assert_eq!(handle.attach(0).next(0), HandleStep::Panic(NULL_THREAD_STATE));
}

#[test]
fn handles_compare_by_interpreter() {
    assert_eq!(InterpreterHandle::current(SUB), InterpreterHandle::current(SUB));
    assert_ne!(InterpreterHandle::current(SUB), InterpreterHandle::current(OTHER));
}

#[test]
fn the_current_interpreter_by_build() {
    let attached = AttachCount { cell: Some(1) };
    let detached = AttachCount { cell: Some(0) };
    let new = config(13);
    assert_eq!(current_source(&new), CurrentSource::ThreadState);
    assert_eq!(current_interpreter_or_null(&new, &detached, 0x55, 0x2000), 0x2000);
    assert_eq!(current_interpreter_or_null(&new, &attached, 0, 0x2000), 0);
    for old in [
        config(12),
        BuildConfig { limited_api: true, ..config(14) },
        BuildConfig { alternative_impl: true, ..config(14) },
    ] {
        assert_eq!(current_source(&old), CurrentSource::AttachCount);
        assert_eq!(current_interpreter_or_null(&old, &attached, 0, 0x2000), 0x2000);
        assert_eq!(current_interpreter_or_null(&old, &detached, 0x55, 0x2000), 0);
    }
}
