//! What holds of an attach to a handle's interpreter as a whole.

use crate::config::BuildConfig;
use crate::internal::home::{ThreadStateCall, NULL_THREAD_STATE};
use crate::internal::state::AttachCount;
use crate::internal::state_laws::ThreadModel;
use crate::sync::interpreter_handle::{
    current_of, source_of, CurrentSource, HandleStep, InterpreterHandle, ATTACHED_TO_ANOTHER,
};
use vstd::prelude::*;

verus! {

/// The step after some answers.
pub open spec fn handle_step_after(from: HandleStep, answers: Seq<usize>) -> HandleStep
    decreases answers.len(),
{
    if answers.len() == 0 {
        from
    } else {
        handle_step_after(from, answers.drop_last()).after(answers.last())
    }
}

/// On a thread that is attached to no interpreter, an attach makes one thread state for the
/// handle's interpreter, makes it current, runs the callback once, and clears, detaches and
/// deletes that thread state, in this order.
pub proof fn a_foreign_thread_attaches_with_a_fresh_thread_state(
    handle: InterpreterHandle,
    answers: Seq<usize>,
)
    requires
        answers.len() == 6,
        answers[0] != 0,
    ensures
        handle.addr() != 0 ==> handle.first_step(0) == HandleStep::Call(
            ThreadStateCall::New(handle.addr()),
        ),
        ({
            let start = HandleStep::Call(ThreadStateCall::New(handle.addr()));
            let tstate = answers[0];
            &&& handle_step_after(start, answers.take(1)) == HandleStep::Call(
                ThreadStateCall::Restore(tstate),
            )
            &&& handle_step_after(start, answers.take(2)) == (HandleStep::Run {
                fresh: Some(tstate),
            })
            &&& handle_step_after(start, answers.take(3)) == HandleStep::Call(
                ThreadStateCall::Clear(tstate),
            )
            &&& handle_step_after(start, answers.take(4)) == HandleStep::Call(
                ThreadStateCall::Save(tstate),
            )
            &&& handle_step_after(start, answers.take(5)) == HandleStep::Call(
                ThreadStateCall::Delete(tstate),
            )
            &&& handle_step_after(start, answers.take(6)) == HandleStep::Finished
        }),
{
    reveal_with_fuel(handle_step_after, 7);
    assert(answers.take(1).drop_last() =~= answers.take(0));
    assert(answers.take(2).drop_last() =~= answers.take(1));
    assert(answers.take(3).drop_last() =~= answers.take(2));
    assert(answers.take(4).drop_last() =~= answers.take(3));
    assert(answers.take(5).drop_last() =~= answers.take(4));
    assert(answers.take(6).drop_last() =~= answers.take(5));
}

/// The callback runs as it is exactly where the thread is attached to the handle's own
/// interpreter. On a thread that is attached to any other the attach panics; on one that is
/// attached to none it makes a thread state for the handle's interpreter.
pub proof fn the_callback_runs_in_its_own_interpreter(handle: InterpreterHandle, current: usize)
    ensures
        handle.first_step(current) is Run <==> current == handle.addr(),
        current == handle.addr() ==> handle.first_step(current) == (HandleStep::Run {
            fresh: None,
        }),
        current != 0 && current != handle.addr() ==> handle.first_step(current)
            == HandleStep::Panic(ATTACHED_TO_ANOTHER),
        current == 0 && handle.addr() != 0 ==> handle.first_step(current) == HandleStep::Call(
            ThreadStateCall::New(handle.addr()),
        ),
{
}

/// On a thread that is attached to the handle's interpreter the callback is all there is: no call
/// on a thread state comes before or after it. A panic is the end of an attach.
pub proof fn an_attached_thread_just_runs_the_callback(
    handle: InterpreterHandle,
    answer: usize,
    later: usize,
    message: &'static str,
)
    ensures
        handle.first_step(handle.addr()).after(answer) == HandleStep::Finished,
        HandleStep::Finished.after(later) == HandleStep::Finished,
        HandleStep::Panic(message).after(later) == HandleStep::Panic(message),
{
}

/// Where no thread state can be made the attach says so, and makes no other call.
pub proof fn no_thread_state_means_no_attach(handle: InterpreterHandle)
    requires
        handle.addr() != 0,
    ensures
        handle.first_step(0).after(0) == HandleStep::Panic(NULL_THREAD_STATE),
{
}

/// A build learns from the thread state whether a thread is attached exactly where it has an
/// accessor for that, in CPython 3.13 and later outside the limited API; such a build sees every
/// attached thread, and any other sees those that this copy attached.
pub proof fn a_build_sees_the_threads_it_can(
    config: BuildConfig,
    count: AttachCount,
    tstate: usize,
    interp: usize,
)
    requires
        interp != 0,
    ensures
        source_of(config) == CurrentSource::ThreadState <==> !(config.py_minor <= 12
            || config.limited_api || config.alternative_impl),
        current_of(config, count, tstate, interp) == interp || current_of(
            config,
            count,
            tstate,
            interp,
        ) == 0,
        config.py_minor >= 13 && !config.limited_api && !config.alternative_impl ==> (current_of(
            config,
            count,
            tstate,
            interp,
        ) == interp <==> tstate != 0),
        config.py_minor <= 12 || config.limited_api || config.alternative_impl ==> (current_of(
            config,
            count,
            tstate,
            interp,
        ) == interp <==> (count.cell matches Some(current) && current >= 1)),
{
}

/// How often the callback has been run.
pub open spec fn runs(from: HandleStep, answers: Seq<usize>) -> nat
    decreases answers.len(),
{
    if answers.len() == 0 {
        0
    } else {
        runs(from, answers.drop_last()) + if handle_step_after(from, answers.drop_last()) is Run {
            1nat
        } else {
            0
        }
    }
}

/// Whatever the calls return, and whichever interpreter the thread is attached to, the callback
/// runs once where the attach finishes, and not at all where it panics.
pub proof fn the_callback_runs_once(
    handle: InterpreterHandle,
    current: usize,
    answers: Seq<usize>,
)
    ensures
        ({
            let end = handle_step_after(handle.first_step(current), answers);
            let n = runs(handle.first_step(current), answers);
            match end {
                HandleStep::Finished => n == 1,
                HandleStep::Panic(_) => n == 0,
                HandleStep::Run { .. } => n == 0,
                HandleStep::Call(call) => n == if call is New || call is Restore {
                    0nat
                } else {
                    1
                },
            }
        }),
    decreases answers.len(),
{
    if answers.len() > 0 {
        the_callback_runs_once(handle, current, answers.drop_last());
    }
}

/// A callback that leaves the count as it finds it runs on a thread that counts as attached, and
/// afterwards the count is as before the attach.
pub proof fn a_callback_runs_attached(
    before: AttachCount,
    entered: AttachCount,
    returned: AttachCount,
    after: AttachCount,
)
    requires
        before.can_increment(),
        entered == before.plus(1),
        returned == entered,
        after == returned.plus(-1),
    ensures
        before.cell is Some ==> entered.attached(),
        after == before,
{
}

/// What CPython knows of the thread after some answers.
pub open spec fn model_after(from: HandleStep, answers: Seq<usize>) -> ThreadModel
    decreases answers.len(),
{
    if answers.len() == 0 {
        ThreadModel::bare()
    } else {
        let model = model_after(from, answers.drop_last());
        match handle_step_after(from, answers.drop_last()) {
            HandleStep::Call(call) => model.after(call, answers.last()),
            _ => model,
        }
    }
}

/// On a thread with no thread state CPython allows every call of an attach, whatever the calls
/// return. While the callback runs, the thread state that was made for the handle's interpreter
/// is current; and where the attach finishes or panics, none is left.
pub proof fn an_attach_leaves_no_thread_state(handle: InterpreterHandle, answers: Seq<usize>)
    requires
        handle.addr() != 0,
    ensures
        ({
            let step = handle_step_after(handle.first_step(0), answers);
            let model = model_after(handle.first_step(0), answers);
            match step {
                HandleStep::Call(call) => {
                    &&& model.allows(call)
                    &&& call matches ThreadStateCall::New(interp) ==> interp == handle.addr()
                },
                HandleStep::Run { fresh } => {
                    &&& answers.len() > 0
                    &&& fresh == Some(answers[0])
                    &&& model.current == fresh
                },
                HandleStep::Finished | HandleStep::Panic(_) => model == ThreadModel::bare(),
            }
        }),
{
    lemma_model(handle, answers);
}

proof fn lemma_model(handle: InterpreterHandle, answers: Seq<usize>)
    requires
        handle.addr() != 0,
    ensures
        ({
            let step = handle_step_after(handle.first_step(0), answers);
            let model = model_after(handle.first_step(0), answers);
            match step {
                HandleStep::Call(call) => {
                    &&& call is New ==> answers.len() == 0
                    &&& match call {
                        ThreadStateCall::New(interp) => interp == handle.addr() && model
                            == ThreadModel::bare(),
                        ThreadStateCall::Restore(t) => answers.len() > 0 && t == answers[0]
                            && model == (ThreadModel { current: None, made: Some((t, false)) }),
                        ThreadStateCall::Clear(t) => model == (ThreadModel {
                            current: Some(t),
                            made: Some((t, false)),
                        }),
                        ThreadStateCall::Save(t) => model == (ThreadModel {
                            current: Some(t),
                            made: Some((t, true)),
                        }),
                        ThreadStateCall::Delete(t) => model == (ThreadModel {
                            current: None,
                            made: Some((t, true)),
                        }),
                    }
                },
                HandleStep::Run { fresh } => {
                    &&& answers.len() > 0
                    &&& fresh == Some(answers[0])
                    &&& model == (ThreadModel { current: fresh, made: Some((answers[0], false)) })
                },
                HandleStep::Finished | HandleStep::Panic(_) => model == ThreadModel::bare(),
            }
        }),
    decreases answers.len(),
{
    if answers.len() > 0 {
        lemma_model(handle, answers.drop_last());
        if answers.len() > 1 {
            assert(answers.drop_last()[0] == answers[0]);
        }
    }
}

} // verus!
