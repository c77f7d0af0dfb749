//! What holds of attaching and detaching as a whole.

use crate::config::BuildConfig;
use crate::internal::home::{ForeignTarget, ThreadStateCall, ThreadStep};
use crate::internal::pool::{key_of, owner, Pools, MAIN_POOL};
use crate::internal::state::{
    drained, first_step, foreign_outcome, thread_interpreter, unchecked_plan,
};
use crate::internal::state::{
    AttachAnswer, AttachCount, AttachError, AttachGuard, AttachPlan, DetachAction,
    ForbidAttaching, ResumeAttach, SuspendAttach, TryAttach, AMBIGUOUS_INTERPRETER,
    ATTACH_FORBIDDEN_DURING_TRAVERSE, CURRENTLY_PROHIBITED, FINALIZING,
    FORBIDDEN_DURING_TRAVERSE, HOME_INTERPRETER_GONE,
};
use crate::marker::{Interpreter, Python};
use vstd::prelude::*;

verus! {

/// What a thread that tries to attach finds.
pub struct Surroundings {
    /// The interpreter is initialized.
    pub initialized: bool,
    /// The interpreter is finalizing.
    pub finalizing: bool,
    /// The thread has a Python thread state.
    pub has_thread_state: bool,
    /// Where a thread without one goes.
    pub target: ForeignTarget,
}

impl Surroundings {
    /// The answer to a step.
    pub open spec fn answer(self, step: TryAttach) -> AttachAnswer {
        match step {
            TryAttach::IsInitialized => AttachAnswer::Flag(self.initialized),
            TryAttach::WaitForInitialization => AttachAnswer::Waited,
            TryAttach::IsFinalizing => AttachAnswer::Flag(self.finalizing),
            TryAttach::HasThreadState => AttachAnswer::Flag(self.has_thread_state),
            TryAttach::ForeignTarget => AttachAnswer::Target(self.target),
            TryAttach::Decided(_) => AttachAnswer::Waited,
        }
    }
}

/// The step that an attach is at after `n` answers.
pub open spec fn step_after(
    config: BuildConfig,
    around: Surroundings,
    from: TryAttach,
    n: nat,
) -> TryAttach
    decreases n,
{
    if n == 0 {
        from
    } else {
        let step = step_after(config, around, from, (n - 1) as nat);
        step.after(config, around.answer(step))
    }
}

/// What an attach comes to.
pub open spec fn outcome(
    config: BuildConfig,
    count: AttachCount,
    around: Surroundings,
) -> Result<AttachPlan, AttachError> {
    if count.attached() {
        Ok(AttachPlan::Assume)
    } else if count.cell == Some(ATTACH_FORBIDDEN_DURING_TRAVERSE) {
        Err(AttachError::ForbiddenDuringTraverse)
    } else if !around.initialized {
        Err(AttachError::NotInitialized)
    } else if config.py_minor >= 13 && around.finalizing {
        Err(AttachError::Finalizing)
    } else if around.has_thread_state {
        Ok(AttachPlan::Ensure)
    } else {
        foreign_outcome(around.target)
    }
}

/// An attach is decided after five answers at most, and comes to its outcome.
pub proof fn attach_comes_to_its_outcome(
    config: BuildConfig,
    count: AttachCount,
    around: Surroundings,
    n: nat,
)
    requires
        n >= 5,
    ensures
        step_after(config, around, first_step(count), n) == TryAttach::Decided(
            outcome(config, count, around),
        ),
    decreases n,
{
    if n > 5 {
        attach_comes_to_its_outcome(config, count, around, (n - 1) as nat);
    } else {
        reveal_with_fuel(step_after, 6);
    }
}

/// A thread with no thread state is bound to the main interpreter by `PyGILState_Ensure` only
/// where the extension copy has no home other than main; where the interpreter it belongs to is
/// unknown or gone, the attach fails. There is no fallback to main.
pub proof fn attach_never_falls_back_to_main(
    config: BuildConfig,
    count: AttachCount,
    around: Surroundings,
)
    requires
        !around.has_thread_state,
        !count.attached(),
    ensures
        outcome(config, count, around) == Ok::<AttachPlan, AttachError>(AttachPlan::Ensure)
            ==> around.target is Gilstate,
        around.target is Ambiguous || around.target is HomeGone ==> outcome(config, count, around)
            is Err,
        forall|interp: usize|
            outcome(config, count, around) == Ok::<AttachPlan, AttachError>(
                AttachPlan::Home(interp),
            ) ==> around.target == ForeignTarget::Home(interp),
{
}

/// A thread that has a thread state attaches as it always did, whatever the home of the
/// extension copy is: a re-attach after a detach goes back to that thread state.
pub proof fn a_thread_state_decides(config: BuildConfig, count: AttachCount, around: Surroundings)
    requires
        around.has_thread_state,
        around.initialized,
        !around.finalizing,
        count.cell matches Some(current) ==> current != ATTACH_FORBIDDEN_DURING_TRAVERSE,
    ensures
        outcome(config, count, around) == Ok::<AttachPlan, AttachError>(
            if count.attached() {
                AttachPlan::Assume
            } else {
                AttachPlan::Ensure
            },
        ),
{
}

/// What an attach comes to, reason by reason. A thread that is attached stays so. It is refused
/// during a traversal; where the interpreter is not initialized; where it is finalizing, which
/// builds for Python 3.13 and later can ask; and, for a thread with no thread state alone, where
/// the interpreter that it belongs to is unknown or gone. Else it attaches: to the home of the
/// extension copy where the thread has no thread state and the home is not the main interpreter,
/// and by `PyGILState_Ensure` in every other case.
pub proof fn every_outcome_has_its_reason(
    config: BuildConfig,
    count: AttachCount,
    around: Surroundings,
)
    ensures
        ({
            let end = step_after(config, around, first_step(count), 5);
            let attached = count.cell matches Some(current) && current >= 1;
            let traversing = count.cell == Some(-1isize);
            let asks = !attached && !traversing;
            let healthy = asks && around.initialized && (config.py_minor < 13
                || !around.finalizing);
            let foreign = healthy && !around.has_thread_state;
            &&& end matches TryAttach::Decided(_)
            &&& end == TryAttach::Decided(Ok(AttachPlan::Assume)) <==> attached
            &&& end == TryAttach::Decided(Err(AttachError::ForbiddenDuringTraverse)) <==> traversing
            &&& end == TryAttach::Decided(Err(AttachError::NotInitialized)) <==> asks
                && !around.initialized
            &&& end == TryAttach::Decided(Err(AttachError::Finalizing)) <==> asks
                && around.initialized && config.py_minor >= 13 && around.finalizing
            &&& end == TryAttach::Decided(Err(AttachError::AmbiguousInterpreter)) <==> foreign
                && around.target is Ambiguous
            &&& end == TryAttach::Decided(Err(AttachError::HomeGone)) <==> foreign
                && around.target is HomeGone
            &&& end == TryAttach::Decided(Ok(AttachPlan::Ensure)) <==> healthy && (
            around.has_thread_state || around.target is Gilstate)
            &&& forall|interp: usize|
                end == TryAttach::Decided(Ok(AttachPlan::Home(interp))) <==> foreign
                    && around.target == ForeignTarget::Home(interp)
        }),
{
    reveal_with_fuel(step_after, 6);
}

/// What an attach asks, and in which order: nothing where the count decides; whether the
/// interpreter is initialized before all else; then it waits for an initialization that is still
/// running, whatever comes of it; it asks for finalization before it looks at the thread; and for
/// the home only where the thread has no thread state.
pub proof fn an_attach_asks_in_order(
    config: BuildConfig,
    count: AttachCount,
    around: Surroundings,
)
    requires
        count.cell matches Some(current) ==> current <= 0 && current != -1,
    ensures
        ({
            let step = |n: nat| step_after(config, around, first_step(count), n);
            &&& step(0) is IsInitialized
            &&& !around.initialized ==> step(1) is Decided
            &&& around.initialized ==> step(1) is WaitForInitialization
            &&& around.initialized && config.py_minor >= 13 ==> {
                &&& step(2) is IsFinalizing
                &&& around.finalizing ==> step(3) is Decided
                &&& !around.finalizing ==> step(3) is HasThreadState
                &&& !around.finalizing && around.has_thread_state ==> step(4) is Decided
                &&& !around.finalizing && !around.has_thread_state ==> step(4) is ForeignTarget
            }
            &&& around.initialized && config.py_minor < 13 ==> {
                &&& step(2) is HasThreadState
                &&& around.has_thread_state ==> step(3) is Decided
                &&& !around.has_thread_state ==> step(3) is ForeignTarget && step(4) is Decided
            }
        }),
{
    reveal_with_fuel(step_after, 5);
}

/// A thread that is attached, or in a traversal, asks nothing.
pub proof fn the_count_decides_first(count: AttachCount)
    ensures
        first_step(count) is Decided <==> (count.cell matches Some(current) && (current >= 1
            || current == -1)),
        first_step(count) == TryAttach::Decided(Ok(AttachPlan::Assume)) <==> (
        count.cell matches Some(current) && current >= 1),
{
}

/// A step takes only the answer to its own question: any other leaves it to be done, and what is
/// decided stays so.
pub proof fn a_step_takes_its_own_answer(config: BuildConfig, flag: bool, target: ForeignTarget)
    ensures
        TryAttach::IsInitialized.after(config, AttachAnswer::Waited) is IsInitialized,
        TryAttach::IsInitialized.after(config, AttachAnswer::Target(target)) is IsInitialized,
        TryAttach::WaitForInitialization.after(config, AttachAnswer::Flag(flag))
            is WaitForInitialization,
        TryAttach::WaitForInitialization.after(config, AttachAnswer::Target(target))
            is WaitForInitialization,
        TryAttach::IsFinalizing.after(config, AttachAnswer::Waited) is IsFinalizing,
        TryAttach::IsFinalizing.after(config, AttachAnswer::Target(target)) is IsFinalizing,
        TryAttach::HasThreadState.after(config, AttachAnswer::Waited) is HasThreadState,
        TryAttach::HasThreadState.after(config, AttachAnswer::Target(target)) is HasThreadState,
        TryAttach::ForeignTarget.after(config, AttachAnswer::Flag(flag)) is ForeignTarget,
        TryAttach::ForeignTarget.after(config, AttachAnswer::Waited) is ForeignTarget,
        forall|outcome: Result<AttachPlan, AttachError>, answer: AttachAnswer|
            (#[trigger] TryAttach::Decided(outcome).after(config, answer)) == TryAttach::Decided(
                outcome,
            ),
{
}

/// An attach that asks nothing goes where one that asks would: on a thread that has a thread
/// state, with an interpreter that is up and not in a traversal, both come to the same.
pub proof fn an_unchecked_attach_goes_where_a_checked_one_would(
    config: BuildConfig,
    count: AttachCount,
    around: Surroundings,
)
    requires
        count.cell != Some(-1isize),
        around.initialized,
        !around.finalizing,
        around.has_thread_state,
    ensures
        step_after(config, around, first_step(count), 5) == TryAttach::Decided(
            Ok(unchecked_plan(count)),
        ),
        unchecked_plan(count) is Assume <==> (count.cell matches Some(current) && current >= 1),
{
    reveal_with_fuel(step_after, 6);
}

/// A guard is undone by its release: the count is what it was before the guard, whatever kind of
/// guard it is; and while it is held the thread counts as attached, unless it has no count.
pub proof fn a_guard_is_undone(
    guard: AttachGuard,
    before: AttachCount,
    during: AttachCount,
    after: AttachCount,
)
    requires
        before.can_increment(),
        guard matches AttachGuard::Assumed { counted } ==> counted == (before.cell is Some),
        guard.begins(before, during),
        guard.ends(during, after),
    ensures
        after == before,
        before.cell is Some ==> during.attached(),
        before.cell is None ==> during == before,
{
}

/// A guard undoes what was done to make it: nothing where the thread was attached already, the
/// release of the GILState that it got where it attached that way, and the end of the thread
/// state that was made for it.
pub proof fn a_guard_undoes_what_made_it(guard: AttachGuard)
    ensures
        guard.undo() is Nothing <==> guard is Assumed,
        forall|gstate: i32|
            guard.undo() == DetachAction::ReleaseGil(gstate) <==> guard == (AttachGuard::Ensured {
                gstate,
            }),
        forall|tstate: usize|
            guard.undo() == DetachAction::DetachHome(tstate) <==> guard == (AttachGuard::Home {
                tstate,
            }),
        !guard.counts() <==> guard == (AttachGuard::Assumed { counted: false }),
{
}

/// Every count that is not forbidden, and is not at its end, takes one more guard; and only a
/// count that holds one gives one up.
pub proof fn a_count_takes_guards_unless_forbidden(count: AttachCount)
    ensures
        count.cell is None ==> count.can_increment() && count.can_decrement(),
        count.cell matches Some(current) ==> {
            &&& count.can_increment() <==> 0 <= current < isize::MAX
            &&& count.can_decrement() <==> current >= 1
            &&& count.can_increment() ==> count.plus(1).cell == Some((current + 1) as isize)
            &&& count.can_decrement() ==> count.plus(-1).cell == Some((current - 1) as isize)
        },
{
}

/// The message about a traversal is given in a traversal, and in no other prohibition.
pub proof fn the_prohibition_names_its_reason(current: isize)
    ensures
        ForbidAttaching::prohibition(current) == FORBIDDEN_DURING_TRAVERSE@ <==> current == -1,
        ForbidAttaching::prohibition(current) == CURRENTLY_PROHIBITED@ <==> current != -1,
        (AttachCount { cell: Some(current) }).in_gc_traversal() <==> current == -1,
        !(AttachCount { cell: None }).in_gc_traversal(),
{
    reveal_strlit(
        "Attaching a thread to the interpreter is prohibited while a __traverse__ implementation is running.",
    );
    reveal_strlit("Attaching a thread to the interpreter is currently prohibited.");
    assert(FORBIDDEN_DURING_TRAVERSE@.len() != CURRENTLY_PROHIBITED@.len());
}

/// An attach that must not fail recovers from one error alone, which an initialization mends; of
/// every other it says the reason.
pub proof fn an_error_says_its_reason(error: AttachError)
    ensures
        error.says() is None <==> error is NotInitialized,
        error is ForbiddenDuringTraverse ==> error.says() == Some(FORBIDDEN_DURING_TRAVERSE@),
        error is Finalizing ==> error.says() == Some(FINALIZING@),
        error is AmbiguousInterpreter ==> error.says() == Some(AMBIGUOUS_INTERPRETER@),
        error is HomeGone ==> error.says() == Some(HOME_INTERPRETER_GONE@),
{
}

/// The interpreter of a thread is the one that its thread state has, wherever there is a thread
/// state and the build can ask; only the limited API of Python 3.9 and older cannot.
pub proof fn a_thread_state_names_its_interpreter(
    config: BuildConfig,
    tstate: usize,
    interp: usize,
)
    ensures
        tstate == 0 ==> thread_interpreter(config, tstate, interp) == 0,
        tstate != 0 && !config.limited_api ==> thread_interpreter(config, tstate, interp)
            == interp,
        tstate != 0 && config.py_minor >= 10 ==> thread_interpreter(config, tstate, interp)
            == interp,
        config.limited_api && config.py_minor <= 9 ==> thread_interpreter(config, tstate, interp)
            == 0,
{
}

/// For a thread with no thread state, an attach and a drop of a reference go by one rule: the
/// drop is queued for the interpreter that the attach would land in, and it has no owner exactly
/// where the attach fails for want of a known interpreter.
pub proof fn a_drop_follows_the_attach(
    config: BuildConfig,
    count: AttachCount,
    around: Surroundings,
    home_id: i64,
)
    requires
        !around.has_thread_state,
        count.cell == Some(0isize),
        around.initialized,
        !around.finalizing,
    ensures
        match outcome(config, count, around) {
            Ok(AttachPlan::Ensure) => owner(config, None, around.target, home_id) == Some(MAIN_POOL),
            Ok(AttachPlan::Home(addr)) => owner(config, None, around.target, home_id) == Some(
                key_of(Interpreter { addr, id: home_id }),
            ),
            Ok(AttachPlan::Assume) => false,
            Err(_) => owner(config, None, around.target, home_id) is None,
        },
{
}

/// What happens to a thread's guards.
pub enum GuardEvent {
    /// A guard is created.
    Created,
    /// A guard is released, whichever one.
    Released,
}

/// How many guards are held after some events.
pub open spec fn held(events: Seq<GuardEvent>) -> int
    decreases events.len(),
{
    if events.len() == 0 {
        0
    } else {
        held(events.drop_last()) + match events.last() {
            GuardEvent::Created => 1int,
            GuardEvent::Released => -1,
        }
    }
}

/// The attach count after some events.
pub open spec fn count_after(start: AttachCount, events: Seq<GuardEvent>) -> AttachCount
    decreases events.len(),
{
    if events.len() == 0 {
        start
    } else {
        count_after(start, events.drop_last()).plus(
            match events.last() {
                GuardEvent::Created => 1int,
                GuardEvent::Released => -1,
            },
        )
    }
}

/// From a count of `start`, no guard is ever released that is not held, and never more are held
/// than can be counted.
pub open spec fn orderly(start: int, events: Seq<GuardEvent>) -> bool {
    forall|n: int|
        0 <= n <= events.len() ==> 0 <= start + held(#[trigger] events.take(n)) <= isize::MAX
}

/// The attach count is the number of guards held, those at the start among them, in whatever
/// order they are released: the thread is attached while it holds one, and no longer.
pub proof fn the_count_is_the_number_of_guards(start: AttachCount, events: Seq<GuardEvent>)
    requires
        start.cell matches Some(current) && current >= 0 && orderly(current as int, events),
    ensures
        count_after(start, events).cell == Some((start.cell->0 + held(events)) as isize),
        count_after(start, events).attached() <==> start.cell->0 + held(events) > 0,
    decreases events.len(),
{
    let current = start.cell->0 as int;
    assert(events.take(events.len() as int) =~= events);
    if events.len() > 0 {
        let before = events.drop_last();
        assert(orderly(current, before)) by {
            assert forall|n: int| 0 <= n <= before.len() implies 0 <= current + held(
                #[trigger] before.take(n),
            ) <= isize::MAX by {
                assert(before.take(n) =~= events.take(n));
            }
        }
        the_count_is_the_number_of_guards(start, before);
        assert(before.take(before.len() as int) =~= before);
        assert(events.take(before.len() as int) =~= before);
    }
}

/// A detach is undone when its guard is released, whatever happened to the count in the
/// meantime: the count is what it was before, the thread state that was released comes back, and
/// the decrefs queued for its interpreter are handed out, so that none is left. In between the
/// thread is not attached.
pub proof fn a_detach_is_undone(
    config: &BuildConfig,
    guard: SuspendAttach,
    saved: SuspendAttach,
    tstate: usize,
    resume: ResumeAttach,
    before: AttachCount,
    during: AttachCount,
    after: AttachCount,
    queued: Pools,
    left: Pools,
    py: Python,
    decrefs: Seq<usize>,
)
    requires
        guard.begins(before, during),
        saved.saved() == guard.saved(),
        saved.thread_state() == tstate,
        saved.ends(after, resume),
        drained(config, queued, left, py, decrefs),
        config.pool is Enabled,
    ensures
        !during.attached(),
        during.cell == Some(0isize),
        first_step(during) is IsInitialized,
        after == before,
        resume.thread_state() == tstate,
        decrefs == queued.queue(key_of(py.interp)),
        left.queue(key_of(py.interp)) == Seq::<usize>::empty(),
{
}

/// While a lock on attaching holds, the thread is not attached and an attach fails, whatever it
/// finds; when the lock is released the count is what it was before.
pub proof fn a_lock_is_undone(
    config: BuildConfig,
    around: Surroundings,
    lock: ForbidAttaching,
    before: AttachCount,
    during: AttachCount,
    after: AttachCount,
)
    requires
        lock.begins(ATTACH_FORBIDDEN_DURING_TRAVERSE, before, during),
        lock.ends(after),
    ensures
        !during.attached(),
        during.in_gc_traversal(),
        before.cell matches Some(current) && current >= 0 ==> !after.in_gc_traversal(),
        outcome(config, during, around) == Err::<AttachPlan, AttachError>(
            AttachError::ForbiddenDuringTraverse,
        ),
        after == before,
{
}

/// What CPython knows of a thread: the thread state that is current, and a thread state that was
/// made for it.
pub struct ThreadModel {
    /// The thread state that is current.
    pub current: Option<usize>,
    /// The thread state that exists, and whether it was cleared.
    pub made: Option<(usize, bool)>,
}

impl ThreadModel {
    /// CPython allows the call.
    pub open spec fn allows(self, call: ThreadStateCall) -> bool {
        match call {
            ThreadStateCall::New(_) => self.made is None,
            ThreadStateCall::Restore(tstate) => self.current is None && (self.made matches Some(
                (made, _),
            ) && made == tstate),
            ThreadStateCall::Clear(tstate) => self.current == Some(tstate) && self.made == Some(
                (tstate, false),
            ),
            ThreadStateCall::Save(tstate) => self.current == Some(tstate),
            ThreadStateCall::Delete(tstate) => self.current is None && self.made == Some(
                (tstate, true),
            ),
        }
    }

    /// The thread after the call, which returned `answer`.
    pub open spec fn after(self, call: ThreadStateCall, answer: usize) -> ThreadModel {
        match call {
            ThreadStateCall::New(_) => if answer == 0 {
                self
            } else {
                ThreadModel { made: Some((answer, false)), ..self }
            },
            ThreadStateCall::Restore(tstate) => ThreadModel { current: Some(tstate), ..self },
            ThreadStateCall::Clear(tstate) => ThreadModel { made: Some((tstate, true)), ..self },
            ThreadStateCall::Save(_) => ThreadModel { current: None, ..self },
            ThreadStateCall::Delete(_) => ThreadModel { made: None, ..self },
        }
    }

    /// The thread has no thread state.
    pub open spec fn bare() -> ThreadModel {
        ThreadModel { current: None, made: None }
    }
}

/// CPython allows every call of an attach with a fresh thread state. Where it succeeds the new
/// thread state is current; where it fails nothing is left.
pub proof fn attach_home_calls_are_allowed(interp: usize, tstate: usize, ignored: usize)
    ensures
        ({
            let new = ThreadStateCall::New(interp);
            let restore = ThreadStateCall::Restore(tstate);
            let made = ThreadModel::bare().after(new, tstate);
            &&& ThreadModel::bare().allows(new)
            &&& if tstate == 0 {
                &&& ThreadStep::Call(new).after(tstate) is Failed
                &&& made == ThreadModel::bare()
            } else {
                &&& ThreadStep::Call(new).after(tstate) == ThreadStep::Call(restore)
                &&& made.allows(restore)
                &&& ThreadStep::Call(restore).after(ignored) == ThreadStep::Attached(tstate)
                &&& made.after(restore, ignored) == (ThreadModel {
                    current: Some(tstate),
                    made: Some((tstate, false)),
                })
            }
        }),
{
}

/// CPython allows every call that undoes such an attach, and afterwards nothing of the thread
/// state is left.
pub proof fn detach_home_calls_are_allowed(tstate: usize, a: usize, b: usize, c: usize)
    ensures
        ({
            let attached = ThreadModel { current: Some(tstate), made: Some((tstate, false)) };
            let clear = ThreadStateCall::Clear(tstate);
            let save = ThreadStateCall::Save(tstate);
            let delete = ThreadStateCall::Delete(tstate);
            let cleared = attached.after(clear, a);
            let saved = cleared.after(save, b);
            &&& attached.allows(clear)
            &&& ThreadStep::Call(clear).after(a) == ThreadStep::Call(save)
            &&& cleared.allows(save)
            &&& ThreadStep::Call(save).after(b) == ThreadStep::Call(delete)
            &&& saved.allows(delete)
            &&& ThreadStep::Call(delete).after(c) is Detached
            &&& saved.after(delete, c) == ThreadModel::bare()
        }),
{
}

/// What has ended stays so, whatever number is handed back; and the calls on a thread state that
/// return nothing decide nothing.
pub proof fn a_thread_step_that_ended_stays(
    tstate: usize,
    message: &'static str,
    a: usize,
    b: usize,
)
    ensures
        ThreadStep::Attached(tstate).after(a) == ThreadStep::Attached(tstate),
        ThreadStep::Detached.after(a) == ThreadStep::Detached,
        ThreadStep::Failed(message).after(a) == ThreadStep::Failed(message),
        forall|call: ThreadStateCall|
            !(call is New) ==> #[trigger] ThreadStep::Call(call).after(a) == ThreadStep::Call(
                call,
            ).after(b),
{
}

/// There is one right order to undo such an attach: whichever calls clear, save and delete the
/// thread state in an order that CPython allows make them in this one.
pub proof fn there_is_one_order_to_detach(
    tstate: usize,
    first: ThreadStateCall,
    second: ThreadStateCall,
    third: ThreadStateCall,
    a: usize,
    b: usize,
    c: usize,
)
    requires
        !(first is New || second is New || third is New),
        ({
            let attached = ThreadModel { current: Some(tstate), made: Some((tstate, false)) };
            let one = attached.after(first, a);
            let two = one.after(second, b);
            &&& attached.allows(first)
            &&& one.allows(second)
            &&& two.allows(third)
            &&& two.after(third, c) == ThreadModel::bare()
        }),
    ensures
        first == ThreadStateCall::Clear(tstate),
        second == ThreadStateCall::Save(tstate),
        third == ThreadStateCall::Delete(tstate),
{
}

} // verus!
