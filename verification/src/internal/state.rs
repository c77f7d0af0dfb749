//! Attachment of the current thread to the interpreter.

use crate::config::{BuildConfig, PoolMode};
use crate::internal::home::ForeignTarget;
use crate::internal::pool::{key_of, PoolCache, Pools};
use crate::marker::Python;
use vstd::prelude::*;

verus! {

/// The attach count while an implementation of `__traverse__` is running.
pub const ATTACH_FORBIDDEN_DURING_TRAVERSE: isize = -1;

pub const FORBIDDEN_DURING_TRAVERSE: &'static str =
    "Attaching a thread to the interpreter is prohibited while a __traverse__ implementation is running.";

pub const CURRENTLY_PROHIBITED: &'static str =
    "Attaching a thread to the interpreter is currently prohibited.";

pub const FINALIZING: &'static str =
    "Cannot attach to the Python interpreter while it is finalizing.";

pub const AMBIGUOUS_INTERPRETER: &'static str =
    "Python::attach was called on a thread that has no Python thread state (e.g. a rayon, tokio or std::thread worker), and this extension is loaded by more than one interpreter, so PyO3 cannot tell which one is meant. Attaching to the main interpreter would run another interpreter's objects under the wrong GIL. Capture a pyo3::sync::InterpreterHandle where the Python object is obtained and call handle.attach(...) on this thread.";

pub const HOME_INTERPRETER_GONE: &'static str =
    "Python::attach was called on a thread that has no Python thread state, after the only interpreter that loaded this extension was finalized.";

/// A thread's count of the guards that hold it attached. It is greater than zero while the
/// thread is attached, and negative while attaching is forbidden. There is none once the
/// thread's local storage is gone, as in a call from `atexit`.
#[derive(Clone, Copy, Debug, PartialEq, Eq, Structural)]
pub struct AttachCount {
    pub cell: Option<isize>,
}

impl AttachCount {
    /// The thread is attached.
    pub open spec fn attached(self) -> bool {
        self.cell matches Some(count) && count > 0
    }

    /// The thread is in a GC traversal.
    pub open spec fn in_gc_traversal(self) -> bool {
        self.cell == Some(ATTACH_FORBIDDEN_DURING_TRAVERSE)
    }

    /// One more guard can be counted: attaching is not forbidden, and the count has room.
    pub open spec fn can_increment(self) -> bool {
        self.cell matches Some(count) ==> 0 <= count < isize::MAX
    }

    /// A guard is counted.
    pub open spec fn can_decrement(self) -> bool {
        self.cell matches Some(count) ==> count > 0
    }

    /// The count with `by` added; nothing where there is no count.
    pub open spec fn plus(self, by: int) -> AttachCount {
        match self.cell {
            Some(count) => AttachCount { cell: Some((count + by) as isize) },
            None => self,
        }
    }
}

/// Checks whether the thread is attached.
pub fn thread_is_attached(count: &AttachCount) -> (r: bool)
    ensures
        r == count.attached(),
{
    match count.cell {
        Some(current) => current > 0,
        None => false,
    }
}

/// Checks whether this thread is in a GC traversal.
pub fn is_in_gc_traversal(count: &AttachCount) -> (r: bool)
    ensures
        r == (count.cell == Some(ATTACH_FORBIDDEN_DURING_TRAVERSE)),
        r == count.in_gc_traversal(),
{
    match count.cell {
        Some(current) => current == ATTACH_FORBIDDEN_DURING_TRAVERSE,
        None => false,
    }
}

/// Whether this thread has an attach count: its local storage is not gone yet.
pub fn attach_count_cell(count: &AttachCount) -> (r: bool)
    ensures
        r == (count.cell is Some),
{
    count.cell.is_some()
}

/// Increments the attach count, to be called whenever a guard is created. Where the count is
/// negative the caller fails with [`ForbidAttaching::bail`] instead.
pub fn increment_attach_count(count: &mut AttachCount)
    requires
        old(count).can_increment(),
    ensures
        *final(count) == old(count).plus(1),
        old(count).cell matches Some(current) ==> final(count).cell == Some((current + 1) as isize),
{
    if let Some(current) = count.cell {
        count.cell = Some(current + 1);
    }
}

/// Decrements the attach count, to be called whenever a guard is dropped.
pub fn decrement_attach_count(count: &mut AttachCount)
    requires
        old(count).can_decrement(),
    ensures
        *final(count) == old(count).plus(-1),
        old(count).cell matches Some(current) ==> final(count).cell == Some((current - 1) as isize),
{
    if let Some(current) = count.cell {
        count.cell = Some(current - 1);
    }
}

/// Holds attaching forbidden.
pub struct ForbidAttaching {
    count: isize,
}

impl ForbidAttaching {
    /// The count to go back to.
    pub closed spec fn saved(&self) -> isize {
        self.count
    }

    /// The lock takes the count from `before` to `during`, for this reason.
    pub open spec fn begins(&self, reason: isize, before: AttachCount, during: AttachCount) -> bool {
        &&& before.cell == Some(self.saved())
        &&& during.cell == Some(reason)
    }

    /// The end of the lock leaves the count at `after`.
    pub open spec fn ends(&self, after: AttachCount) -> bool {
        after.cell == Some(self.saved())
    }

    /// Locks access to the interpreter while an implementation of `__traverse__` is running.
    pub fn during_traverse(count: &mut AttachCount) -> (r: Self)
        requires
            old(count).cell is Some,
        ensures
            r.begins(ATTACH_FORBIDDEN_DURING_TRAVERSE, *old(count), *final(count)),
    {
        Self::new(ATTACH_FORBIDDEN_DURING_TRAVERSE, count)
    }

    fn new(reason: isize, count: &mut AttachCount) -> (r: Self)
        requires
            old(count).cell is Some,
        ensures
            r.begins(reason, *old(count), *final(count)),
    {
        let saved: isize = count.cell.unwrap();
        count.cell = Some(reason);
        ForbidAttaching { count: saved }
    }

    /// What is said where attaching fails while the count is `current`.
    pub open spec fn prohibition(current: isize) -> Seq<char> {
        if current == ATTACH_FORBIDDEN_DURING_TRAVERSE {
            FORBIDDEN_DURING_TRAVERSE@
        } else {
            CURRENTLY_PROHIBITED@
        }
    }

    /// Why attaching fails while the count is `current`.
    pub fn bail(current: isize) -> (r: &'static str)
        requires
            current < 0,
        ensures
            r@ == if current == ATTACH_FORBIDDEN_DURING_TRAVERSE {
                FORBIDDEN_DURING_TRAVERSE@
            } else {
                CURRENTLY_PROHIBITED@
            },
            r@ == Self::prohibition(current),
    {
        if current == ATTACH_FORBIDDEN_DURING_TRAVERSE {
            FORBIDDEN_DURING_TRAVERSE
        } else {
            CURRENTLY_PROHIBITED
        }
    }

    /// Ends the lock: the count is what it was before.
    pub fn release(self, count: &mut AttachCount)
        requires
            old(count).cell is Some,
        ensures
            self.ends(*final(count)),
    {
        count.cell = Some(self.count);
    }
}

/// Marks the thread as attached for the duration of a callback that CPython makes into the
/// extension directly, such as a capsule destructor or an `atexit` hook. It drains no pool.
pub struct AssumeAttached {
    _counted: (),
}

impl AssumeAttached {
    /// A thread state must be current until the guard is released.
    pub fn new(count: &mut AttachCount) -> (r: Self)
        requires
            old(count).can_increment(),
        ensures
            *final(count) == old(count).plus(1),
            old(count).cell is Some ==> final(count).attached(),
            final(count).plus(-1) == *old(count),
    {
        increment_attach_count(count);
        AssumeAttached { _counted: () }
    }

    /// Ends the callback.
    pub fn release(self, count: &mut AttachCount)
        requires
            old(count).can_decrement(),
        ensures
            *final(count) == old(count).plus(-1),
            final(count).plus(1) == *old(count),
    {
        decrement_attach_count(count);
    }
}

/// Holds the thread detached for a while.
pub struct SuspendAttach {
    count: isize,
    tstate: usize,
}

impl SuspendAttach {
    /// The count to go back to.
    pub closed spec fn saved(&self) -> isize {
        self.count
    }

    /// The thread state to go back to.
    pub closed spec fn thread_state(&self) -> usize {
        self.tstate
    }

    /// The detach takes the count from `before` to `during`.
    pub open spec fn begins(&self, before: AttachCount, during: AttachCount) -> bool {
        &&& before.cell == Some(self.saved())
        &&& during.cell == Some(0isize)
    }

    /// The end of the detach leaves the count at `after`, and `resume` to be done.
    pub open spec fn ends(&self, after: AttachCount, resume: ResumeAttach) -> bool {
        &&& after.cell == Some(self.saved())
        &&& resume.thread_state() == self.thread_state()
    }

    /// Starts to detach: the caller calls `PyEval_SaveThread` next, and hands the thread state
    /// that it gets to [`Self::saved_thread`].
    pub fn new(count: &mut AttachCount) -> (r: Self)
        requires
            old(count).cell is Some,
        ensures
            r.begins(*old(count), *final(count)),
    {
        let saved: isize = count.cell.unwrap();
        count.cell = Some(0);
        SuspendAttach { count: saved, tstate: 0 }
    }

    /// The thread state that the thread detached from.
    pub fn saved_thread(self, tstate: usize) -> (r: Self)
        ensures
            r.saved() == self.saved(),
            r.thread_state() == tstate,
    {
        SuspendAttach { count: self.count, tstate }
    }

    /// Goes back: the count is what it was before. What is left to do is returned.
    pub fn release(self, count: &mut AttachCount) -> (r: ResumeAttach)
        requires
            old(count).cell is Some,
        ensures
            self.ends(*final(count), r),
    {
        count.cell = Some(self.count);
        ResumeAttach { tstate: self.tstate }
    }
}

/// What is left to do at the end of a detach: the caller passes [`Self::tstate`] to
/// `PyEval_RestoreThread`, and then calls [`Self::restored`].
#[must_use]
pub struct ResumeAttach {
    tstate: usize,
}

impl ResumeAttach {
    /// The thread state to go back to.
    pub closed spec fn thread_state(&self) -> usize {
        self.tstate
    }

    /// The thread state to go back to.
    pub fn tstate(&self) -> (r: usize)
        ensures
            r == self.thread_state(),
    {
        self.tstate
    }

    /// Ends the detach once the thread state is current again: the decrefs that were queued for
    /// its interpreter in the meantime, for the caller to apply.
    pub fn restored(
        self,
        config: &BuildConfig,
        pools: &mut Pools,
        cache: &mut PoolCache,
        py: Python,
    ) -> (r: Vec<usize>)
        requires
            old(pools).wf(),
            old(cache).sound(*old(pools)),
        ensures
            drained(config, *old(pools), *final(pools), py, r@),
            final(cache).sound(*final(pools)),
    {
        drop_deferred_references(config, pools, cache, py)
    }
}

/// Drains the pool of the interpreter that this thread is attached to, in a build that has
/// pools. What it returns is for the caller to decref.
pub fn drop_deferred_references(
    config: &BuildConfig,
    pools: &mut Pools,
    cache: &mut PoolCache,
    py: Python,
) -> (r: Vec<usize>)
    requires
        old(pools).wf(),
        old(cache).sound(*old(pools)),
    ensures
        drained(config, *old(pools), *final(pools), py, r@),
        final(cache).sound(*final(pools)),
{
    match config.pool {
        PoolMode::Enabled => pools.drop_deferred_references(cache, py.interp),
        _ => Vec::new(),
    }
}

/// What holds a thread attached.
#[derive(Debug, PartialEq, Eq, Structural)]
pub enum AttachGuard {
    /// The thread was already attached when this guard was acquired.
    Assumed {
        /// The guard is counted. It is not where the thread had no count.
        counted: bool,
    },
    /// The thread attached when this guard was acquired.
    Ensured { gstate: i32 },
    /// A thread with no Python thread state, attached to this extension copy's home interpreter
    /// with a fresh thread state.
    Home { tstate: usize },
}

/// Why a thread cannot attach.
#[derive(Clone, Copy, Debug, PartialEq, Eq, Structural)]
pub enum AttachError {
    /// Forbidden during GC traversal.
    ForbiddenDuringTraverse,
    /// The interpreter is not initialized.
    NotInitialized,
    /// The interpreter is finalizing.
    Finalizing,
    /// A thread with no Python thread state tried to attach, and this extension copy was loaded
    /// by more than one interpreter: which one is meant is unknown.
    AmbiguousInterpreter,
    /// A thread with no Python thread state tried to attach, and the only interpreter that
    /// loaded this extension copy has been finalized.
    HomeGone,
}

/// How a thread attaches.
#[derive(Clone, Copy, Debug, PartialEq, Eq, Structural)]
pub enum AttachPlan {
    /// It is attached already: [`AttachGuard::assume_attached`].
    Assume,
    /// By `PyGILState_Ensure`, then [`AttachGuard::do_attach_unchecked`].
    Ensure,
    /// To the home interpreter, by `attach_home`, then [`AttachGuard::attached_home`].
    Home(usize),
}

/// The next step of an attach.
#[derive(Clone, Copy, Debug, PartialEq, Eq)]
pub enum TryAttach {
    /// Ask `Py_IsInitialized`.
    IsInitialized,
    /// Wait for an initialization in progress.
    WaitForInitialization,
    /// Ask `Py_IsFinalizing`.
    IsFinalizing,
    /// Ask whether `PyGILState_GetThisThreadState` is non-null.
    HasThreadState,
    /// Ask for the foreign target of the extension copy.
    ForeignTarget,
    /// It is decided.
    Decided(Result<AttachPlan, AttachError>),
}

/// What came of a step.
#[derive(Clone, Copy, Debug, PartialEq, Eq, Structural)]
pub enum AttachAnswer {
    /// The answer to a question.
    Flag(bool),
    /// The wait is over.
    Waited,
    /// The foreign target.
    Target(ForeignTarget),
}

/// The first step of an attach.
pub open spec fn first_step(count: AttachCount) -> TryAttach {
    if count.attached() {
        TryAttach::Decided(Ok(AttachPlan::Assume))
    } else if count.cell == Some(ATTACH_FORBIDDEN_DURING_TRAVERSE) {
        TryAttach::Decided(Err(AttachError::ForbiddenDuringTraverse))
    } else {
        TryAttach::IsInitialized
    }
}

/// What a thread without a thread state comes to.
pub open spec fn foreign_outcome(target: ForeignTarget) -> Result<AttachPlan, AttachError> {
    match target {
        ForeignTarget::Gilstate => Ok(AttachPlan::Ensure),
        ForeignTarget::Home(interp) => Ok(AttachPlan::Home(interp)),
        ForeignTarget::Ambiguous => Err(AttachError::AmbiguousInterpreter),
        ForeignTarget::HomeGone => Err(AttachError::HomeGone),
    }
}

impl TryAttach {
    /// The step that follows this one once it was answered. An answer to another step leaves
    /// this one to be done.
    pub open spec fn after(self, config: BuildConfig, answer: AttachAnswer) -> TryAttach {
        match (self, answer) {
            // Py_IsInitialized() can be true while the initialization is still running.
            (TryAttach::IsInitialized, AttachAnswer::Flag(initialized)) => if initialized {
                TryAttach::WaitForInitialization
            } else {
                TryAttach::Decided(Err(AttachError::NotInitialized))
            },
            (TryAttach::WaitForInitialization, AttachAnswer::Waited) => if config.py_minor >= 13 {
                TryAttach::IsFinalizing
            } else {
                TryAttach::HasThreadState
            },
            (TryAttach::IsFinalizing, AttachAnswer::Flag(finalizing)) => if finalizing {
                TryAttach::Decided(Err(AttachError::Finalizing))
            } else {
                TryAttach::HasThreadState
            },
            (TryAttach::HasThreadState, AttachAnswer::Flag(has_thread_state)) =>
                if has_thread_state {
                TryAttach::Decided(Ok(AttachPlan::Ensure))
            } else {
                TryAttach::ForeignTarget
            },
            (TryAttach::ForeignTarget, AttachAnswer::Target(target)) => TryAttach::Decided(
                foreign_outcome(target),
            ),
            _ => self,
        }
    }

    /// The step that follows once this one was answered.
    pub fn next(self, config: &BuildConfig, answer: AttachAnswer) -> (r: TryAttach)
        ensures
            r == self.after(*config, answer),
    {
        match (self, answer) {
            (TryAttach::IsInitialized, AttachAnswer::Flag(initialized)) => if initialized {
                TryAttach::WaitForInitialization
            } else {
                TryAttach::Decided(Err(AttachError::NotInitialized))
            },
            (TryAttach::WaitForInitialization, AttachAnswer::Waited) => if config.py_minor >= 13 {
                TryAttach::IsFinalizing
            } else {
                TryAttach::HasThreadState
            },
            (TryAttach::IsFinalizing, AttachAnswer::Flag(finalizing)) => if finalizing {
                TryAttach::Decided(Err(AttachError::Finalizing))
            } else {
                TryAttach::HasThreadState
            },
            (TryAttach::HasThreadState, AttachAnswer::Flag(has_thread_state)) => if has_thread_state {
                TryAttach::Decided(Ok(AttachPlan::Ensure))
            } else {
                TryAttach::ForeignTarget
            },
            (TryAttach::ForeignTarget, AttachAnswer::Target(target)) => TryAttach::Decided(
                match target {
                    ForeignTarget::Gilstate => Ok(AttachPlan::Ensure),
                    ForeignTarget::Home(interp) => Ok(AttachPlan::Home(interp)),
                    ForeignTarget::Ambiguous => Err(AttachError::AmbiguousInterpreter),
                    ForeignTarget::HomeGone => Err(AttachError::HomeGone),
                },
            ),
            _ => self,
        }
    }
}

/// What an attach that must not fail comes to.
#[derive(Clone, Copy, Debug, PartialEq, Eq)]
pub enum Attach {
    /// The thread attaches.
    By(AttachPlan),
    /// The interpreter is initialized first; then the thread attaches by `PyGILState_Ensure`.
    InitializeFirst,
    /// It cannot: the caller panics with this message.
    Panic(&'static str),
}

impl AttachError {
    /// What an attach that must not fail says of this error. There is nothing to say where it
    /// recovers.
    pub open spec fn says(self) -> Option<Seq<char>> {
        match self {
            AttachError::ForbiddenDuringTraverse => Some(FORBIDDEN_DURING_TRAVERSE@),
            AttachError::NotInitialized => None,
            AttachError::Finalizing => Some(FINALIZING@),
            AttachError::AmbiguousInterpreter => Some(AMBIGUOUS_INTERPRETER@),
            AttachError::HomeGone => Some(HOME_INTERPRETER_GONE@),
        }
    }
}

/// How a thread attaches that does not ask whether it can.
pub open spec fn unchecked_plan(count: AttachCount) -> AttachPlan {
    if count.attached() {
        AttachPlan::Assume
    } else {
        AttachPlan::Ensure
    }
}

impl AttachGuard {
    /// The guard is counted.
    pub open spec fn counts(self) -> bool {
        self != (AttachGuard::Assumed { counted: false })
    }

    /// What has to be done before the guard is released.
    pub open spec fn undo(self) -> DetachAction {
        match self {
            AttachGuard::Assumed { .. } => DetachAction::Nothing,
            AttachGuard::Ensured { gstate } => DetachAction::ReleaseGil(gstate),
            AttachGuard::Home { tstate } => DetachAction::DetachHome(tstate),
        }
    }

    /// The guard takes the count from `before` to `during`.
    pub open spec fn begins(self, before: AttachCount, during: AttachCount) -> bool {
        during == if self.counts() {
            before.plus(1)
        } else {
            before
        }
    }

    /// The release of the guard takes the count from `during` to `after`.
    pub open spec fn ends(self, during: AttachCount, after: AttachCount) -> bool {
        after == if self.counts() {
            during.plus(-1)
        } else {
            during
        }
    }

    /// What to do about the outcome of [`Self::try_attach`], for a caller that has no use for an
    /// error.
    pub fn attach(outcome: Result<AttachPlan, AttachError>) -> (r: Attach)
        ensures
            match outcome {
                Ok(plan) => r == Attach::By(plan),
                Err(error) => match error.says() {
                    Some(text) => r matches Attach::Panic(message) && message@ == text,
                    None => r == Attach::InitializeFirst,
                },
            },
    {
        match outcome {
            Ok(plan) => Attach::By(plan),
            Err(AttachError::ForbiddenDuringTraverse) => Attach::Panic(FORBIDDEN_DURING_TRAVERSE),
            Err(AttachError::NotInitialized) => Attach::InitializeFirst,
            Err(AttachError::Finalizing) => Attach::Panic(FINALIZING),
            Err(AttachError::AmbiguousInterpreter) => Attach::Panic(AMBIGUOUS_INTERPRETER),
            Err(AttachError::HomeGone) => Attach::Panic(HOME_INTERPRETER_GONE),
        }
    }

    /// The first step of an attach that returns gracefully if the thread cannot attach.
    pub fn try_attach(count: &AttachCount) -> (r: TryAttach)
        ensures
            r == first_step(*count),
    {
        match count.cell {
            Some(current) => if current > 0 {
                TryAttach::Decided(Ok(AttachPlan::Assume))
            } else if current == ATTACH_FORBIDDEN_DURING_TRAVERSE {
                TryAttach::Decided(Err(AttachError::ForbiddenDuringTraverse))
            } else {
                TryAttach::IsInitialized
            },
            None => TryAttach::IsInitialized,
        }
    }

    /// How a thread attaches without any state checking, as during multi-phase initialization.
    pub fn attach_unchecked(count: &AttachCount) -> (r: AttachPlan)
        ensures
            r == if count.attached() {
                AttachPlan::Assume
            } else {
                AttachPlan::Ensure
            },
            r == unchecked_plan(*count),
    {
        if thread_is_attached(count) {
            AttachPlan::Assume
        } else {
            AttachPlan::Ensure
        }
    }

    /// The guard of a thread that `PyGILState_Ensure` just attached, and the decrefs that were
    /// queued for its interpreter, for the caller to apply.
    pub fn do_attach_unchecked(
        config: &BuildConfig,
        gstate: i32,
        count: &mut AttachCount,
        pools: &mut Pools,
        cache: &mut PoolCache,
        py: Python,
    ) -> (r: (AttachGuard, Vec<usize>))
        requires
            old(count).can_increment(),
            old(pools).wf(),
            old(cache).sound(*old(pools)),
        ensures
            r.0 == (AttachGuard::Ensured { gstate }),
            r.0.begins(*old(count), *final(count)),
            r.0.undo() == DetachAction::ReleaseGil(gstate),
            *final(count) == old(count).plus(1),
            drained(config, *old(pools), *final(pools), py, r.1@),
            final(cache).sound(*final(pools)),
    {
        increment_attach_count(count);
        let decrefs = drop_deferred_references(config, pools, cache, py);
        (AttachGuard::Ensured { gstate }, decrefs)
    }

    /// The guard of a thread that was just attached to the home interpreter with a fresh thread
    /// state, and the decrefs that were queued for that interpreter, for the caller to apply.
    pub fn attached_home(
        config: &BuildConfig,
        tstate: usize,
        count: &mut AttachCount,
        pools: &mut Pools,
        cache: &mut PoolCache,
        py: Python,
    ) -> (r: (AttachGuard, Vec<usize>))
        requires
            old(count).can_increment(),
            old(pools).wf(),
            old(cache).sound(*old(pools)),
        ensures
            r.0 == (AttachGuard::Home { tstate }),
            r.0.begins(*old(count), *final(count)),
            r.0.undo() == DetachAction::DetachHome(tstate),
            *final(count) == old(count).plus(1),
            drained(config, *old(pools), *final(pools), py, r.1@),
            final(cache).sound(*final(pools)),
    {
        increment_attach_count(count);
        let decrefs = drop_deferred_references(config, pools, cache, py);
        (AttachGuard::Home { tstate }, decrefs)
    }

    /// The guard of a thread that is already attached, and the decrefs that were queued for its
    /// interpreter, for the caller to apply.
    pub fn assume_attached(
        config: &BuildConfig,
        count: &mut AttachCount,
        pools: &mut Pools,
        cache: &mut PoolCache,
        py: Python,
    ) -> (r: (AttachGuard, Vec<usize>))
        requires
            old(count).can_increment(),
            old(pools).wf(),
            old(cache).sound(*old(pools)),
        ensures
            r.0 == (AttachGuard::Assumed { counted: old(count).cell is Some }),
            r.0.begins(*old(count), *final(count)),
            r.0.undo() == DetachAction::Nothing,
            *final(count) == old(count).plus(1),
            drained(config, *old(pools), *final(pools), py, r.1@),
            final(cache).sound(*final(pools)),
    {
        let counted = attach_count_cell(count);
        if counted {
            increment_attach_count(count);
        }
        let decrefs = drop_deferred_references(config, pools, cache, py);
        (AttachGuard::Assumed { counted }, decrefs)
    }

    /// What has to be done before the guard is released.
    pub fn detach_action(&self) -> (r: DetachAction)
        ensures
            r == match *self {
                AttachGuard::Assumed { .. } => DetachAction::Nothing,
                AttachGuard::Ensured { gstate } => DetachAction::ReleaseGil(gstate),
                AttachGuard::Home { tstate } => DetachAction::DetachHome(tstate),
            },
            r == self.undo(),
    {
        match *self {
            AttachGuard::Assumed { .. } => DetachAction::Nothing,
            AttachGuard::Ensured { gstate } => DetachAction::ReleaseGil(gstate),
            AttachGuard::Home { tstate } => DetachAction::DetachHome(tstate),
        }
    }

    /// Releases the guard, once its [`Self::detach_action`] was done: the attach count goes down,
    /// except for a guard that was not counted.
    pub fn release(self, count: &mut AttachCount)
        requires
            !(self matches AttachGuard::Assumed { counted } && !counted) ==> old(
                count,
            ).can_decrement(),
        ensures
            *final(count) == if self == (AttachGuard::Assumed { counted: false }) {
                *old(count)
            } else {
                old(count).plus(-1)
            },
            self.ends(*old(count), *final(count)),
    {
        match self {
            AttachGuard::Assumed { counted } => {
                if counted {
                    decrement_attach_count(count);
                }
            },
            _ => {
                decrement_attach_count(count);
            },
        }
    }
}

/// The pool of the thread's interpreter was drained into `decrefs`, and no other was touched. One
/// pool less is dirty where there was anything to drain.
pub open spec fn drained(
    config: &BuildConfig,
    before: Pools,
    after: Pools,
    py: Python,
    decrefs: Seq<usize>,
) -> bool {
    &&& after.wf()
    &&& before.keeps_caches_sound(after)
    &&& after.generation() == before.generation()
    &&& if config.pool is Enabled {
        &&& decrefs == before.queue(key_of(py.interp))
        &&& after.queue(key_of(py.interp)) == Seq::<usize>::empty()
        &&& after@ == if before.dirty_pools() == 0 {
            before@
        } else {
            before@.insert(key_of(py.interp), Seq::empty())
        }
        &&& after.dirty_pools() == before.dirty_pools() - if decrefs.len() > 0 {
            1int
        } else {
            0
        }
    } else {
        &&& decrefs == Seq::<usize>::empty()
        &&& after == before
    }
}

/// How a thread stops being attached.
#[derive(Clone, Copy, Debug, PartialEq, Eq, Structural)]
pub enum DetachAction {
    /// It stays attached.
    Nothing,
    /// By `PyGILState_Release`.
    ReleaseGil(i32),
    /// By `detach_home`.
    DetachHome(usize),
}

/// The interpreter of a thread state, or null where there is none or the build cannot tell.
pub open spec fn thread_interpreter(config: BuildConfig, tstate: usize, interp: usize) -> usize {
    if tstate != 0 && (!config.limited_api || config.py_minor >= 10) {
        interp
    } else {
        0
    }
}

/// The interpreter this thread's GILState thread state belongs to, or null. `tstate` is that
/// thread state, and `interp` its interpreter where the build can ask for it.
///
/// The limited API of Python 3.9 has no `PyThreadState_GetInterpreter`: the answer is null then.
pub fn current_interpreter_or_null(config: &BuildConfig, tstate: usize, interp: usize) -> (r: usize)
    ensures
        r == if tstate != 0 && (!config.limited_api || config.py_minor >= 10) {
            interp
        } else {
            0
        },
        r == thread_interpreter(*config, tstate, interp),
{
    if tstate == 0 {
        return 0;
    }
    if !config.limited_api || config.py_minor >= 10 {
        interp
    } else {
        0
    }
}

} // verus!
