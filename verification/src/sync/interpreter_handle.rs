//! Attaching a foreign thread back to the interpreter an object came from.
//!
//! `Python::attach` on a thread that was never attached goes through `PyGILState_Ensure`, which
//! binds the main interpreter by design. A thread pool that calls back into Python from a
//! sub-interpreter would execute in the main interpreter while it touches the sub-interpreter's
//! objects. So the interpreter is captured where a Python object is received, and the worker
//! attaches back to that one.

use crate::config::BuildConfig;
use crate::internal::home::{attach_home, detach_home, ThreadStateCall, ThreadStep};
use crate::internal::state::{thread_is_attached, AssumeAttached, AttachCount};
use crate::marker::Python;
use vstd::prelude::*;

verus! {

pub const ATTACHED_TO_ANOTHER: &'static str =
    "this thread is attached to a different interpreter; detach from it before attaching to another";

/// The interpreter a value belongs to, so a foreign thread can attach back to it.
#[derive(Copy, Clone, Debug, PartialEq, Eq, Structural)]
pub struct InterpreterHandle {
    interp: usize,
}

/// The next step of an attach to a handle's interpreter.
#[derive(Clone, Copy, Debug, PartialEq, Eq)]
pub enum HandleStep {
    /// Run the callback between [`HandleStep::enter`] and [`RunningCallback::leave`]. `fresh` is
    /// the thread state that was made for it, if one was.
    Run { fresh: Option<usize> },
    /// Make this call.
    Call(ThreadStateCall),
    /// The callback was run, and the thread is as it was before.
    Finished,
    /// The caller panics with this message.
    Panic(&'static str),
}

impl InterpreterHandle {
    /// The address of the interpreter.
    pub closed spec fn addr(self) -> usize {
        self.interp
    }

    /// The first step of an attach by a thread that is attached to `current`, or to none.
    pub open spec fn first_step(self, current: usize) -> HandleStep {
        if current == self.addr() {
            HandleStep::Run { fresh: None }
        } else if current != 0 {
            HandleStep::Panic(ATTACHED_TO_ANOTHER)
        } else {
            HandleStep::Call(ThreadStateCall::New(self.addr()))
        }
    }

    /// The interpreter this thread is currently attached to.
    pub fn current(py: Python) -> (r: Self)
        ensures
            r.addr() == py.interp.addr,
            r.first_step(py.interp.addr) == (HandleStep::Run { fresh: None }),
    {
        InterpreterHandle { interp: py.interp.addr }
    }

    /// The first step of running a callback attached to this handle's interpreter, whichever
    /// thread this is. `current` is the interpreter that the thread is attached to, or null.
    ///
    /// On a thread attached to this same interpreter the callback runs directly. On a thread
    /// attached to none a fresh thread state is made for it, used, and destroyed. A thread
    /// cannot be attached to two interpreters at once.
    pub fn attach(self, current: usize) -> (r: HandleStep)
        ensures
            r == self.first_step(current),
            r is Run <==> current == self.addr(),
            r is Panic <==> current != 0 && current != self.addr(),
    {
        if current == self.interp {
            return HandleStep::Run { fresh: None };
        }
        if current != 0 {
            return HandleStep::Panic(ATTACHED_TO_ANOTHER);
        }
        HandleStep::from_thread_step(attach_home(self.interp))
    }
}

impl HandleStep {
    /// The step that a step of a thread state is.
    pub open spec fn of_thread_step(step: ThreadStep) -> HandleStep {
        match step {
            ThreadStep::Call(call) => HandleStep::Call(call),
            ThreadStep::Attached(tstate) => HandleStep::Run { fresh: Some(tstate) },
            ThreadStep::Detached => HandleStep::Finished,
            ThreadStep::Failed(message) => HandleStep::Panic(message),
        }
    }

    fn from_thread_step(step: ThreadStep) -> (r: HandleStep)
        ensures
            r == Self::of_thread_step(step),
    {
        match step {
            ThreadStep::Call(call) => HandleStep::Call(call),
            ThreadStep::Attached(tstate) => HandleStep::Run { fresh: Some(tstate) },
            ThreadStep::Detached => HandleStep::Finished,
            ThreadStep::Failed(message) => HandleStep::Panic(message),
        }
    }

    /// The step that follows this one, whose call returned `answer`.
    pub open spec fn after(self, answer: usize) -> HandleStep {
        match self {
            HandleStep::Run { fresh } => match fresh {
                Some(tstate) => HandleStep::Call(ThreadStateCall::Clear(tstate)),
                None => HandleStep::Finished,
            },
            HandleStep::Call(call) => Self::of_thread_step(ThreadStep::Call(call).after(answer)),
            _ => self,
        }
    }

    /// The step that follows this one, whose call returned `answer`; zero for a call that
    /// returns nothing, and for the callback.
    pub fn next(self, answer: usize) -> (r: HandleStep)
        ensures
            r == self.after(answer),
    {
        match self {
            HandleStep::Run { fresh } => match fresh {
                Some(tstate) => Self::from_thread_step(detach_home(tstate)),
                None => HandleStep::Finished,
            },
            HandleStep::Call(call) => Self::from_thread_step(ThreadStep::Call(call).next(answer)),
            _ => self,
        }
    }
}

/// A callback that is running.
#[must_use]
pub struct RunningCallback {
    fresh: Option<usize>,
    attached: AssumeAttached,
}

impl HandleStep {
    /// Begins to run the callback: the thread is marked as attached, so that references dropped
    /// in the callback are decref'd, not deferred.
    pub fn enter(self, count: &mut AttachCount) -> (r: RunningCallback)
        requires
            self is Run,
            old(count).can_increment(),
        ensures
            r.step() == self,
            *final(count) == old(count).plus(1),
            old(count).cell is Some ==> final(count).attached(),
            final(count).plus(-1) == *old(count),
    {
        let fresh = match self {
            HandleStep::Run { fresh } => fresh,
            _ => None,
        };
        RunningCallback { fresh, attached: AssumeAttached::new(count) }
    }
}

impl RunningCallback {
    /// The step that runs the callback.
    pub closed spec fn step(&self) -> HandleStep {
        HandleStep::Run { fresh: self.fresh }
    }

    /// Ends the callback: the mark is taken back, and the attach goes on.
    pub fn leave(self, count: &mut AttachCount) -> (r: HandleStep)
        requires
            old(count).can_decrement(),
        ensures
            *final(count) == old(count).plus(-1),
            final(count).plus(1) == *old(count),
            r == self.step().after(0),
    {
        self.attached.release(count);
        HandleStep::Run { fresh: self.fresh }.next(0)
    }
}

/// How a build finds the interpreter that a thread is attached to.
#[derive(Clone, Copy, Debug, PartialEq, Eq, Structural)]
pub enum CurrentSource {
    /// From `PyThreadState_GetUnchecked`, which returns null where there is no thread state.
    ThreadState,
    /// From the attach count, which misses a thread that CPython attached on its own.
    AttachCount,
}

/// The source that a build has: only CPython 3.13 and newer, outside the limited API, has an
/// accessor that is not fatal without a thread state.
pub open spec fn source_of(config: BuildConfig) -> CurrentSource {
    if config.py_minor >= 13 && !config.limited_api && !config.alternative_impl {
        CurrentSource::ThreadState
    } else {
        CurrentSource::AttachCount
    }
}

/// The source that a build has.
pub fn current_source(config: &BuildConfig) -> (r: CurrentSource)
    ensures
        r == source_of(*config),
{
    if config.py_minor >= 13 && !config.limited_api && !config.alternative_impl {
        CurrentSource::ThreadState
    } else {
        CurrentSource::AttachCount
    }
}

/// The interpreter that a thread is attached to, as its build sees it; null where it sees none.
pub open spec fn current_of(
    config: BuildConfig,
    count: AttachCount,
    tstate: usize,
    interp: usize,
) -> usize {
    let attached = match source_of(config) {
        CurrentSource::ThreadState => tstate != 0,
        CurrentSource::AttachCount => count.attached(),
    };
    if attached {
        interp
    } else {
        0
    }
}

/// The interpreter this thread is attached to, or null if it is attached to none. `tstate` is
/// the thread state that is current, or null, where the build can ask for it; `interp` is the
/// current interpreter, which the caller asks for only where there is one.
pub fn current_interpreter_or_null(
    config: &BuildConfig,
    count: &AttachCount,
    tstate: usize,
    interp: usize,
) -> (r: usize)
    ensures
        r == match source_of(*config) {
            CurrentSource::ThreadState => if tstate != 0 {
                interp
            } else {
                0
            },
            CurrentSource::AttachCount => if count.attached() {
                interp
            } else {
                0
            },
        },
        r == current_of(*config, *count, tstate, interp),
{
    match current_source(config) {
        CurrentSource::ThreadState => if tstate == 0 {
            0
        } else {
            interp
        },
        CurrentSource::AttachCount => if thread_is_attached(count) {
            interp
        } else {
            0
        },
    }
}

} // verus!
