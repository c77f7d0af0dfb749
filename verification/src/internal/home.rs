//! The home interpreter of an extension copy.
//!
//! A thread that has never had a Python thread state would be bound to the main interpreter by
//! `PyGILState_Ensure`. For a worker spawned by an extension that runs in a sub-interpreter
//! that is the wrong one. So each extension copy records the interpreters that executed its
//! modules:
//!
//! - exactly one interpreter: a foreign-thread attach goes to that interpreter;
//! - more than one: which one the caller means is unknown, so the attach fails loudly instead
//!   of silently landing in main;
//! - the home interpreter was finalized: the attach fails loudly.

use vstd::prelude::*;

verus! {

/// Where a foreign-thread attach should go.
#[derive(Debug, Clone, Copy, PartialEq, Eq, Structural)]
pub enum ForeignTarget {
    /// No home recorded, or the home is the main interpreter: `PyGILState_Ensure` is correct.
    Gilstate,
    /// Attach to this interpreter with a fresh thread state.
    Home(usize),
    /// More than one interpreter executed a module of this copy.
    Ambiguous,
    /// The only interpreter that executed a module of this copy was finalized.
    HomeGone,
}

/// The home is the main interpreter.
pub const HOME_IS_MAIN: u8 = 1;

/// More than one interpreter executed a module.
pub const MULTI: u8 = 2;

/// The home was finalized.
pub const HOME_GONE: u8 = 4;

/// The flag is set.
pub open spec fn flag_set(flags: u8, flag: u8) -> bool {
    flags & flag != 0
}

/// The home and the flags after a module exec by `interp`.
pub open spec fn exec_state(home: usize, flags: u8, interp: usize, is_main: bool) -> (usize, u8) {
    if home == 0 {
        (
            interp,
            (flags & MULTI) | (if is_main {
                HOME_IS_MAIN
            } else {
                0
            }),
        )
    } else if home == interp {
        (home, flags)
    } else {
        (home, flags | MULTI)
    }
}

/// The state transition for a module exec by `interp`: the new `(home, flags)`.
pub fn on_exec(home: usize, flags: u8, interp: usize, interp_is_main: bool) -> (r: (usize, u8))
    ensures
        // First interpreter, or the first after the previous home was finalized.
        home == 0 ==> {
            &&& r.0 == interp
            &&& r.1 == (flags & MULTI) | (if interp_is_main { HOME_IS_MAIN } else { 0 })
        },
        home != 0 && home == interp ==> r == (home, flags),
        home != 0 && home != interp ==> r == (home, flags | MULTI),
        r == exec_state(home, flags, interp, interp_is_main),
{
    if home == 0 {
        // Nothing of an earlier home survives it, so taking over is safe.
        let main_flag: u8 = if interp_is_main {
            HOME_IS_MAIN
        } else {
            0
        };
        (interp, (flags & MULTI) | main_flag)
    } else if home == interp {
        (home, flags)
    } else {
        (home, flags | MULTI)
    }
}

/// Where a foreign-thread attach goes in this state.
pub open spec fn target_of(home: usize, flags: u8) -> ForeignTarget {
    if flag_set(flags, MULTI) {
        ForeignTarget::Ambiguous
    } else if home != 0 {
        if flag_set(flags, HOME_IS_MAIN) {
            ForeignTarget::Gilstate
        } else {
            ForeignTarget::Home(home)
        }
    } else if flag_set(flags, HOME_GONE) {
        ForeignTarget::HomeGone
    } else {
        ForeignTarget::Gilstate
    }
}

/// The decision for a foreign-thread attach.
pub fn target(home: usize, flags: u8) -> (r: ForeignTarget)
    ensures
        r == target_of(home, flags),
{
    if flags & MULTI != 0 {
        ForeignTarget::Ambiguous
    } else if home == 0 {
        if flags & HOME_GONE != 0 {
            ForeignTarget::HomeGone
        } else {
            ForeignTarget::Gilstate
        }
    } else if flags & HOME_IS_MAIN != 0 {
        ForeignTarget::Gilstate
    } else {
        ForeignTarget::Home(home)
    }
}

/// What a copy recorded, as one value: the home, and what the flags say.
pub struct Record {
    /// The home interpreter, if there is one.
    pub home: Option<usize>,
    /// The home is the main interpreter.
    pub main: bool,
    /// More than one interpreter executed a module.
    pub multi: bool,
    /// The home was finalized, and no interpreter took over.
    pub gone: bool,
}

impl Record {
    /// No module was executed yet.
    pub open spec fn empty() -> Record {
        Record { home: None, main: false, multi: false, gone: false }
    }

    /// The record after `interp` executed a module.
    pub open spec fn executed(self, interp: usize, is_main: bool) -> Record {
        match self.home {
            None => Record { home: Some(interp), main: is_main, multi: self.multi, gone: false },
            Some(home) => Record { multi: self.multi || home != interp, ..self },
        }
    }

    /// The record after `interp` was torn down.
    pub open spec fn torn_down(self, interp: usize) -> Record {
        if self.home == Some(interp) {
            Record { home: None, main: false, multi: self.multi, gone: true }
        } else {
            self
        }
    }

    /// Where a foreign-thread attach goes.
    pub open spec fn target(self) -> ForeignTarget {
        if self.multi {
            ForeignTarget::Ambiguous
        } else {
            match self.home {
                Some(home) => if self.main {
                    ForeignTarget::Gilstate
                } else {
                    ForeignTarget::Home(home)
                },
                None => if self.gone {
                    ForeignTarget::HomeGone
                } else {
                    ForeignTarget::Gilstate
                },
            }
        }
    }
}

/// The home interpreter of one extension copy, written on module exec and interpreter
/// teardown, read on foreign-thread attach.
pub struct HomeState {
    home: usize,
    flags: u8,
}

impl View for HomeState {
    type V = Record;

    closed spec fn view(&self) -> Record {
        Record {
            home: if self.home == 0 {
                None
            } else {
                Some(self.home)
            },
            main: flag_set(self.flags, HOME_IS_MAIN),
            multi: flag_set(self.flags, MULTI),
            gone: flag_set(self.flags, HOME_GONE),
        }
    }
}

impl HomeState {
    /// Only a recorded home is main, and only a missing one is gone.
    pub closed spec fn wf(&self) -> bool {
        &&& flag_set(self.flags, HOME_IS_MAIN) ==> self.home != 0
        &&& flag_set(self.flags, HOME_GONE) ==> self.home == 0
    }

    /// No module of this copy was executed yet.
    pub fn new() -> (r: Self)
        ensures
            r.wf(),
            r@ == Record::empty(),
    {
        assert(!flag_set(0u8, HOME_IS_MAIN) && !flag_set(0u8, MULTI) && !flag_set(0u8, HOME_GONE)) by (bit_vector);
        HomeState { home: 0, flags: 0 }
    }

    /// Records that `interp`, the interpreter that the calling thread is attached to, executed
    /// a module of this copy.
    pub fn note_module_exec(&mut self, interp: usize, interp_is_main: bool)
        requires
            old(self).wf(),
            interp != 0,
        ensures
            final(self).wf(),
            final(self)@ == old(self)@.executed(interp, interp_is_main),
    {
        let flags: u8 = self.flags;
        proof {
            lemma_flags(flags);
        }
        let (home, flags) = on_exec(self.home, flags, interp, interp_is_main);
        self.home = home;
        self.flags = flags;
    }

    /// Called when `interp` is torn down: forgets it if it is home.
    pub fn on_interpreter_teardown(&mut self, interp: usize)
        requires
            old(self).wf(),
            interp != 0,
        ensures
            final(self).wf(),
            final(self)@ == old(self)@.torn_down(interp),
    {
        proof {
            lemma_flags(self.flags);
        }
        if self.home == interp {
            self.home = 0;
            self.flags = (self.flags & MULTI) | HOME_GONE;
        }
    }

    /// Where an attach from a thread with no Python thread state should go.
    pub fn foreign_target(&self) -> (r: ForeignTarget)
        requires
            self.wf(),
        ensures
            r == self@.target(),
    {
        target(self.home, self.flags)
    }
}

pub const NULL_THREAD_STATE: &'static str = "PyThreadState_New returned null";

/// A call into CPython on a thread state of this thread's own.
#[derive(Debug, Clone, Copy, PartialEq, Eq, Structural)]
pub enum ThreadStateCall {
    /// `PyThreadState_New` on this interpreter. It needs no GIL.
    New(usize),
    /// `PyEval_RestoreThread` on this thread state.
    Restore(usize),
    /// `PyThreadState_Clear` on this thread state.
    Clear(usize),
    /// `PyEval_SaveThread`, which detaches this thread state and releases the GIL.
    Save(usize),
    /// `PyThreadState_Delete` on this thread state.
    Delete(usize),
}

/// The next step of attaching a thread with a fresh thread state, or of undoing that.
#[derive(Debug, Clone, Copy, PartialEq, Eq)]
pub enum ThreadStep {
    /// Make this call.
    Call(ThreadStateCall),
    /// The thread is attached with this thread state.
    Attached(usize),
    /// The thread is detached, and its thread state is gone.
    Detached,
    /// It failed: the caller panics with this message.
    Failed(&'static str),
}

/// Attaches this thread, which has no thread state, to `interp` with a fresh thread state. Pair
/// with [`detach_home`].
pub fn attach_home(interp: usize) -> (r: ThreadStep)
    ensures
        r == ThreadStep::Call(ThreadStateCall::New(interp)),
{
    ThreadStep::Call(ThreadStateCall::New(interp))
}

/// Undoes [`attach_home`].
pub fn detach_home(tstate: usize) -> (r: ThreadStep)
    ensures
        r == ThreadStep::Call(ThreadStateCall::Clear(tstate)),
{
    ThreadStep::Call(ThreadStateCall::Clear(tstate))
}

impl ThreadStep {
    /// The step that follows a call that returned `answer`.
    pub open spec fn after(self, answer: usize) -> ThreadStep {
        match self {
            ThreadStep::Call(call) => match call {
                ThreadStateCall::New(_) => if answer == 0 {
                    ThreadStep::Failed(NULL_THREAD_STATE)
                } else {
                    ThreadStep::Call(ThreadStateCall::Restore(answer))
                },
                ThreadStateCall::Restore(tstate) => ThreadStep::Attached(tstate),
                // Clear needs the thread state to be current, and Delete needs it not to be.
                ThreadStateCall::Clear(tstate) => ThreadStep::Call(ThreadStateCall::Save(tstate)),
                ThreadStateCall::Save(tstate) => ThreadStep::Call(ThreadStateCall::Delete(tstate)),
                ThreadStateCall::Delete(_) => ThreadStep::Detached,
            },
            _ => self,
        }
    }

    /// The step that follows this one, whose call returned `answer`; zero for a call that
    /// returns nothing.
    pub fn next(self, answer: usize) -> (r: ThreadStep)
        ensures
            r == self.after(answer),
    {
        match self {
            ThreadStep::Call(call) => match call {
                ThreadStateCall::New(_) => if answer == 0 {
                    ThreadStep::Failed(NULL_THREAD_STATE)
                } else {
                    ThreadStep::Call(ThreadStateCall::Restore(answer))
                },
                ThreadStateCall::Restore(tstate) => ThreadStep::Attached(tstate),
                ThreadStateCall::Clear(tstate) => ThreadStep::Call(ThreadStateCall::Save(tstate)),
                ThreadStateCall::Save(tstate) => ThreadStep::Call(ThreadStateCall::Delete(tstate)),
                ThreadStateCall::Delete(_) => ThreadStep::Detached,
            },
            _ => self,
        }
    }
}

/// An exec makes its interpreter the home where there is none, and leaves the home as it is
/// else. It sets the mark of more than one interpreter exactly where the home is another one, and
/// never takes it away. Whether the home is the main interpreter is decided where it becomes the
/// home, which is also where an earlier one is no longer called gone.
pub proof fn an_exec_keeps_the_home(home: usize, flags: u8, interp: usize, is_main: bool)
    ensures
        ({
            let r = exec_state(home, flags, interp, is_main);
            &&& r.0 == if home == 0 {
                interp
            } else {
                home
            }
            &&& flag_set(r.1, MULTI) <==> flag_set(flags, MULTI) || (home != 0 && home != interp)
            &&& flag_set(r.1, HOME_IS_MAIN) <==> if home == 0 {
                is_main
            } else {
                flag_set(flags, HOME_IS_MAIN)
            }
            &&& flag_set(r.1, HOME_GONE) <==> home != 0 && flag_set(flags, HOME_GONE)
        }),
{
    lemma_flags(flags);
}

proof fn lemma_flags(flags: u8)
    ensures
        flag_set((flags & MULTI) | HOME_IS_MAIN, MULTI) == flag_set(flags, MULTI),
        flag_set((flags & MULTI) | HOME_IS_MAIN, HOME_IS_MAIN),
        !flag_set((flags & MULTI) | HOME_IS_MAIN, HOME_GONE),
        flag_set((flags & MULTI) | 0u8, MULTI) == flag_set(flags, MULTI),
        !flag_set((flags & MULTI) | 0u8, HOME_IS_MAIN),
        !flag_set((flags & MULTI) | 0u8, HOME_GONE),
        flag_set(flags | MULTI, MULTI),
        flag_set(flags | MULTI, HOME_IS_MAIN) == flag_set(flags, HOME_IS_MAIN),
        flag_set(flags | MULTI, HOME_GONE) == flag_set(flags, HOME_GONE),
        flag_set((flags & MULTI) | HOME_GONE, MULTI) == flag_set(flags, MULTI),
        !flag_set((flags & MULTI) | HOME_GONE, HOME_IS_MAIN),
        flag_set((flags & MULTI) | HOME_GONE, HOME_GONE),
{
    assert((flags & 2 | 1) & 2 != 0 <==> flags & 2 != 0) by (bit_vector);
    assert((flags & 2 | 1) & 1 != 0) by (bit_vector);
    assert((flags & 2 | 1) & 4 == 0) by (bit_vector);
    assert((flags & 2 | 0) & 2 != 0 <==> flags & 2 != 0) by (bit_vector);
    assert((flags & 2 | 0) & 1 == 0) by (bit_vector);
    assert((flags & 2 | 0) & 4 == 0) by (bit_vector);
    assert((flags | 2) & 2 != 0) by (bit_vector);
    assert((flags | 2) & 1 != 0 <==> flags & 1 != 0) by (bit_vector);
    assert((flags | 2) & 4 != 0 <==> flags & 4 != 0) by (bit_vector);
    assert((flags & 2 | 4) & 2 != 0 <==> flags & 2 != 0) by (bit_vector);
    assert((flags & 2 | 4) & 1 == 0) by (bit_vector);
    assert((flags & 2 | 4) & 4 != 0) by (bit_vector);
}

} // verus!
