//! What happens when an interpreter is torn down.
//!
//! Dropping the registry is not enough on its own. A heap type object is part of a reference
//! cycle, so releasing the last counted reference still leaves it for the cyclic collector. And
//! `Py_EndInterpreter` runs the interpreter's `atexit` callbacks before it tears the interpreter
//! down, while the collector still works. So a hook is registered there, once per interpreter.
//!
//! The function that collects is looked up when the hook is registered, while the interpreter is
//! healthy; the teardown calls the function that was stored, and imports nothing.
//!
//! The functions here say which call into CPython comes next. The caller makes it and hands
//! back what it returned; zero stands for a null pointer and for the code of a failure.

use crate::internal::home::HomeState;
use crate::internal::pool::{key_of, torn_out, Pools};
use crate::internal::state::{AssumeAttached, AttachCount};
use crate::marker::Interpreter;
use crate::table::Table;
use vstd::prelude::*;

verus! {

/// What the caller does next to register the hook.
#[derive(Clone, Copy, Debug, PartialEq, Eq, Structural)]
pub enum HookCall {
    /// `PyDict_GetItemString` of the hook key in the interpreter's dict.
    HasHook,
    /// `PyImport_ImportModule` of `gc`.
    ImportGc,
    /// `PyObject_GetAttrString` of `collect` in `gc`.
    GetCollect,
    /// `Py_DECREF` of `gc`.
    ReleaseGc,
    /// `PyImport_ImportModule` of `atexit`.
    ImportAtexit,
    /// `PyCFunction_NewEx` of the teardown.
    NewFunction,
    /// `PyUnicode_FromString` of `register`.
    NewName,
    /// Call the method of that name of `atexit` with the function.
    CallRegister,
    /// `Py_DECREF` of what that call returned.
    ReleaseResult,
    /// `Py_XDECREF` of the name.
    ReleaseName,
    /// `PyDict_SetItemString` of the hook key in the interpreter's dict to the function, which
    /// marks the hook as registered.
    StoreHook,
    /// `Py_DECREF` of the function.
    ReleaseCallable,
    /// `Py_DECREF` of `atexit`.
    ReleaseAtexit,
    /// `Py_XDECREF` of `gc.collect`, which nothing will call.
    ReleaseCollect,
    /// `PyErr_Clear`.
    ClearError,
    /// Nothing.
    Done,
}

/// How far the registration of the hook is. Failure is not fatal: without the hook the registry
/// is reclaimed later, or not at all.
#[derive(Clone, Copy)]
pub struct HookStep {
    /// The interpreter's dict.
    pub dict: usize,
    /// The module `gc`, while it is held.
    pub gc: usize,
    /// The function `gc.collect`, once it was found.
    pub collect: usize,
    /// The module `atexit`, while it is held.
    pub atexit: usize,
    /// The teardown as a Python function, while it is held.
    pub callable: usize,
    /// The name of the method to call, while it is held.
    pub name: usize,
    /// What the method returned, while it is held.
    pub result: usize,
    /// The hook is registered with `atexit`.
    pub registered: bool,
    /// The last call failed and left an error behind, to be cleared first.
    pub error: bool,
    /// What comes next, once there is no error left behind.
    pub at: HookCall,
}

/// Registers the teardown of the interpreter with this dict with its `atexit`, once per
/// interpreter.
pub fn register_teardown_hook(dict: usize) -> (r: HookStep)
    ensures
        r == HookStep::start(dict),
{
    HookStep {
        dict,
        gc: 0,
        collect: 0,
        atexit: 0,
        callable: 0,
        name: 0,
        result: 0,
        registered: false,
        error: false,
        at: HookCall::HasHook,
    }
}

impl HookStep {
    /// The beginning of the registration.
    pub open spec fn start(dict: usize) -> HookStep {
        HookStep {
            dict,
            gc: 0,
            collect: 0,
            atexit: 0,
            callable: 0,
            name: 0,
            result: 0,
            registered: false,
            error: false,
            at: HookCall::HasHook,
        }
    }

    /// What the caller does next.
    pub open spec fn call(self) -> HookCall {
        if self.error {
            HookCall::ClearError
        } else {
            self.at
        }
    }

    /// The registration after the call, which returned `answer`.
    pub open spec fn after(self, answer: usize) -> HookStep {
        if self.error {
            HookStep { error: false, ..self }
        } else {
            match self.at {
                HookCall::HasHook => if answer != 0 {
                    HookStep { at: HookCall::Done, ..self }
                } else {
                    HookStep { at: HookCall::ImportGc, ..self }
                },
                HookCall::ImportGc => if answer == 0 {
                    HookStep { error: true, at: HookCall::ImportAtexit, ..self }
                } else {
                    HookStep { gc: answer, at: HookCall::GetCollect, ..self }
                },
                HookCall::GetCollect => if answer == 0 {
                    HookStep { error: true, at: HookCall::ReleaseGc, ..self }
                } else {
                    HookStep { collect: answer, at: HookCall::ReleaseGc, ..self }
                },
                HookCall::ReleaseGc => HookStep { gc: 0, at: HookCall::ImportAtexit, ..self },
                HookCall::ImportAtexit => if answer == 0 {
                    HookStep { error: true, at: HookCall::ReleaseCollect, ..self }
                } else {
                    HookStep { atexit: answer, at: HookCall::NewFunction, ..self }
                },
                HookCall::NewFunction => if answer == 0 {
                    HookStep { error: true, at: HookCall::ReleaseAtexit, ..self }
                } else {
                    HookStep { callable: answer, at: HookCall::NewName, ..self }
                },
                HookCall::NewName => HookStep { name: answer, at: HookCall::CallRegister, ..self },
                HookCall::CallRegister => if answer == 0 {
                    HookStep { error: true, at: HookCall::ReleaseName, ..self }
                } else {
                    HookStep { result: answer, registered: true, at: HookCall::ReleaseResult, ..self }
                },
                HookCall::ReleaseResult => HookStep { result: 0, at: HookCall::ReleaseName, ..self },
                HookCall::ReleaseName => HookStep {
                    name: 0,
                    // The mark says that the hook is registered: without it a later attempt is made.
                    at: if self.registered {
                        HookCall::StoreHook
                    } else {
                        HookCall::ReleaseCallable
                    },
                    ..self
                },
                HookCall::StoreHook => HookStep {
                    error: answer == 0,
                    at: HookCall::ReleaseCallable,
                    ..self
                },
                HookCall::ReleaseCallable => HookStep {
                    callable: 0,
                    at: HookCall::ReleaseAtexit,
                    ..self
                },
                HookCall::ReleaseAtexit => HookStep {
                    atexit: 0,
                    at: if self.registered {
                        HookCall::Done
                    } else {
                        HookCall::ReleaseCollect
                    },
                    ..self
                },
                HookCall::ReleaseCollect => HookStep { collect: 0, at: HookCall::Done, ..self },
                _ => self,
            }
        }
    }

    /// What the caller does next.
    pub fn next_call(&self) -> (r: HookCall)
        ensures
            r == self.call(),
    {
        if self.error {
            HookCall::ClearError
        } else {
            self.at
        }
    }

    /// Goes on after the call, which returned `answer`.
    pub fn next(self, answer: usize) -> (r: HookStep)
        ensures
            r == self.after(answer),
    {
        if self.error {
            return HookStep { error: false, ..self };
        }
        match self.at {
            HookCall::HasHook => if answer != 0 {
                HookStep { at: HookCall::Done, ..self }
            } else {
                HookStep { at: HookCall::ImportGc, ..self }
            },
            HookCall::ImportGc => if answer == 0 {
                HookStep { error: true, at: HookCall::ImportAtexit, ..self }
            } else {
                HookStep { gc: answer, at: HookCall::GetCollect, ..self }
            },
            HookCall::GetCollect => if answer == 0 {
                HookStep { error: true, at: HookCall::ReleaseGc, ..self }
            } else {
                HookStep { collect: answer, at: HookCall::ReleaseGc, ..self }
            },
            HookCall::ReleaseGc => HookStep { gc: 0, at: HookCall::ImportAtexit, ..self },
            HookCall::ImportAtexit => if answer == 0 {
                HookStep { error: true, at: HookCall::ReleaseCollect, ..self }
            } else {
                HookStep { atexit: answer, at: HookCall::NewFunction, ..self }
            },
            HookCall::NewFunction => if answer == 0 {
                HookStep { error: true, at: HookCall::ReleaseAtexit, ..self }
            } else {
                HookStep { callable: answer, at: HookCall::NewName, ..self }
            },
            HookCall::NewName => HookStep { name: answer, at: HookCall::CallRegister, ..self },
            HookCall::CallRegister => if answer == 0 {
                HookStep { error: true, at: HookCall::ReleaseName, ..self }
            } else {
                HookStep { result: answer, registered: true, at: HookCall::ReleaseResult, ..self }
            },
            HookCall::ReleaseResult => HookStep { result: 0, at: HookCall::ReleaseName, ..self },
            HookCall::ReleaseName => HookStep {
                name: 0,
                // The mark says that the hook is registered: without it a later attempt is made.
                at: if self.registered {
                    HookCall::StoreHook
                } else {
                    HookCall::ReleaseCallable
                },
                ..self
            },
            HookCall::StoreHook => HookStep {
                error: answer == 0,
                at: HookCall::ReleaseCallable,
                ..self
            },
            HookCall::ReleaseCallable => HookStep {
                callable: 0,
                at: HookCall::ReleaseAtexit,
                ..self
            },
            HookCall::ReleaseAtexit => HookStep {
                atexit: 0,
                at: if self.registered {
                    HookCall::Done
                } else {
                    HookCall::ReleaseCollect
                },
                ..self
            },
            HookCall::ReleaseCollect => HookStep { collect: 0, at: HookCall::Done, ..self },
            _ => self,
        }
    }
}

/// The collect functions that were looked up, by the interpreter that each belongs to.
pub struct Hooks {
    entries: Table<usize>,
}

impl Hooks {
    /// The function of each interpreter that has one.
    pub closed spec fn view(&self) -> Map<usize, usize> {
        self.entries@
    }

    /// No interpreter has two functions.
    pub closed spec fn wf(&self) -> bool {
        self.entries.wf()
    }

    /// No functions.
    pub fn new() -> (r: Self)
        ensures
            r.wf(),
            r@ == Map::<usize, usize>::empty(),
    {
        Hooks { entries: Table::new() }
    }

    /// Takes the function of an interpreter out.
    pub fn take(&mut self, interp: usize) -> (r: Option<usize>)
        requires
            old(self).wf(),
        ensures
            final(self).wf(),
            r == if old(self)@.dom().contains(interp) {
                Some(old(self)@[interp])
            } else {
                None
            },
            final(self)@ == old(self)@.remove(interp),
            !final(self)@.dom().contains(interp),
            forall|other: usize|
                other != interp ==> (#[trigger] final(self)@.dom().contains(other) <==> old(
                    self,
                )@.dom().contains(other)) && final(self)@[other] == old(self)@[other],
    {
        match self.entries.find(interp) {
            None => {
                assert(self@ =~= self@.remove(interp));
                None
            },
            Some(at) => Some(self.entries.remove(interp, at)),
        }
    }

    /// Stores the function of an interpreter. One that is left over from an earlier interpreter
    /// at the same address is forgotten.
    pub fn store(&mut self, interp: usize, collect: usize)
        requires
            old(self).wf(),
        ensures
            final(self).wf(),
            final(self)@ == old(self)@.insert(interp, collect),
            final(self)@.dom().contains(interp),
            final(self)@[interp] == collect,
            forall|other: usize|
                other != interp ==> (#[trigger] final(self)@.dom().contains(other) <==> old(
                    self,
                )@.dom().contains(other)) && final(self)@[other] == old(self)@[other],
    {
        let ghost before = *self;
        let _stale = self.take(interp);
        let _at: usize = self.entries.push(interp, collect);
        assert(self@ =~= before@.insert(interp, collect));
    }
}

/// How often the collector runs. Collecting a type object makes what it referenced unreachable
/// in turn, and that is only seen on the next pass.
pub const COLLECT_PASSES: u32 = 3;

/// What the caller does next to tear an interpreter down.
#[derive(Clone, Copy, Debug, PartialEq, Eq, Structural)]
pub enum TeardownCall {
    /// [`TeardownStep::forget_home`].
    ForgetHome,
    /// `PyInterpreterState_GetDict` of the interpreter.
    GetDict,
    /// `PyDict_DelItemString` of the registry key in the dict, which drops the registry.
    DeleteRegistry,
    /// One round of [`TeardownStep::drain_pool`]. The answer is whether there was a pool.
    DrainPool,
    /// Call the function that was stored.
    Collect,
    /// `Py_DECREF` of what that call returned.
    ReleaseResult,
    /// `Py_DECREF` of the function.
    ReleaseCollect,
    /// `PyErr_Clear`.
    ClearError,
    /// Return `None` to CPython.
    ReturnNone,
}

/// How far a teardown is.
#[derive(Clone, Copy)]
pub struct TeardownStep {
    /// The interpreter's dict.
    pub dict: usize,
    /// The function that collects, or null where none was stored.
    pub collect: usize,
    /// What it returned, while that is held.
    pub result: usize,
    /// How often it is still to be called.
    pub passes: u32,
    /// The last call failed and left an error behind, to be cleared first.
    pub error: bool,
    /// What comes next, once there is no error left behind.
    pub at: TeardownCall,
}

/// Begins the teardown of the current interpreter. CPython calls it directly, so the thread is
/// marked as attached: the values that it releases are decref'd, not deferred. `collect` is the
/// function that was stored when the hook was registered, or null. The guard is released before
/// the teardown returns.
pub fn teardown(count: &mut AttachCount, collect: usize) -> (r: (AssumeAttached, TeardownStep))
    requires
        old(count).can_increment(),
    ensures
        *final(count) == old(count).plus(1),
        old(count).cell is Some ==> final(count).attached(),
        final(count).plus(-1) == *old(count),
        r.1 == TeardownStep::start(collect),
{
    let attached = AssumeAttached::new(count);
    (
        attached,
        TeardownStep {
            dict: 0,
            collect,
            result: 0,
            passes: COLLECT_PASSES,
            error: false,
            at: TeardownCall::ForgetHome,
        },
    )
}

impl TeardownStep {
    /// The beginning of a teardown.
    pub open spec fn start(collect: usize) -> TeardownStep {
        TeardownStep {
            dict: 0,
            collect,
            result: 0,
            passes: COLLECT_PASSES,
            error: false,
            at: TeardownCall::ForgetHome,
        }
    }

    /// What the caller does next.
    pub open spec fn call(self) -> TeardownCall {
        if self.error {
            TeardownCall::ClearError
        } else {
            self.at
        }
    }

    /// The teardown after the call, which returned `answer`.
    pub open spec fn after(self, answer: usize) -> TeardownStep {
        if self.error {
            TeardownStep { error: false, ..self }
        } else {
            match self.at {
                TeardownCall::ForgetHome => TeardownStep { at: TeardownCall::GetDict, ..self },
                TeardownCall::GetDict => if answer == 0 {
                    TeardownStep { passes: 0, at: TeardownCall::DrainPool, ..self }
                } else {
                    TeardownStep { dict: answer, at: TeardownCall::DeleteRegistry, ..self }
                },
                TeardownCall::DeleteRegistry => TeardownStep {
                    error: answer == 0,
                    at: TeardownCall::DrainPool,
                    ..self
                },
                TeardownCall::DrainPool => if answer != 0 {
                    self
                } else {
                    TeardownStep {
                        at: if self.collect == 0 {
                            TeardownCall::ReturnNone
                        } else if self.passes > 0 {
                            TeardownCall::Collect
                        } else {
                            TeardownCall::ReleaseCollect
                        },
                        ..self
                    }
                },
                TeardownCall::Collect => if answer == 0 {
                    TeardownStep { error: true, at: TeardownCall::ReleaseCollect, ..self }
                } else {
                    TeardownStep { result: answer, at: TeardownCall::ReleaseResult, ..self }
                },
                TeardownCall::ReleaseResult => TeardownStep {
                    result: 0,
                    passes: if self.passes > 0 { (self.passes - 1) as u32 } else { 0 },
                    at: if self.passes > 1 {
                        TeardownCall::Collect
                    } else {
                        TeardownCall::ReleaseCollect
                    },
                    ..self
                },
                TeardownCall::ReleaseCollect => TeardownStep {
                    collect: 0,
                    at: TeardownCall::ReturnNone,
                    ..self
                },
                _ => self,
            }
        }
    }

    /// What the caller does next.
    pub fn next_call(&self) -> (r: TeardownCall)
        ensures
            r == self.call(),
    {
        if self.error {
            TeardownCall::ClearError
        } else {
            self.at
        }
    }

    /// Goes on after the call, which returned `answer`.
    pub fn next(self, answer: usize) -> (r: TeardownStep)
        ensures
            r == self.after(answer),
    {
        if self.error {
            return TeardownStep { error: false, ..self };
        }
        match self.at {
            TeardownCall::ForgetHome => TeardownStep { at: TeardownCall::GetDict, ..self },
            TeardownCall::GetDict => if answer == 0 {
                TeardownStep { passes: 0, at: TeardownCall::DrainPool, ..self }
            } else {
                TeardownStep { dict: answer, at: TeardownCall::DeleteRegistry, ..self }
            },
            TeardownCall::DeleteRegistry => TeardownStep {
                error: answer == 0,
                at: TeardownCall::DrainPool,
                ..self
            },
            TeardownCall::DrainPool => if answer != 0 {
                self
            } else {
                TeardownStep {
                    at: if self.collect == 0 {
                        TeardownCall::ReturnNone
                    } else if self.passes > 0 {
                        TeardownCall::Collect
                    } else {
                        TeardownCall::ReleaseCollect
                    },
                    ..self
                }
            },
            TeardownCall::Collect => if answer == 0 {
                TeardownStep { error: true, at: TeardownCall::ReleaseCollect, ..self }
            } else {
                TeardownStep { result: answer, at: TeardownCall::ReleaseResult, ..self }
            },
            TeardownCall::ReleaseResult => TeardownStep {
                result: 0,
                passes: if self.passes > 0 { self.passes - 1 } else { 0 },
                at: if self.passes > 1 {
                    TeardownCall::Collect
                } else {
                    TeardownCall::ReleaseCollect
                },
                ..self
            },
            TeardownCall::ReleaseCollect => TeardownStep {
                collect: 0,
                at: TeardownCall::ReturnNone,
                ..self
            },
            _ => self,
        }
    }
}

impl TeardownStep {
    /// Does [`TeardownCall::ForgetHome`]: forgets the interpreter if it is the home of this copy.
    pub fn forget_home(self, home: &mut HomeState, interp: Interpreter) -> (r: TeardownStep)
        requires
            self.call() is ForgetHome,
            old(home).wf(),
            interp.addr != 0,
        ensures
            final(home).wf(),
            final(home)@ == old(home)@.torn_down(interp.addr),
            r == self.after(0),
    {
        home.on_interpreter_teardown(interp.addr);
        self.next(0)
    }

    /// Does one round of [`TeardownCall::DrainPool`]: takes the interpreter's pool away, if it
    /// has one. What was queued in it is for the caller to decref, which can queue more; then
    /// another round follows.
    pub fn drain_pool(self, pools: &mut Pools, interp: Interpreter) -> (r: (
        TeardownStep,
        Vec<usize>,
    ))
        requires
            self.call() is DrainPool,
            old(pools).wf(),
        ensures
            final(pools).wf(),
            final(pools)@ == old(pools)@.remove(key_of(interp)),
            r.1@ == old(pools).queue(key_of(interp)),
            torn_out(*old(pools), *final(pools), interp, r.1@),
            final(pools).dirty_pools() == old(pools).dirty_pools() - if r.1@.len() > 0 {
                1int
            } else {
                0
            },
            final(pools).generation() == if old(pools)@.dom().contains(key_of(interp)) {
                old(pools).generation().wrapping_add(1)
            } else {
                old(pools).generation()
            },
            r.0 == self.after(
                if old(pools)@.dom().contains(key_of(interp)) {
                    1
                } else {
                    0
                },
            ),
            old(pools).keeps_caches_sound(*final(pools)),
    {
        let ghost before = *pools;
        match pools.drain_pool_on_teardown(interp) {
            Some(decrefs) => (self.next(1), decrefs),
            None => {
                assert(before@ =~= before@.remove(key_of(interp)));
                (self.next(0), Vec::new())
            },
        }
    }
}

} // verus!
