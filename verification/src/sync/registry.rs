//! How an interpreter gets its registry.
//!
//! An interpreter's registry is held by a capsule in the interpreter's dict, which CPython
//! clears at finalization: so values cannot outlive the interpreter that created them.
//!
//! The functions here say which call into CPython comes next. The caller makes it and hands
//! back what it returned; zero stands for a null pointer and for the code of a failure.

use vstd::multiset::Multiset;
use vstd::prelude::*;

verus! {

/// What the caller does next.
#[derive(Clone, Copy, Debug, PartialEq, Eq, Structural)]
pub enum RegistryCall {
    /// `PyInterpreterState_GetDict` of the current interpreter, to look the registry up.
    FindDict,
    /// `PyDict_GetItemString` of the registry key in this dict.
    FindItem { dict: usize },
    /// `PyCapsule_GetPointer` of this capsule.
    FindPointer { capsule: usize },
    /// `PyInterpreterState_GetDict` of the current interpreter, to put a registry in.
    GetDict,
    /// Make an empty registry, and `PyCapsule_New` to hold it.
    NewCapsule,
    /// Drop the registry that was made.
    DropRegistry,
    /// `PyDict_SetItemString` of the registry key in this dict to this capsule.
    StoreCapsule { dict: usize, capsule: usize },
    /// `Py_DECREF` of this capsule. The dict holds the surviving reference; where it does not,
    /// this destroys the registry with the capsule.
    ReleaseCapsule { capsule: usize },
    /// Register the teardown hook of the interpreter with this dict.
    RegisterHook { dict: usize },
    /// `PyErr_Clear`.
    ClearError,
    /// Nothing: the interpreter has a registry.
    Ready,
    /// Nothing: it has none.
    Refused,
}

/// The way to an interpreter's registry.
#[derive(Clone, Copy)]
pub struct RegistryStep {
    /// A registry is made where there is none.
    pub create: bool,
    /// The dict to put it in.
    pub dict: usize,
    /// The dict took the capsule.
    pub stored: bool,
    /// The last call failed and left an error behind, to be cleared first.
    pub error: bool,
    /// What comes next, once there is no error left behind.
    pub at: RegistryCall,
}

/// The way to this interpreter's registry, if it has one.
pub fn find_registry() -> (r: RegistryStep)
    ensures
        r == RegistryStep::start(false),
        !r.create,
        r.call() is FindDict,
{
    RegistryStep { create: false, dict: 0, stored: false, error: false, at: RegistryCall::FindDict }
}

/// The way to this interpreter's registry, which is made if it is absent.
pub fn ensure_registry() -> (r: RegistryStep)
    ensures
        r == RegistryStep::start(true),
        r.create,
        r.call() is FindDict,
{
    RegistryStep { create: true, dict: 0, stored: false, error: false, at: RegistryCall::FindDict }
}

impl RegistryStep {
    /// The beginning of the way.
    pub open spec fn start(create: bool) -> RegistryStep {
        RegistryStep { create, dict: 0, stored: false, error: false, at: RegistryCall::FindDict }
    }

    /// What the caller does next.
    pub open spec fn call(self) -> RegistryCall {
        if self.error {
            RegistryCall::ClearError
        } else {
            self.at
        }
    }

    /// The call that follows where the registry was not found.
    pub open spec fn missing(self) -> RegistryCall {
        if self.create {
            RegistryCall::GetDict
        } else {
            RegistryCall::Refused
        }
    }

    /// The way after the call, which returned `answer`.
    pub open spec fn after(self, answer: usize) -> RegistryStep {
        if self.error {
            RegistryStep { error: false, ..self }
        } else {
            match self.at {
                RegistryCall::FindDict => RegistryStep {
                    at: if answer == 0 {
                        self.missing()
                    } else {
                        RegistryCall::FindItem { dict: answer }
                    },
                    ..self
                },
                RegistryCall::FindItem { .. } => RegistryStep {
                    at: if answer == 0 {
                        self.missing()
                    } else {
                        RegistryCall::FindPointer { capsule: answer }
                    },
                    ..self
                },
                RegistryCall::FindPointer { .. } => if answer == 0 {
                    RegistryStep { error: true, at: self.missing(), ..self }
                } else {
                    RegistryStep { at: RegistryCall::Ready, ..self }
                },
                RegistryCall::GetDict => if answer == 0 {
                    RegistryStep { at: RegistryCall::Refused, ..self }
                } else {
                    RegistryStep { dict: answer, at: RegistryCall::NewCapsule, ..self }
                },
                RegistryCall::NewCapsule => if answer == 0 {
                    RegistryStep { error: true, at: RegistryCall::DropRegistry, ..self }
                } else {
                    RegistryStep {
                        at: RegistryCall::StoreCapsule { dict: self.dict, capsule: answer },
                        ..self
                    }
                },
                RegistryCall::DropRegistry => RegistryStep { at: RegistryCall::Refused, ..self },
                RegistryCall::StoreCapsule { dict, capsule } => RegistryStep {
                    stored: answer != 0,
                    at: RegistryCall::ReleaseCapsule { capsule },
                    ..self
                },
                RegistryCall::ReleaseCapsule { .. } => if self.stored {
                    RegistryStep { at: RegistryCall::RegisterHook { dict: self.dict }, ..self }
                } else {
                    RegistryStep { error: true, at: RegistryCall::Refused, ..self }
                },
                RegistryCall::RegisterHook { .. } => RegistryStep {
                    at: RegistryCall::Ready,
                    ..self
                },
                _ => self,
            }
        }
    }

    /// What the caller does next.
    pub fn next_call(&self) -> (r: RegistryCall)
        ensures
            r == self.call(),
    {
        if self.error {
            RegistryCall::ClearError
        } else {
            self.at
        }
    }

    /// The call that follows where the registry was not found.
    fn when_missing(&self) -> (r: RegistryCall)
        ensures
            r == self.missing(),
    {
        if self.create {
            RegistryCall::GetDict
        } else {
            RegistryCall::Refused
        }
    }

    /// Goes on after the call, which returned `answer`.
    pub fn next(self, answer: usize) -> (r: RegistryStep)
        ensures
            r == self.after(answer),
    {
        if self.error {
            return RegistryStep { error: false, ..self };
        }
        match self.at {
            RegistryCall::FindDict => RegistryStep {
                at: if answer == 0 {
                    self.when_missing()
                } else {
                    RegistryCall::FindItem { dict: answer }
                },
                ..self
            },
            RegistryCall::FindItem { .. } => RegistryStep {
                at: if answer == 0 {
                    self.when_missing()
                } else {
                    RegistryCall::FindPointer { capsule: answer }
                },
                ..self
            },
            RegistryCall::FindPointer { .. } => if answer == 0 {
                RegistryStep { error: true, at: self.when_missing(), ..self }
            } else {
                RegistryStep { at: RegistryCall::Ready, ..self }
            },
            RegistryCall::GetDict => if answer == 0 {
                // The interpreter is finalizing.
                RegistryStep { at: RegistryCall::Refused, ..self }
            } else {
                RegistryStep { dict: answer, at: RegistryCall::NewCapsule, ..self }
            },
            RegistryCall::NewCapsule => if answer == 0 {
                RegistryStep { error: true, at: RegistryCall::DropRegistry, ..self }
            } else {
                RegistryStep {
                    at: RegistryCall::StoreCapsule { dict: self.dict, capsule: answer },
                    ..self
                }
            },
            RegistryCall::DropRegistry => RegistryStep { at: RegistryCall::Refused, ..self },
            RegistryCall::StoreCapsule { dict: _, capsule } => RegistryStep {
                stored: answer != 0,
                at: RegistryCall::ReleaseCapsule { capsule },
                ..self
            },
            RegistryCall::ReleaseCapsule { .. } => if self.stored {
                RegistryStep { at: RegistryCall::RegisterHook { dict: self.dict }, ..self }
            } else {
                RegistryStep { error: true, at: RegistryCall::Refused, ..self }
            },
            RegistryCall::RegisterHook { .. } => RegistryStep { at: RegistryCall::Ready, ..self },
            _ => self,
        }
    }
}

/// What the destructor of a registry's capsule does.
#[derive(Clone, Copy, Debug, PartialEq, Eq, Structural)]
pub enum DestructorAction {
    /// `PyErr_Clear`: the capsule holds no registry.
    ClearError,
    /// Drop the registry that the capsule points to.
    DropRegistry(usize),
}

/// What becomes of what a capsule points to when CPython destroys the capsule.
pub open spec fn destroyed(raw: usize) -> DestructorAction {
    if raw == 0 {
        DestructorAction::ClearError
    } else {
        DestructorAction::DropRegistry(raw)
    }
}

/// A destructor drops the registry that its capsule points to, and that one alone; where there is
/// none it only clears the error.
pub proof fn a_destructor_drops_its_own_registry(raw: usize)
    ensures
        destroyed(raw) is ClearError <==> raw == 0,
        forall|registry: usize|
            destroyed(raw) == DestructorAction::DropRegistry(registry) <==> raw != 0 && registry
                == raw,
{
}

/// Drops an interpreter's registry when CPython destroys its capsule. `raw` is what
/// `PyCapsule_GetPointer` returned for it.
pub fn registry_destructor(raw: usize) -> (r: DestructorAction)
    ensures
        r == if raw == 0 {
            DestructorAction::ClearError
        } else {
            DestructorAction::DropRegistry(raw)
        },
        r == destroyed(raw),
{
    if raw == 0 {
        DestructorAction::ClearError
    } else {
        DestructorAction::DropRegistry(raw)
    }
}

/// What the calls on the way return, each as a number; zero stands for a failure.
pub struct RegistryAnswers {
    pub found_dict: usize,
    pub found_item: usize,
    pub found_pointer: usize,
    pub dict: usize,
    pub capsule: usize,
    pub store: usize,
}

impl RegistryAnswers {
    /// The answer to a call. Those that return nothing are not asked.
    pub open spec fn answer(self, call: RegistryCall) -> usize {
        match call {
            RegistryCall::FindDict => self.found_dict,
            RegistryCall::FindItem { .. } => self.found_item,
            RegistryCall::FindPointer { .. } => self.found_pointer,
            RegistryCall::GetDict => self.dict,
            RegistryCall::NewCapsule => self.capsule,
            RegistryCall::StoreCapsule { .. } => self.store,
            _ => 0,
        }
    }

    /// The interpreter has a registry already.
    pub open spec fn found(self) -> bool {
        self.found_dict != 0 && self.found_item != 0 && self.found_pointer != 0
    }

    /// The interpreter takes a registry.
    pub open spec fn takes_one(self) -> bool {
        self.dict != 0 && self.capsule != 0 && self.store != 0
    }
}

/// The calls on the way, in order, up to the `n`th.
pub open spec fn registry_calls(
    from: RegistryStep,
    answers: RegistryAnswers,
    n: nat,
) -> Seq<RegistryCall>
    decreases n,
{
    if n == 0 || from.call() is Ready || from.call() is Refused {
        Seq::empty()
    } else {
        seq![from.call()] + registry_calls(
            from.after(answers.answer(from.call())),
            answers,
            (n - 1) as nat,
        )
    }
}

/// Where the way is after `n` calls.
pub open spec fn registry_step_after(
    from: RegistryStep,
    answers: RegistryAnswers,
    n: nat,
) -> RegistryStep
    decreases n,
{
    if n == 0 {
        from
    } else {
        registry_step_after(from.after(answers.answer(from.call())), answers, (n - 1) as nat)
    }
}

/// The way ends after ten calls at most. It ends at a registry exactly where the interpreter had
/// one, or was to get one and takes it.
pub proof fn the_way_ends_at_a_registry(create: bool, answers: RegistryAnswers)
    ensures
        registry_step_after(RegistryStep::start(create), answers, 10).call() == if answers.found()
            || (create && answers.takes_one()) {
            RegistryCall::Ready
        } else {
            RegistryCall::Refused
        },
{
    reveal_with_fuel(registry_step_after, 11);
}

/// How an interpreter's registry is looked up, call by call.
pub open spec fn lookup_calls(answers: RegistryAnswers) -> Seq<RegistryCall> {
    if answers.found_dict == 0 {
        seq![RegistryCall::FindDict]
    } else if answers.found_item == 0 {
        seq![RegistryCall::FindDict, RegistryCall::FindItem { dict: answers.found_dict }]
    } else if answers.found_pointer == 0 {
        seq![
            RegistryCall::FindDict,
            RegistryCall::FindItem { dict: answers.found_dict },
            RegistryCall::FindPointer { capsule: answers.found_item },
            RegistryCall::ClearError,
        ]
    } else {
        seq![
            RegistryCall::FindDict,
            RegistryCall::FindItem { dict: answers.found_dict },
            RegistryCall::FindPointer { capsule: answers.found_item },
        ]
    }
}

/// How an interpreter gets a registry, call by call.
pub open spec fn creation_calls(answers: RegistryAnswers) -> Seq<RegistryCall> {
    let store = RegistryCall::StoreCapsule { dict: answers.dict, capsule: answers.capsule };
    let release = RegistryCall::ReleaseCapsule { capsule: answers.capsule };
    if answers.dict == 0 {
        seq![RegistryCall::GetDict]
    } else if answers.capsule == 0 {
        seq![
            RegistryCall::GetDict,
            RegistryCall::NewCapsule,
            RegistryCall::ClearError,
            RegistryCall::DropRegistry,
        ]
    } else if answers.store == 0 {
        seq![
            RegistryCall::GetDict,
            RegistryCall::NewCapsule,
            store,
            release,
            RegistryCall::ClearError,
        ]
    } else {
        seq![
            RegistryCall::GetDict,
            RegistryCall::NewCapsule,
            store,
            release,
            RegistryCall::RegisterHook { dict: answers.dict },
        ]
    }
}

/// The calls on the way are these, in this order, each about the objects that the calls before
/// it returned: the registry is looked up first; only where it is not found, and is to be made,
/// one is made and put in the interpreter's dict, and the hook is registered only once it is
/// there. Every failure that leaves an error behind is cleared, and no other.
pub proof fn the_way_goes_in_order(create: bool, answers: RegistryAnswers)
    ensures
        registry_calls(RegistryStep::start(create), answers, 10) == if create && !(
        answers.found_dict != 0 && answers.found_item != 0 && answers.found_pointer != 0) {
            lookup_calls(answers) + creation_calls(answers)
        } else {
            lookup_calls(answers)
        },
{
    reveal_with_fuel(registry_calls, 11);
    assert(registry_calls(RegistryStep::start(create), answers, 10) =~= if create && !(
    answers.found_dict != 0 && answers.found_item != 0 && answers.found_pointer != 0) {
        lookup_calls(answers) + creation_calls(answers)
    } else {
        lookup_calls(answers)
    });
}

/// A call that returns nothing decides nothing: whatever number is handed back for it, the way
/// goes on in the same way. And where it has ended it stays.
pub proof fn a_release_decides_nothing_on_the_way(step: RegistryStep, a: usize, b: usize)
    ensures
        step.call() is ClearError || step.call() is DropRegistry || step.call() is ReleaseCapsule
            || step.call() is RegisterHook ==> step.after(a) == step.after(b),
        step.call() is Ready || step.call() is Refused ==> step.after(a) == step,
{
}

/// Looking a registry up makes none, and an interpreter that has one gets no other.
pub proof fn a_found_registry_is_left_alone(create: bool, answers: RegistryAnswers)
    requires
        !create || answers.found(),
    ensures
        forall|i: int|
            0 <= i < registry_calls(RegistryStep::start(create), answers, 10).len() ==> {
                let call = #[trigger] registry_calls(RegistryStep::start(create), answers, 10)[i];
                call is FindDict || call is FindItem || call is FindPointer || call is ClearError
            },
{
    reveal_with_fuel(registry_calls, 11);
}

/// The references that are held before a call.
pub open spec fn registry_owned(step: RegistryStep) -> Multiset<usize> {
    match step.at {
        RegistryCall::StoreCapsule { capsule, .. } => Multiset::singleton(capsule),
        RegistryCall::ReleaseCapsule { capsule } => Multiset::singleton(capsule),
        _ => Multiset::empty(),
    }
}

/// The reference that a call returns.
pub open spec fn registry_acquired(step: RegistryStep, answer: usize) -> Multiset<usize> {
    if step.call() is NewCapsule && answer != 0 {
        Multiset::singleton(answer)
    } else {
        Multiset::empty()
    }
}

/// The reference that a call gives up.
pub open spec fn registry_released(step: RegistryStep) -> Multiset<usize> {
    match step.call() {
        RegistryCall::ReleaseCapsule { capsule } => Multiset::singleton(capsule),
        _ => Multiset::empty(),
    }
}

/// Every reference that is taken on the way is given up on the way, once.
pub proof fn registry_references_balance(step: RegistryStep, answer: usize)
    ensures
        registry_owned(step.after(answer)).add(registry_released(step)) == registry_owned(step).add(
            registry_acquired(step, answer),
        ),
        registry_owned(RegistryStep::start(true)) == Multiset::<usize>::empty(),
        step.call() is Ready || step.call() is Refused ==> registry_owned(step) == Multiset::<
            usize,
        >::empty(),
{
    assert(registry_owned(step.after(answer)).add(registry_released(step)) =~= registry_owned(
        step,
    ).add(registry_acquired(step, answer)));
}

} // verus!
