//! What holds of the teardown hook and of a teardown as a whole.

use crate::internal::home::{ForeignTarget, Record};
use crate::internal::pool::{key_of, Pools};
use crate::internal::state::AttachCount;
use crate::marker::Interpreter;
use crate::reference::held;
use crate::sync::per_interpreter::Registries;
use crate::sync::teardown::{HookCall, HookStep, TeardownCall, TeardownStep};
use vstd::multiset::Multiset;
use vstd::prelude::*;

verus! {

/// The references that a registration holds.
pub open spec fn hook_owned(step: HookStep) -> Multiset<usize> {
    held(step.gc).add(held(step.collect)).add(held(step.atexit)).add(held(step.callable)).add(
        held(step.name),
    ).add(held(step.result))
}

/// The reference that the next call returns.
pub open spec fn hook_acquired(step: HookStep, answer: usize) -> Multiset<usize> {
    match step.call() {
        HookCall::ImportGc
        | HookCall::GetCollect
        | HookCall::ImportAtexit
        | HookCall::NewFunction
        | HookCall::NewName
        | HookCall::CallRegister => held(answer),
        _ => Multiset::empty(),
    }
}

/// The reference that the next call gives up.
pub open spec fn hook_released(step: HookStep) -> Multiset<usize> {
    match step.call() {
        HookCall::ReleaseGc => held(step.gc),
        HookCall::ReleaseResult => held(step.result),
        HookCall::ReleaseName => held(step.name),
        HookCall::ReleaseCallable => held(step.callable),
        HookCall::ReleaseAtexit => held(step.atexit),
        HookCall::ReleaseCollect => held(step.collect),
        _ => Multiset::empty(),
    }
}

/// How far a registration can be: nothing is held before it is made or after it was released.
pub open spec fn hook_in_order(step: HookStep) -> bool {
    let at = step.at;
    &&& step.gc != 0 ==> at is GetCollect || at is ReleaseGc
    &&& step.collect != 0 ==> !(at is HasHook || at is ImportGc || at is GetCollect)
    &&& step.atexit != 0 ==> at is NewFunction || at is NewName || at is CallRegister
        || at is ReleaseResult || at is ReleaseName || at is StoreHook || at is ReleaseCallable
        || at is ReleaseAtexit
    &&& step.callable != 0 ==> at is NewName || at is CallRegister || at is ReleaseResult
        || at is ReleaseName || at is StoreHook || at is ReleaseCallable
    &&& step.name != 0 ==> at is CallRegister || at is ReleaseResult || at is ReleaseName
    &&& step.result != 0 ==> at is ReleaseResult
    &&& at is Done && step.collect != 0 ==> step.registered
    &&& at is ReleaseCollect ==> !step.registered
    &&& !(at is ClearError)
    &&& at is StoreHook ==> step.registered
    &&& step.registered ==> at is ReleaseResult || at is ReleaseName || at is StoreHook
        || at is ReleaseCallable || at is ReleaseAtexit || at is Done
}

/// Every reference that a registration takes it gives up once, but for the function that the
/// teardown will call: that one it keeps, and only where the hook is registered.
pub proof fn hook_references_balance(step: HookStep, answer: usize, dict: usize)
    requires
        hook_in_order(step),
    ensures
        hook_in_order(HookStep::start(dict)),
        hook_owned(HookStep::start(dict)) == Multiset::<usize>::empty(),
        hook_in_order(step.after(answer)),
        hook_owned(step.after(answer)).add(hook_released(step)) == hook_owned(step).add(
            hook_acquired(step, answer),
        ),
        step.call() is Done ==> hook_owned(step) == held(step.collect),
        step.call() is Done && step.collect != 0 ==> step.registered,
{
    assert(hook_owned(HookStep::start(dict)) =~= Multiset::<usize>::empty());
    assert(hook_owned(step.after(answer)).add(hook_released(step)) =~= hook_owned(step).add(
        hook_acquired(step, answer),
    ));
    if step.call() is Done {
        assert(hook_owned(step) =~= held(step.collect));
    }
}

/// What the calls of a registration return; zero stands for a failure.
pub struct HookAnswers {
    pub hook: usize,
    pub gc: usize,
    pub collect: usize,
    pub atexit: usize,
    pub function: usize,
    pub name: usize,
    pub register: usize,
    pub store: usize,
}

impl HookAnswers {
    /// The answer to a call. Those that return nothing are not asked.
    pub open spec fn answer(self, call: HookCall) -> usize {
        match call {
            HookCall::HasHook => self.hook,
            HookCall::ImportGc => self.gc,
            HookCall::GetCollect => self.collect,
            HookCall::ImportAtexit => self.atexit,
            HookCall::NewFunction => self.function,
            HookCall::NewName => self.name,
            HookCall::CallRegister => self.register,
            HookCall::StoreHook => self.store,
            _ => 0,
        }
    }
}

/// How far a registration is after `n` calls.
pub open spec fn hook_step_after(from: HookStep, answers: HookAnswers, n: nat) -> HookStep
    decreases n,
{
    if n == 0 {
        from
    } else {
        hook_step_after(from.after(answers.answer(from.call())), answers, (n - 1) as nat)
    }
}

proof fn lemma_hook_split(step: HookStep, answers: HookAnswers, a: nat, b: nat)
    ensures
        hook_step_after(step, answers, a + b) == hook_step_after(
            hook_step_after(step, answers, a),
            answers,
            b,
        ),
    decreases a,
{
    if a > 0 {
        lemma_hook_split(
            step.after(answers.answer(step.call())),
            answers,
            (a - 1) as nat,
            b,
        );
    }
}

/// From the name of the method on.
proof fn lemma_from_new_name(step: HookStep, answers: HookAnswers)
    requires
        step.at is NewName,
        !step.error,
        !step.registered,
    ensures
        ({
            let end = hook_step_after(step, answers, 9);
            &&& end.call() is Done
            &&& end.registered == (answers.register != 0)
            &&& end.collect == if end.registered {
                step.collect
            } else {
                0
            }
        }),
{
    lemma_hook_split(step, answers, 4, 5);
    reveal_with_fuel(hook_step_after, 6);
}

/// From the import of `atexit` on.
proof fn lemma_from_import_atexit(step: HookStep, answers: HookAnswers)
    requires
        step.at is ImportAtexit,
        !step.error,
        !step.registered,
    ensures
        ({
            let end = hook_step_after(step, answers, 11);
            &&& end.call() is Done
            &&& end.registered == (answers.atexit != 0 && answers.function != 0 && answers.register
                != 0)
            &&& end.collect == if end.registered {
                step.collect
            } else {
                0
            }
        }),
{
    lemma_hook_split(step, answers, 2, 9);
    if answers.atexit != 0 && answers.function != 0 {
        let two = hook_step_after(step, answers, 2);
        assert(two.at is NewName && !two.error && !two.registered && two.collect == step.collect)
            by {
            reveal_with_fuel(hook_step_after, 3);
        }
        lemma_from_new_name(two, answers);
    } else {
        reveal_with_fuel(hook_step_after, 12);
    }
}

proof fn lemma_done_stays(step: HookStep, answers: HookAnswers, n: nat)
    requires
        step.call() is Done,
    ensures
        hook_step_after(step, answers, n) == step,
    decreases n,
{
    if n > 0 {
        lemma_done_stays(step, answers, (n - 1) as nat);
    }
}

/// Every step of a registration is in order, and `registered` says what `atexit` answered.
proof fn lemma_hook_in_order(step: HookStep, answers: HookAnswers, n: nat)
    requires
        hook_in_order(step),
        step.registered ==> answers.register != 0,
    ensures
        hook_in_order(hook_step_after(step, answers, n)),
        hook_step_after(step, answers, n).registered ==> answers.register != 0,
    decreases n,
{
    if n > 0 {
        let answer = answers.answer(step.call());
        hook_references_balance(step, answer, step.dict);
        lemma_hook_in_order(step.after(answer), answers, (n - 1) as nat);
    }
}

/// How many calls it takes to get past `gc`.
proof fn lemma_past_gc(dict: usize, answers: HookAnswers) -> (k: nat)
    requires
        answers.hook == 0,
    ensures
        k <= 5,
        ({
            let past = hook_step_after(HookStep::start(dict), answers, k);
            &&& past.at is ImportAtexit
            &&& !past.error
            &&& !past.registered
            &&& past.collect == if answers.gc != 0 {
                answers.collect
            } else {
                0
            }
        }),
{
    reveal_with_fuel(hook_step_after, 6);
    if answers.gc == 0 {
        3
    } else if answers.collect == 0 {
        5
    } else {
        4
    }
}

/// A registration ends after sixteen calls at most. The hook is registered exactly where it was
/// not before and `atexit` takes it. The function to collect with is kept exactly where the hook
/// is registered and the function was found. The mark is stored only where the hook is
/// registered, so a registration that failed can be tried again.
pub proof fn the_hook_is_registered_once(dict: usize, answers: HookAnswers)
    ensures
        ({
            let end = hook_step_after(HookStep::start(dict), answers, 16);
            &&& end.call() is Done
            &&& end.registered == (answers.hook == 0 && answers.atexit != 0 && answers.function != 0
                && answers.register != 0)
            &&& end.collect == if end.registered && answers.gc != 0 {
                answers.collect
            } else {
                0
            }
        }),
        answers.hook != 0 ==> HookStep::start(dict).after(answers.hook).call() is Done,
        forall|n: nat| #[trigger]
            hook_step_after(HookStep::start(dict), answers, n).call() is StoreHook ==> {
                &&& hook_step_after(HookStep::start(dict), answers, n).registered
                &&& answers.register != 0
            },
{
    let start = HookStep::start(dict);
    assert forall|n: nat| #[trigger]
        hook_step_after(start, answers, n).call() is StoreHook implies hook_step_after(
        start,
        answers,
        n,
    ).registered && answers.register != 0 by {
        lemma_hook_in_order(start, answers, n);
    }
    if answers.hook != 0 {
        lemma_done_stays(start.after(answers.hook), answers, 15);
    } else {
        let k = lemma_past_gc(dict, answers);
        let past = hook_step_after(start, answers, k);
        lemma_from_import_atexit(past, answers);
        let end = hook_step_after(past, answers, 11);
        lemma_hook_split(start, answers, k, 11);
        lemma_hook_split(start, answers, k + 11, (5 - k) as nat);
        lemma_done_stays(end, answers, (5 - k) as nat);
    }
}

/// The objects that the caller hands to the next call; none where it hands over nothing.
pub open spec fn hook_operands(step: HookStep) -> (usize, usize, usize) {
    match step.call() {
        HookCall::HasHook => (step.dict, 0, 0),
        HookCall::GetCollect | HookCall::ReleaseGc => (step.gc, 0, 0),
        HookCall::CallRegister => (step.atexit, step.name, step.callable),
        HookCall::ReleaseResult => (step.result, 0, 0),
        HookCall::ReleaseName => (step.name, 0, 0),
        HookCall::StoreHook => (step.dict, step.callable, 0),
        HookCall::ReleaseCallable => (step.callable, 0, 0),
        HookCall::ReleaseAtexit => (step.atexit, 0, 0),
        HookCall::ReleaseCollect => (step.collect, 0, 0),
        _ => (0, 0, 0),
    }
}

/// The calls of a registration, in order, each with the objects that it is about.
pub open spec fn hook_trace(
    from: HookStep,
    answers: HookAnswers,
    n: nat,
) -> Seq<(HookCall, (usize, usize, usize))>
    decreases n,
{
    if n == 0 || from.call() is Done {
        Seq::empty()
    } else {
        seq![(from.call(), hook_operands(from))] + hook_trace(
            from.after(answers.answer(from.call())),
            answers,
            (n - 1) as nat,
        )
    }
}

/// A call that returns nothing decides nothing: whatever number is handed back for it, the
/// registration goes on in the same way. And what has ended stays so.
pub proof fn a_release_decides_nothing_in_a_registration(step: HookStep, a: usize, b: usize)
    ensures
        step.call() is ReleaseGc || step.call() is ReleaseResult || step.call() is ReleaseName
            || step.call() is ReleaseCallable || step.call() is ReleaseAtexit || step.call()
            is ReleaseCollect || step.call() is ClearError ==> step.after(a) == step.after(b),
        step.call() is Done ==> step.after(a) == step,
{
}

/// How the function that collects is looked up, call by call.
pub open spec fn collect_lookup(
    dict: usize,
    answers: HookAnswers,
) -> Seq<(HookCall, (usize, usize, usize))> {
    let none = (0usize, 0usize, 0usize);
    if answers.gc == 0 {
        seq![
            (HookCall::HasHook, (dict, 0usize, 0usize)),
            (HookCall::ImportGc, none),
            (HookCall::ClearError, none),
        ]
    } else if answers.collect == 0 {
        seq![
            (HookCall::HasHook, (dict, 0usize, 0usize)),
            (HookCall::ImportGc, none),
            (HookCall::GetCollect, (answers.gc, 0, 0)),
            (HookCall::ClearError, none),
            (HookCall::ReleaseGc, (answers.gc, 0, 0)),
        ]
    } else {
        seq![
            (HookCall::HasHook, (dict, 0usize, 0usize)),
            (HookCall::ImportGc, none),
            (HookCall::GetCollect, (answers.gc, 0, 0)),
            (HookCall::ReleaseGc, (answers.gc, 0, 0)),
        ]
    }
}

/// How the hook is handed to `atexit`, call by call; `collect` is the function that was looked
/// up, or null.
pub open spec fn hook_registration(
    dict: usize,
    collect: usize,
    answers: HookAnswers,
) -> Seq<(HookCall, (usize, usize, usize))> {
    let none = (0usize, 0usize, 0usize);
    let called = (answers.atexit, answers.name, answers.function);
    if answers.atexit == 0 {
        seq![
            (HookCall::ImportAtexit, none),
            (HookCall::ClearError, none),
            (HookCall::ReleaseCollect, (collect, 0usize, 0usize)),
        ]
    } else if answers.function == 0 {
        seq![
            (HookCall::ImportAtexit, none),
            (HookCall::NewFunction, none),
            (HookCall::ClearError, none),
            (HookCall::ReleaseAtexit, (answers.atexit, 0usize, 0usize)),
            (HookCall::ReleaseCollect, (collect, 0, 0)),
        ]
    } else if answers.register == 0 {
        seq![
            (HookCall::ImportAtexit, none),
            (HookCall::NewFunction, none),
            (HookCall::NewName, none),
            (HookCall::CallRegister, called),
            (HookCall::ClearError, none),
            (HookCall::ReleaseName, (answers.name, 0usize, 0usize)),
            (HookCall::ReleaseCallable, (answers.function, 0, 0)),
            (HookCall::ReleaseAtexit, (answers.atexit, 0, 0)),
            (HookCall::ReleaseCollect, (collect, 0, 0)),
        ]
    } else if answers.store == 0 {
        seq![
            (HookCall::ImportAtexit, none),
            (HookCall::NewFunction, none),
            (HookCall::NewName, none),
            (HookCall::CallRegister, called),
            (HookCall::ReleaseResult, (answers.register, 0usize, 0usize)),
            (HookCall::ReleaseName, (answers.name, 0, 0)),
            (HookCall::StoreHook, (dict, answers.function, 0)),
            (HookCall::ClearError, none),
            (HookCall::ReleaseCallable, (answers.function, 0, 0)),
            (HookCall::ReleaseAtexit, (answers.atexit, 0, 0)),
        ]
    } else {
        seq![
            (HookCall::ImportAtexit, none),
            (HookCall::NewFunction, none),
            (HookCall::NewName, none),
            (HookCall::CallRegister, called),
            (HookCall::ReleaseResult, (answers.register, 0usize, 0usize)),
            (HookCall::ReleaseName, (answers.name, 0, 0)),
            (HookCall::StoreHook, (dict, answers.function, 0)),
            (HookCall::ReleaseCallable, (answers.function, 0, 0)),
            (HookCall::ReleaseAtexit, (answers.atexit, 0, 0)),
        ]
    }
}

proof fn lemma_trace_split(step: HookStep, answers: HookAnswers, a: nat, b: nat)
    ensures
        hook_trace(step, answers, a + b) == hook_trace(step, answers, a) + hook_trace(
            hook_step_after(step, answers, a),
            answers,
            b,
        ),
    decreases a,
{
    if step.call() is Done {
        lemma_done_stays(step, answers, a);
        assert(hook_trace(step, answers, a) =~= Seq::empty());
    } else if a > 0 {
        lemma_trace_split(step.after(answers.answer(step.call())), answers, (a - 1) as nat, b);
    }
    assert(hook_trace(step, answers, a + b) =~= hook_trace(step, answers, a) + hook_trace(
        hook_step_after(step, answers, a),
        answers,
        b,
    ));
}

proof fn lemma_trace_lookup(dict: usize, answers: HookAnswers) -> (k: nat)
    requires
        answers.hook == 0,
    ensures
        k <= 5,
        hook_trace(HookStep::start(dict), answers, k) == collect_lookup(dict, answers),
        ({
            let past = hook_step_after(HookStep::start(dict), answers, k);
            &&& past.at is ImportAtexit
            &&& !past.error
            &&& !past.registered
            &&& past.dict == dict
            &&& past.collect == if answers.gc != 0 {
                answers.collect
            } else {
                0
            }
        }),
{
    reveal_with_fuel(hook_step_after, 6);
    reveal_with_fuel(hook_trace, 6);
    let k: nat = if answers.gc == 0 {
        3
    } else if answers.collect == 0 {
        5
    } else {
        4
    };
    assert(hook_trace(HookStep::start(dict), answers, k) =~= collect_lookup(dict, answers));
    k
}

proof fn lemma_trace_registration(past: HookStep, answers: HookAnswers)
    requires
        past.at is ImportAtexit,
        !past.error,
        !past.registered,
    ensures
        hook_trace(past, answers, 11) == hook_registration(past.dict, past.collect, answers),
        hook_step_after(past, answers, 11).call() is Done,
{
    lemma_trace_split(past, answers, 6, 5);
    lemma_hook_split(past, answers, 6, 5);
    lemma_from_import_atexit(past, answers);
    reveal_with_fuel(hook_step_after, 7);
    reveal_with_fuel(hook_trace, 7);
    assert(hook_trace(past, answers, 11) =~= hook_registration(past.dict, past.collect, answers));
}

/// A registration makes these calls, in this order, each about the objects that the calls before
/// it returned. It looks for its mark, and ends there where it finds it. Else it looks up the
/// function that collects, makes the teardown a function, and calls `atexit.register` with it;
/// only where that succeeded it stores the mark. Every failure that leaves an error behind is
/// cleared at once, and nothing else is; and what is held is given up, the function that
/// collects only where nothing will call it.
pub proof fn a_registration_goes_in_order(dict: usize, answers: HookAnswers)
    ensures
        hook_trace(HookStep::start(dict), answers, 16) == if answers.hook != 0 {
            seq![(HookCall::HasHook, (dict, 0usize, 0usize))]
        } else {
            collect_lookup(dict, answers) + hook_registration(
                dict,
                if answers.gc != 0 {
                    answers.collect
                } else {
                    0
                },
                answers,
            )
        },
{
    let start = HookStep::start(dict);
    if answers.hook != 0 {
        reveal_with_fuel(hook_trace, 3);
        assert(hook_trace(start, answers, 16) =~= seq![
            (HookCall::HasHook, (dict, 0usize, 0usize)),
        ]);
    } else {
        let k = lemma_trace_lookup(dict, answers);
        let past = hook_step_after(start, answers, k);
        lemma_trace_registration(past, answers);
        lemma_trace_split(start, answers, k, (16 - k) as nat);
        lemma_trace_split(past, answers, 11, (5 - k) as nat);
        assert(hook_trace(past, answers, (16 - k) as nat) =~= hook_trace(past, answers, 11));
    }
}

/// The registration comes to register the hook.
pub open spec fn registers(dict: usize, answers: HookAnswers) -> bool {
    hook_step_after(HookStep::start(dict), answers, 16).registered
}

/// The registration comes to store the mark.
pub open spec fn stores_mark(dict: usize, answers: HookAnswers) -> bool {
    answers.store != 0 && exists|n: nat| #[trigger]
        hook_step_after(HookStep::start(dict), answers, n).call() is StoreHook
}

/// The registrations that one interpreter sees, one after another: `marks[i]` says whether its
/// dict holds the mark when the one with `answers[i]` begins.
pub open spec fn is_hook_run(dict: usize, answers: Seq<HookAnswers>, marks: Seq<bool>) -> bool {
    &&& marks.len() == answers.len() + 1
    &&& forall|i: int|
        0 <= i < answers.len() ==> ((#[trigger] answers[i]).hook != 0 <==> marks[i])
    &&& forall|i: int|
        0 <= i < answers.len() ==> (marks[i + 1] <==> marks[i] || stores_mark(
            dict,
            #[trigger] answers[i],
        ))
}

/// A registration that registers the hook comes to store the mark.
proof fn lemma_store_is_reached(dict: usize, answers: HookAnswers)
    requires
        registers(dict, answers),
    ensures
        answers.hook == 0,
        answers.store != 0 ==> stores_mark(dict, answers),
{
    let start = HookStep::start(dict);
    the_hook_is_registered_once(dict, answers);
    let k = lemma_past_gc(dict, answers);
    let past = hook_step_after(start, answers, k);
    lemma_hook_split(start, answers, k, 6);
    assert(hook_step_after(past, answers, 6).call() is StoreHook) by {
        reveal_with_fuel(hook_step_after, 7);
    }
    assert(hook_step_after(start, answers, k + 6).call() is StoreHook);
}

/// A registration that comes to store the mark ends with the hook registered.
proof fn lemma_store_means_registered(dict: usize, answers: HookAnswers, m: nat)
    requires
        hook_step_after(HookStep::start(dict), answers, m).call() is StoreHook,
    ensures
        registers(dict, answers),
{
    let start = HookStep::start(dict);
    the_hook_is_registered_once(dict, answers);
    let end = hook_step_after(start, answers, 16);
    if m >= 16 {
        lemma_hook_split(start, answers, 16, (m - 16) as nat);
        lemma_done_stays(end, answers, (m - 16) as nat);
    } else {
        let at = hook_step_after(start, answers, m);
        lemma_hook_split(start, answers, m, (16 - m) as nat);
        lemma_registered_stays(at, answers, (16 - m) as nat);
    }
}

proof fn lemma_registered_stays(step: HookStep, answers: HookAnswers, n: nat)
    requires
        step.registered,
    ensures
        hook_step_after(step, answers, n).registered,
    decreases n,
{
    if n > 0 {
        lemma_registered_stays(step.after(answers.answer(step.call())), answers, (n - 1) as nat);
    }
}

/// Once the mark is stored no later registration registers the hook again: each ends as soon as
/// it has looked for the mark.
pub proof fn a_stored_mark_ends_registration(
    dict: usize,
    answers: Seq<HookAnswers>,
    marks: Seq<bool>,
    k: int,
    n: int,
)
    requires
        is_hook_run(dict, answers, marks),
        0 <= k <= n < answers.len(),
        marks[k],
    ensures
        marks[n],
        !registers(dict, answers[n]),
        forall|calls: nat| calls > 0 ==> (#[trigger] hook_step_after(
            HookStep::start(dict),
            answers[n],
            calls,
        )).call() is Done,
    decreases n - k,
{
    if k < n {
        a_stored_mark_ends_registration(dict, answers, marks, k, n - 1);
        assert(marks[n - 1 + 1] <==> marks[n - 1] || stores_mark(dict, answers[n - 1]));
    }
    let start = HookStep::start(dict);
    assert(answers[n].hook != 0);
    the_hook_is_registered_once(dict, answers[n]);
    assert forall|calls: nat| calls > 0 implies (#[trigger] hook_step_after(
        start,
        answers[n],
        calls,
    )).call() is Done by {
        lemma_done_stays(start.after(answers[n].hook), answers[n], (calls - 1) as nat);
    }
}

/// The hook is registered once per interpreter, however often that is asked for: where the
/// registration that registers it can store the mark, it is the only one that does.
pub proof fn an_interpreter_has_one_hook(
    dict: usize,
    answers: Seq<HookAnswers>,
    marks: Seq<bool>,
    i: int,
    j: int,
)
    requires
        is_hook_run(dict, answers, marks),
        0 <= i < j < answers.len(),
        registers(dict, answers[i]),
        answers[i].store != 0,
    ensures
        !registers(dict, answers[j]),
{
    lemma_store_is_reached(dict, answers[i]);
    assert(marks[i + 1]);
    a_stored_mark_ends_registration(dict, answers, marks, i + 1, j);
}

/// A registration that did not register the hook stores no mark, so that the next one tries
/// again.
pub proof fn a_failed_registration_is_tried_again(
    dict: usize,
    answers: Seq<HookAnswers>,
    marks: Seq<bool>,
    n: int,
)
    requires
        is_hook_run(dict, answers, marks),
        0 <= n < answers.len(),
        !marks[n],
        !registers(dict, answers[n]),
    ensures
        !marks[n + 1],
        n + 1 < answers.len() ==> HookStep::start(dict).after(answers[n + 1].hook).call() is ImportGc,
{
    the_hook_is_registered_once(dict, answers[n]);
    assert(answers[n].hook == 0);
    if stores_mark(dict, answers[n]) {
        let m = choose|m: nat| #[trigger]
            hook_step_after(HookStep::start(dict), answers[n], m).call() is StoreHook;
        lemma_store_means_registered(dict, answers[n], m);
    }
    assert(marks[n + 1] <==> marks[n] || stores_mark(dict, answers[n]));
    if n + 1 < answers.len() {
        assert(answers[n + 1].hook != 0 <==> marks[n + 1]);
    }
}

/// The references that a teardown holds.
pub open spec fn teardown_owned(step: TeardownStep) -> Multiset<usize> {
    held(step.collect).add(held(step.result))
}

/// The reference that the next call returns.
pub open spec fn teardown_acquired(step: TeardownStep, answer: usize) -> Multiset<usize> {
    if step.call() is Collect {
        held(answer)
    } else {
        Multiset::empty()
    }
}

/// The reference that the next call gives up.
pub open spec fn teardown_released(step: TeardownStep) -> Multiset<usize> {
    match step.call() {
        TeardownCall::ReleaseResult => held(step.result),
        TeardownCall::ReleaseCollect => held(step.collect),
        _ => Multiset::empty(),
    }
}

/// How far a teardown is after some answers.
pub open spec fn teardown_after(collect: usize, answers: Seq<usize>) -> TeardownStep
    decreases answers.len(),
{
    if answers.len() == 0 {
        TeardownStep::start(collect)
    } else {
        teardown_after(collect, answers.drop_last()).after(answers.last())
    }
}

/// The call that is answered by `answers[i]`.
pub open spec fn teardown_call(collect: usize, answers: Seq<usize>, i: int) -> TeardownCall {
    teardown_after(collect, answers.take(i)).call()
}

/// How often a teardown has called the function that collects.
pub open spec fn collects(collect: usize, answers: Seq<usize>) -> nat
    decreases answers.len(),
{
    if answers.len() == 0 {
        0
    } else {
        collects(collect, answers.drop_last()) + if teardown_after(
            collect,
            answers.drop_last(),
        ).call() is Collect {
            1nat
        } else {
            0
        }
    }
}

/// One of those calls failed.
pub open spec fn collect_failed(collect: usize, answers: Seq<usize>) -> bool
    decreases answers.len(),
{
    answers.len() > 0 && (collect_failed(collect, answers.drop_last()) || (teardown_after(
        collect,
        answers.drop_last(),
    ).call() is Collect && answers.last() == 0))
}

spec fn teardown_in_order(collect: usize, answers: Seq<usize>) -> bool {
    let step = teardown_after(collect, answers);
    let n = collects(collect, answers);
    let failed = collect_failed(collect, answers);
    let before_collecting = step.result == 0 && n == 0 && !failed && step.collect == collect;
    match step.at {
        TeardownCall::ForgetHome | TeardownCall::GetDict => before_collecting && step.passes == 3
            && step.dict == 0 && !step.error,
        TeardownCall::DeleteRegistry => before_collecting && step.passes == 3 && step.dict != 0
            && !step.error,
        TeardownCall::DrainPool => before_collecting && step.passes == (if step.dict != 0 {
            3int
        } else {
            0
        }),
        TeardownCall::Collect => {
            &&& 1 <= step.passes <= 3
            &&& n == 3 - step.passes
            &&& step.result == 0
            &&& step.collect == collect && collect != 0
            &&& step.dict != 0
            &&& !failed
            &&& !step.error
        },
        TeardownCall::ReleaseResult => {
            &&& 1 <= step.passes <= 3
            &&& n == 4 - step.passes
            &&& step.result != 0
            &&& step.collect == collect && collect != 0
            &&& step.dict != 0
            &&& !failed
            &&& !step.error
        },
        TeardownCall::ReleaseCollect | TeardownCall::ReturnNone => {
            &&& n <= 3
            &&& step.result == 0
            &&& step.at is ReleaseCollect ==> step.collect == collect && collect != 0
            &&& step.at is ReturnNone ==> step.collect == 0 && !step.error
            &&& collect == 0 || step.dict == 0 ==> n == 0
            &&& collect != 0 && step.dict != 0 && !failed ==> n == 3
        },
        TeardownCall::ClearError => false,
    }
}

proof fn lemma_teardown_in_order(collect: usize, answers: Seq<usize>)
    ensures
        teardown_in_order(collect, answers),
    decreases answers.len(),
{
    if answers.len() > 0 {
        lemma_teardown_in_order(collect, answers.drop_last());
    }
}

/// However its calls come out, a teardown runs the collector three times at most. It runs it
/// three times exactly where a function was stored, the interpreter has a dict, and no run
/// failed; and never where none was stored.
pub proof fn a_teardown_collects_three_times(collect: usize, answers: Seq<usize>)
    ensures
        collects(collect, answers) <= 3,
        ({
            let end = teardown_after(collect, answers);
            end.call() is ReturnNone ==> {
                &&& collect != 0 && end.dict != 0 && !collect_failed(collect, answers) ==> collects(
                    collect,
                    answers,
                ) == 3
                &&& collect == 0 || end.dict == 0 ==> collects(collect, answers) == 0
            }
        }),
{
    lemma_teardown_in_order(collect, answers);
}

/// A call that returns nothing decides nothing: whatever number is handed back for it, the
/// teardown goes on in the same way. And what has ended stays so.
pub proof fn a_release_decides_nothing_in_a_teardown(step: TeardownStep, a: usize, b: usize)
    ensures
        step.call() is ForgetHome || step.call() is ReleaseResult || step.call() is ReleaseCollect
            || step.call() is ClearError ==> step.after(a) == step.after(b),
        step.call() is ReturnNone ==> step.after(a) == step,
{
}

proof fn lemma_teardown_step(collect: usize, answers: Seq<usize>, i: int)
    requires
        0 <= i < answers.len(),
    ensures
        teardown_after(collect, answers.take(i + 1)) == teardown_after(
            collect,
            answers.take(i),
        ).after(answers[i]),
{
    assert(answers.take(i + 1).drop_last() =~= answers.take(i));
}

/// Where a teardown comes to its pool: behind the dict, the registry that is in it, and an error
/// that its deletion left.
pub open spec fn first_drain(answers: Seq<usize>) -> int {
    if answers[1] == 0 {
        2
    } else if answers[2] == 0 {
        4
    } else {
        3
    }
}

proof fn lemma_drains(collect: usize, answers: Seq<usize>, rounds: nat)
    requires
        answers.len() >= 4,
        answers.len() >= first_drain(answers) + rounds,
        forall|i: int|
            first_drain(answers) <= i < first_drain(answers) + rounds ==> answers[i] != 0,
    ensures
        teardown_after(collect, answers.take(0)) == TeardownStep::start(collect),
        teardown_after(collect, answers.take(1)).call() is GetDict,
        answers[1] != 0 ==> {
            &&& teardown_after(collect, answers.take(2)).call() is DeleteRegistry
            &&& teardown_after(collect, answers.take(2)).dict == answers[1]
        },
        answers[1] != 0 && answers[2] == 0 ==> teardown_after(collect, answers.take(3)).call()
            is ClearError,
        teardown_after(collect, answers.take(first_drain(answers) + rounds)) == (TeardownStep {
            dict: answers[1],
            collect,
            result: 0,
            passes: if answers[1] == 0 {
                0
            } else {
                3
            },
            error: false,
            at: TeardownCall::DrainPool,
        }),
    decreases rounds,
{
    assert(answers.take(0) =~= Seq::<usize>::empty());
    lemma_teardown_step(collect, answers, 0);
    lemma_teardown_step(collect, answers, 1);
    lemma_teardown_step(collect, answers, 2);
    lemma_teardown_step(collect, answers, 3);
    if rounds > 0 {
        lemma_drains(collect, answers, (rounds - 1) as nat);
        lemma_teardown_step(collect, answers, first_drain(answers) + rounds - 1);
    }
}

/// A teardown begins in this order: the home is forgotten first, then the dict is asked for, and
/// where there is one the registry in it is deleted; an error that this leaves is cleared. Then
/// the pool is drained, round by round, for as long as there is one.
pub proof fn a_teardown_begins_in_order(
    collect: usize,
    answers: Seq<usize>,
    rounds: nat,
    round: nat,
)
    requires
        answers.len() >= 4,
        answers.len() >= first_drain(answers) + rounds,
        forall|i: int|
            first_drain(answers) <= i < first_drain(answers) + rounds ==> answers[i] != 0,
        round <= rounds,
    ensures
        teardown_call(collect, answers, 0) is ForgetHome,
        teardown_call(collect, answers, 1) is GetDict,
        answers[1] == 0 ==> teardown_call(collect, answers, 2) is DrainPool,
        answers[1] != 0 ==> {
            &&& teardown_call(collect, answers, 2) is DeleteRegistry
            &&& teardown_after(collect, answers.take(2)).dict == answers[1]
            &&& answers[2] == 0 ==> teardown_call(collect, answers, 3) is ClearError
            &&& answers[2] != 0 ==> teardown_call(collect, answers, 3) is DrainPool
        },
        teardown_call(collect, answers, first_drain(answers) + round) is DrainPool,
{
    lemma_drains(collect, answers, round);
    lemma_drains(collect, answers, 0);
}

/// A teardown ends in this order, once there is no pool left. Without a function to collect with
/// it returns at once. Without a dict it gives that function up and returns. Else it calls the
/// function three times, giving up what each call returned; a call that fails is the last, and
/// its error is cleared. Then it gives the function up and returns. `passes` is how many calls
/// succeed.
pub proof fn a_teardown_ends_in_order(
    collect: usize,
    answers: Seq<usize>,
    rounds: nat,
    passes: int,
    pass: int,
)
    requires
        answers.len() >= first_drain(answers) + rounds + 9,
        forall|i: int|
            first_drain(answers) <= i < first_drain(answers) + rounds ==> answers[i] != 0,
        answers[first_drain(answers) + rounds] == 0,
        0 <= passes <= 3,
        forall|j: int|
            0 <= j < passes ==> #[trigger] answers[first_drain(answers) + rounds + 1 + 2 * j] != 0,
        passes < 3 ==> answers[first_drain(answers) + rounds + 1 + 2 * passes] == 0,
        0 <= pass < passes,
    ensures
        ({
            let e = first_drain(answers) + rounds + 1;
            let f = e + 2 * passes;
            let at = |i: int| teardown_after(collect, answers.take(i));
            &&& collect == 0 ==> at(e).call() is ReturnNone
            &&& collect != 0 && answers[1] == 0 ==> {
                &&& at(e).call() is ReleaseCollect
                &&& at(e).collect == collect
                &&& at(e + 1).call() is ReturnNone
            }
            &&& collect != 0 && answers[1] != 0 ==> {
                &&& at(e + 2 * pass).call() is Collect
                &&& at(e + 2 * pass).collect == collect
                &&& at(e + 2 * pass + 1).call() is ReleaseResult
                &&& at(e + 2 * pass + 1).result == answers[e + 2 * pass]
                &&& passes < 3 ==> {
                    &&& at(f).call() is Collect
                    &&& at(f + 1).call() is ClearError
                    &&& at(f + 2).call() is ReleaseCollect
                    &&& at(f + 2).collect == collect
                    &&& at(f + 3).call() is ReturnNone
                }
                &&& passes == 3 ==> {
                    &&& at(f).call() is ReleaseCollect
                    &&& at(f).collect == collect
                    &&& at(f + 1).call() is ReturnNone
                }
            }
        }),
{
    let d = first_drain(answers) + rounds;
    let e = d + 1;
    lemma_drains(collect, answers, rounds);
    lemma_teardown_step(collect, answers, d);
    lemma_teardown_step(collect, answers, e);
    lemma_teardown_step(collect, answers, e + 1);
    lemma_teardown_step(collect, answers, e + 2);
    lemma_teardown_step(collect, answers, e + 3);
    lemma_teardown_step(collect, answers, e + 4);
    lemma_teardown_step(collect, answers, e + 5);
    lemma_teardown_step(collect, answers, e + 6);
    if passes >= 1 {
        assert(answers[e + 2 * 0] != 0);
    }
    if passes >= 2 {
        assert(answers[e + 2 * 1] != 0);
    }
    if passes >= 3 {
        assert(answers[e + 2 * 2] != 0);
    }
}

/// A teardown whose first call of the function that collects fails makes no second one.
pub proof fn a_first_failure_ends_a_teardown(collect: usize, answers: Seq<usize>, rounds: nat)
    requires
        answers.len() >= first_drain(answers) + rounds + 5,
        forall|i: int|
            first_drain(answers) <= i < first_drain(answers) + rounds ==> answers[i] != 0,
        answers[first_drain(answers) + rounds] == 0,
        answers[first_drain(answers) + rounds + 1] == 0,
        answers[1] != 0,
        collect != 0,
    ensures
        ({
            let e = first_drain(answers) + rounds + 1;
            let at = |i: int| teardown_after(collect, answers.take(i));
            &&& at(e).call() is Collect
            &&& at(e).collect == collect
            &&& at(e + 1).call() is ClearError
            &&& at(e + 2).call() is ReleaseCollect
            &&& at(e + 2).collect == collect
            &&& at(e + 3).call() is ReturnNone
        }),
{
    let d = first_drain(answers) + rounds;
    lemma_drains(collect, answers, rounds);
    lemma_teardown_step(collect, answers, d);
    lemma_teardown_step(collect, answers, d + 1);
    lemma_teardown_step(collect, answers, d + 2);
    lemma_teardown_step(collect, answers, d + 3);
}

/// What a teardown does behind its pools does not depend on the function's address: with any
/// function it collects, and without one it returns at once.
pub proof fn a_teardown_without_a_function_returns(answers: Seq<usize>, rounds: nat, collect: usize)
    requires
        answers.len() >= first_drain(answers) + rounds + 3,
        answers.len() >= 4,
        forall|i: int|
            first_drain(answers) <= i < first_drain(answers) + rounds ==> answers[i] != 0,
        answers[first_drain(answers) + rounds] == 0,
    ensures
        ({
            let e = first_drain(answers) + rounds + 1;
            let at = |i: int| teardown_after(collect, answers.take(i));
            &&& at(e).call() is ReturnNone <==> collect == 0
            &&& at(e).call() is Collect <==> collect != 0 && answers[1] != 0
            &&& at(e).call() is ReleaseCollect <==> collect != 0 && answers[1] == 0
            &&& at(e).call() is ReturnNone ==> at(e + 1).call() is ReturnNone
            &&& at(e).call() is ReleaseCollect ==> at(e).collect == collect && at(e + 1).call()
                is ReturnNone
        }),
{
    let d = first_drain(answers) + rounds;
    lemma_drains(collect, answers, rounds);
    lemma_teardown_step(collect, answers, d);
    lemma_teardown_step(collect, answers, d + 1);
}

/// Every reference that a teardown holds or takes it gives up once; when it returns it holds
/// none.
pub proof fn teardown_references_balance(collect: usize, answers: Seq<usize>, answer: usize)
    ensures
        ({
            let step = teardown_after(collect, answers);
            &&& teardown_owned(step.after(answer)).add(teardown_released(step)) == teardown_owned(
                step,
            ).add(teardown_acquired(step, answer))
            &&& step.call() is ReturnNone ==> teardown_owned(step) == Multiset::<usize>::empty()
        }),
        teardown_owned(TeardownStep::start(collect)) == held(collect),
{
    lemma_teardown_in_order(collect, answers);
    let step = teardown_after(collect, answers);
    assert(teardown_owned(step.after(answer)).add(teardown_released(step)) =~= teardown_owned(
        step,
    ).add(teardown_acquired(step, answer)));
    assert(teardown_owned(TeardownStep::start(collect)) =~= held(collect));
    if step.call() is ReturnNone {
        assert(teardown_owned(step) =~= Multiset::<usize>::empty());
    }
}

/// One call of a teardown, and what the state of this copy is before and after it. A call that
/// deletes the registry leaves none. Nothing else brings back what is gone: between its home
/// being forgotten and the end of the teardown, the interpreter executes no module of this copy,
/// and it stores no value and queues no decref once its registry and its pool are gone.
pub open spec fn ending_step<T>(
    interp: Interpreter,
    call: TeardownCall,
    answer: usize,
    before: (Record, Registries<T>, Pools),
    after: (Record, Registries<T>, Pools),
) -> bool {
    let key = key_of(interp);
    &&& if call is ForgetHome {
        after.0 == before.0.torn_down(interp.addr)
    } else {
        before.0.home != Some(interp.addr) ==> after.0.home != Some(interp.addr)
    }
    &&& if call is DeleteRegistry {
        !after.1@.dom().contains(interp.addr)
    } else {
        !before.1@.dom().contains(interp.addr) ==> !after.1@.dom().contains(interp.addr)
    }
    &&& if call is DrainPool {
        // The decrefs of a round can queue more, which the next round finds.
        &&& before.2@.dom().contains(key) <==> answer != 0
        &&& answer == 0 ==> after.2@ == before.2@.remove(key)
    } else {
        !before.2@.dom().contains(key) ==> !after.2@.dom().contains(key)
    }
}

/// A run of a teardown: `states[i]` is the state of this copy before the call that `answers[i]`
/// answers.
pub open spec fn is_ending<T>(
    interp: Interpreter,
    collect: usize,
    answers: Seq<usize>,
    states: Seq<(Record, Registries<T>, Pools)>,
) -> bool {
    &&& states.len() == answers.len() + 1
    &&& forall|i: int|
        0 <= i < answers.len() ==> #[trigger] ending_step(
            interp,
            teardown_call(collect, answers, i),
            answers[i],
            states[i],
            states[i + 1],
        )
}

/// When a teardown returns nothing of the interpreter is left: it is not the home of this copy,
/// so that no thread is sent to it; it has no pool, so that no decref is left queued for it; and,
/// where it has a dict, it has no registry, so that every cell reads as empty there.
pub proof fn a_teardown_leaves_nothing_behind<T>(
    interp: Interpreter,
    collect: usize,
    answers: Seq<usize>,
    states: Seq<(Record, Registries<T>, Pools)>,
    index: usize,
)
    requires
        is_ending(interp, collect, answers, states),
        teardown_after(collect, answers).call() is ReturnNone,
    ensures
        states.last().0.home != Some(interp.addr),
        states.last().0.target() != ForeignTarget::Home(interp.addr),
        !states.last().2@.dom().contains(key_of(interp)),
        states.last().2.queue(key_of(interp)) == Seq::<usize>::empty(),
        teardown_after(collect, answers).dict != 0 ==> {
            &&& !states.last().1@.dom().contains(interp.addr)
            &&& states.last().1.value(interp.addr, index) is None
        },
{
    assert(answers.take(answers.len() as int) =~= answers);
    lemma_ending(interp, collect, answers, states, answers.len() as int);
}

/// What is gone once a teardown is at some step.
spec fn gone_at<T>(
    interp: Interpreter,
    step: TeardownStep,
    state: (Record, Registries<T>, Pools),
) -> bool {
    let at = step.at;
    let early = at is ForgetHome || at is GetDict || at is DeleteRegistry;
    &&& !(at is ForgetHome) ==> state.0.home != Some(interp.addr)
    &&& !early && step.dict != 0 ==> !state.1@.dom().contains(interp.addr)
    &&& !early && !(at is DrainPool) ==> !state.2@.dom().contains(key_of(interp))
}

proof fn lemma_ending<T>(
    interp: Interpreter,
    collect: usize,
    answers: Seq<usize>,
    states: Seq<(Record, Registries<T>, Pools)>,
    n: int,
)
    requires
        is_ending(interp, collect, answers, states),
        0 <= n <= answers.len(),
    ensures
        gone_at(interp, teardown_after(collect, answers.take(n)), states[n]),
    decreases n,
{
    if n > 0 {
        let m = n - 1;
        lemma_ending(interp, collect, answers, states, m);
        lemma_teardown_in_order(collect, answers.take(m));
        assert(answers.take(n).drop_last() =~= answers.take(m));
        assert(ending_step(
            interp,
            teardown_call(collect, answers, m),
            answers[m],
            states[m],
            states[m + 1],
        ));
    }
}

/// While a callback that CPython made directly is marked as attached, a reference dropped in it
/// is decref'd, not deferred; afterwards the count is what it was before.
pub proof fn a_marked_callback_is_attached(count: AttachCount)
    requires
        count.can_increment(),
    ensures
        count.cell is Some ==> count.plus(1).attached(),
        count.plus(1).can_decrement(),
        count.plus(1).plus(-1) == count,
{
}

} // verus!
