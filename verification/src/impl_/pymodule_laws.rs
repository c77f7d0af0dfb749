//! What holds of module slots and module objects as a whole.

use crate::config::BuildConfig;
use crate::impl_::pymodule::{
    abi_slots, after_patch, doc_slots, ends_at, exec_slot, first_placeholder, gil_slots,
    has_placeholder, lemma_ends, name_slots, own_gil_slot, own_gil_slots, points_at_primary,
    refuses_second_initialization, static_slots, terminated,
};
use crate::impl_::pymodule::{
    AddClassToModule, AddTypeToModule, Addition, ModuleCall, ModuleDef, ModuleSlot, ModuleStep,
    PyAddToModule, PyFunctionDef, SlotForm, SlotId, SlotValue,
};
use crate::impl_::version_laws::{
    no_digit_follows, padded, support_starts_with_three_twelve, written,
};
use crate::reference::held;
use crate::sync::per_interpreter::{with_value, Registries};
use vstd::multiset::Multiset;
use vstd::prelude::*;

verus! {

/// The slots that a module declares, each once.
pub open spec fn declared_once(
    config: BuildConfig,
    function: usize,
    gil_used: bool,
    name: usize,
    doc: usize,
) -> Seq<ModuleSlot> {
    seq![exec_slot(config, function)] + static_slots(config, SlotId::Name, SlotValue::Address(name))
        + static_slots(config, SlotId::Doc, SlotValue::Address(doc)) + own_gil_slots(config)
        + gil_slots(config, gil_used) + static_slots(config, SlotId::Abi, SlotValue::AbiInfo)
}

/// Declaring every slot once fills the array of a build exactly, whichever build it is: there is
/// room for each of them, and for no other.
pub proof fn every_slot_fits_once(
    config: BuildConfig,
    function: usize,
    gil_used: bool,
    name: usize,
    doc: usize,
)
    ensures
        declared_once(config, function, gil_used, name, doc).len() == config.max_slots(),
{
}

/// In every build that has the GIL slot a module declares exactly one, and says that it uses the
/// GIL exactly where it does, whatever the version; in no other build it declares any.
pub proof fn a_module_says_whether_it_uses_the_gil(config: BuildConfig, gil_used: bool)
    ensures
        config.py_minor < 13 ==> gil_slots(config, gil_used).len() == 0,
        config.py_minor >= 13 ==> {
            let slots = gil_slots(config, gil_used);
            &&& slots.len() == 1
            &&& slots[0].id is Gil
            &&& slots[0].value is GilUsed <==> gil_used
            &&& slots[0].value is GilNotUsed <==> !gil_used
            &&& slots[0].form is Data <==> config.py_minor >= 15
            &&& slots[0].form is Plain <==> config.py_minor < 15
        },
{
}

/// A module declares own-GIL support in every build that knows the slot. In a limited-API build
/// that may run on an older version it holds the place for it, and any other build has no such
/// slot. What it declares does not depend on anything else of the build.
pub proof fn a_module_declares_own_gil_support(config: BuildConfig)
    ensures
        config.py_minor >= 12 ==> {
            let slots = own_gil_slots(config);
            &&& slots.len() == 1
            &&& slots[0].id is MultipleInterpreters
            &&& slots[0].value is PerInterpreterGilSupported
            &&& slots[0].form is Data <==> config.py_minor >= 15
            &&& slots[0].form is Plain <==> config.py_minor < 15
        },
        config.py_minor < 12 && config.limited_api ==> {
            let slots = own_gil_slots(config);
            &&& slots.len() == 1
            &&& slots[0].id is MultipleInterpretersPlaceholder
            &&& slots[0].form is Plain
        },
        config.py_minor < 12 && !config.limited_api ==> own_gil_slots(config).len() == 0,
        (exists|i: int|
            0 <= i < own_gil_slots(config).len() && (#[trigger] own_gil_slots(config)[i]).id
                is MultipleInterpretersPlaceholder) <==> config.resolves_slot_at_run_time(),
        config.resolves_slot_at_run_time() <==> config.limited_api && config.py_minor <= 11,
{
    if config.resolves_slot_at_run_time() {
        assert(own_gil_slots(config)[0].id is MultipleInterpretersPlaceholder);
    }
}

/// What a module declares, build by build: the function that executes it always, own-GIL support
/// where the build has it or holds the place for it, the use of the GIL from Python 3.13 on, and
/// name, documentation and ABI information from Python 3.15 on; each with the value that it was
/// given.
pub proof fn a_module_declares_what_its_build_has(
    config: BuildConfig,
    function: usize,
    gil_used: bool,
    name: usize,
    doc: usize,
)
    ensures
        ({
            let slots = declared_once(config, function, gil_used, name, doc);
            let gil = if gil_used {
                SlotValue::GilUsed
            } else {
                SlotValue::GilNotUsed
            };
            let plain = |id: SlotId, value: SlotValue|
                ModuleSlot { id, form: SlotForm::Plain, value };
            let exec = SlotValue::Address(function);
            if config.py_minor >= 15 {
                slots == seq![
                    ModuleSlot { id: SlotId::Exec, form: SlotForm::Func, value: exec },
                    ModuleSlot {
                        id: SlotId::Name,
                        form: SlotForm::StaticData,
                        value: SlotValue::Address(name),
                    },
                    ModuleSlot {
                        id: SlotId::Doc,
                        form: SlotForm::StaticData,
                        value: SlotValue::Address(doc),
                    },
                    ModuleSlot {
                        id: SlotId::MultipleInterpreters,
                        form: SlotForm::Data,
                        value: SlotValue::PerInterpreterGilSupported,
                    },
                    ModuleSlot { id: SlotId::Gil, form: SlotForm::Data, value: gil },
                    ModuleSlot {
                        id: SlotId::Abi,
                        form: SlotForm::StaticData,
                        value: SlotValue::AbiInfo,
                    },
                ]
            } else if config.py_minor >= 13 {
                slots == seq![
                    plain(SlotId::Exec, exec),
                    plain(SlotId::MultipleInterpreters, SlotValue::PerInterpreterGilSupported),
                    plain(SlotId::Gil, gil),
                ]
            } else if config.py_minor == 12 {
                slots == seq![
                    plain(SlotId::Exec, exec),
                    plain(SlotId::MultipleInterpreters, SlotValue::PerInterpreterGilSupported),
                ]
            } else if config.limited_api {
                slots == seq![
                    plain(SlotId::Exec, exec),
                    plain(SlotId::MultipleInterpretersPlaceholder, SlotValue::Null),
                ]
            } else {
                slots == seq![plain(SlotId::Exec, exec)]
            }
        }),
        config.max_slots() == if config.py_minor >= 15 {
            6nat
        } else if config.py_minor >= 13 {
            3
        } else if config.py_minor == 12 || config.limited_api {
            2
        } else {
            1
        },
{
    let slots = declared_once(config, function, gil_used, name, doc);
    assert(slots.len() == config.max_slots());
}

/// A module declares its name, its documentation and its ABI information exactly in the builds
/// for Python 3.15 and later, each in one slot of its own that carries what was given.
pub proof fn a_module_declares_its_static_data(config: BuildConfig, name: usize, doc: usize)
    ensures
        config.py_minor < 15 ==> {
            &&& name_slots(config, name).len() == 0
            &&& doc_slots(config, doc).len() == 0
            &&& abi_slots(config).len() == 0
        },
        config.py_minor >= 15 ==> {
            &&& name_slots(config, name).len() == 1
            &&& name_slots(config, name)[0].id is Name
            &&& name_slots(config, name)[0].value == SlotValue::Address(name)
            &&& doc_slots(config, doc).len() == 1
            &&& doc_slots(config, doc)[0].id is Doc
            &&& doc_slots(config, doc)[0].value == SlotValue::Address(doc)
            &&& abi_slots(config).len() == 1
            &&& abi_slots(config)[0].id is Abi
            &&& abi_slots(config)[0].value is AbiInfo
        },
{
}

/// Each kind of element is added to a module as what it is, and a function as itself: two
/// functions are added as one exactly where they have one definition.
pub proof fn an_element_is_added_as_what_it_is<T>(
    native: AddTypeToModule<T>,
    class: AddClassToModule<T>,
    module: ModuleDef,
    a: PyFunctionDef,
    b: PyFunctionDef,
)
    ensures
        native.element() is Type,
        class.element() is Class,
        module.element() is Submodule,
        a.element() is Function,
        a.element() == b.element() <==> a.method == b.method,
        a.element() == Addition::Function(a.method),
{
}

/// The secondary slots lead to the primary ones, and to nothing else.
pub proof fn the_secondary_slots_point_at_the_primary_ones()
    ensures
        points_at_primary().len() == 2,
        points_at_primary()[0].id is Subslots,
        points_at_primary()[0].value is PrimarySlots,
        points_at_primary()[1].id is End,
        points_at_primary()[1].value is Null,
{
}

/// A build fills in a `PyModuleDef`, but for the free-threaded limited API; that one has the slot
/// arrays of Python 3.15 instead. So every build has a way to make a module.
pub proof fn every_build_can_make_a_module(config: BuildConfig)
    requires
        config.valid(),
    ensures
        config.has_module_def() || config.py_minor >= 15,
        !config.has_module_def() <==> config.limited_api && config.gil_disabled,
        config.limited_api && config.gil_disabled ==> config.py_minor >= 15,
{
}

/// A second initialization is refused in one build only; a build that differs from it in any one
/// respect initializes a module as often as it is asked to.
pub proof fn one_build_refuses_a_second_initialization(config: BuildConfig)
    ensures
        refuses_second_initialization(config) ==> {
            &&& config.windows
            &&& config.limited_api
            &&& config.py_minor <= 9
            &&& !config.alternative_impl
        },
        config.windows && config.limited_api && config.py_minor <= 9 && !config.alternative_impl
            ==> refuses_second_initialization(config),
{
}

/// The slots that CPython reads of an array.
pub open spec fn read_by_cpython(a: Seq<ModuleSlot>) -> Seq<ModuleSlot> {
    a.take(choose|n: int| ends_at(a, n))
}

/// Resolving a placeholder changes nothing else of what CPython reads: where the running version
/// knows the slot, the placeholder becomes that slot, in its place; where it does not, the
/// placeholder is gone and the others keep their order.
pub proof fn a_patch_changes_only_the_placeholder(a: Seq<ModuleSlot>, p: int)
    requires
        terminated(a),
        first_placeholder(a, p),
    ensures
        read_by_cpython(after_patch(a, true)) == read_by_cpython(a).update(
            p,
            own_gil_slot(a[p].form),
        ),
        read_by_cpython(after_patch(a, false)) == read_by_cpython(a).remove(p),
        p < read_by_cpython(a).len(),
{
    let n = lemma_ends(a, 0);
    assert forall|q: int| #[trigger] first_placeholder(a, q) implies q == p by {}
    assert(p < n);
    let t = after_patch(a, true);
    assert(ends_at(t, n)) by {
        assert forall|i: int| 0 <= i < n implies !((#[trigger] t[i]).id is End) by {
            if i != p {
                assert(t[i] == a[i]);
            }
        }
    }
    assert forall|m: int| #[trigger] ends_at(t, m) implies m == n by {}
    assert(read_by_cpython(t) =~= read_by_cpython(a).update(p, own_gil_slot(a[p].form)));
    let f = after_patch(a, false);
    assert(ends_at(f, n - 1)) by {
        assert(f[n - 1] == a[n]);
        assert forall|i: int| 0 <= i < n - 1 implies !((#[trigger] f[i]).id is End) by {
            if i < p {
                assert(f[i] == a[i]);
            } else {
                assert(f[i] == a[i + 1]);
            }
        }
    }
    assert forall|m: int| #[trigger] ends_at(f, m) implies m == n - 1 by {}
    assert(read_by_cpython(f) =~= read_by_cpython(a).remove(p));
}

/// There is one placeholder at most.
pub open spec fn one_placeholder(slots: Seq<ModuleSlot>) -> bool {
    forall|i: int, j: int|
        0 <= i < slots.len() && 0 <= j < slots.len() && (#[trigger] slots[i]).id
            is MultipleInterpretersPlaceholder && (#[trigger] slots[j]).id
            is MultipleInterpretersPlaceholder ==> i == j
}

/// The placeholder never reaches CPython: once the running version has decided about it, CPython
/// reads none. And the module then declares own-GIL support exactly where that version has it.
pub proof fn no_placeholder_reaches_cpython(a: Seq<ModuleSlot>, supported: bool, i: int)
    requires
        terminated(a),
        one_placeholder(read_by_cpython(a)),
        0 <= i < read_by_cpython(after_patch(a, supported)).len(),
    ensures
        !(read_by_cpython(after_patch(a, supported))[i].id is MultipleInterpretersPlaceholder),
        !supported && (forall|k: int|
            0 <= k < read_by_cpython(a).len() ==> !((#[trigger] read_by_cpython(a)[k]).id
                is MultipleInterpreters)) ==> !(read_by_cpython(after_patch(a, supported))[i].id
            is MultipleInterpreters),
{
    let n = lemma_ends(a, 0);
    let read = read_by_cpython(a);
    if has_placeholder(a) {
        let p = choose|p: int| first_placeholder(a, p);
        a_patch_changes_only_the_placeholder(a, p);
        assert(read[p] == a[p]);
        let k = if supported || i < p {
            i
        } else {
            i + 1
        };
        if k != p || !supported {
            assert(read_by_cpython(after_patch(a, supported))[i] == read[k]);
            assert(k != p);
        }
    } else {
        if read[i].id is MultipleInterpretersPlaceholder {
            lemma_first(a, n, i);
        }
    }
}

/// Only the first patch counts: whatever version is asked about later, the slots stay as the
/// first one left them.
pub proof fn a_module_is_patched_once(
    before: ModuleDef,
    patched: ModuleDef,
    again: ModuleDef,
    version: Seq<u8>,
    later: Seq<u8>,
)
    requires
        patched.patched(),
        patched.def_slots() == before.patched_slots(version),
        again.def_slots() == patched.patched_slots(later),
    ensures
        again.def_slots() == before.patched_slots(version),
{
}

/// A module of a limited-API build that may run on an older version tells the version that
/// loads it what that version understands: on Python 3.12 and later that it supports a GIL per
/// interpreter, exactly as a build for that version would; on an older one nothing. All else it
/// declares stays as it was.
pub proof fn a_module_declares_what_its_version_knows(
    def: ModuleDef,
    p: int,
    a: nat,
    b: nat,
    rest: Seq<u8>,
)
    requires
        def.config().limited_api,
        def.config().py_minor < 12,
        !def.patched(),
        terminated(def.def_slots()),
        first_placeholder(def.def_slots(), p),
        no_digit_follows(rest),
    ensures
        ({
            let version = written(a) + seq![46u8] + written(b) + rest;
            let before = read_by_cpython(def.def_slots());
            let after = read_by_cpython(def.patched_slots(version));
            &&& 0 <= p < before.len()
            &&& if a >= 4 || (a == 3 && b >= 12) {
                &&& after.len() == before.len()
                &&& after[p].id is MultipleInterpreters
                &&& after[p].value is PerInterpreterGilSupported
                &&& after[p].form == before[p].form
                &&& forall|i: int| 0 <= i < before.len() && i != p ==> after[i] == before[i]
            } else {
                after == before.remove(p)
            }
        }),
{
    let version = written(a) + seq![46u8] + written(b) + rest;
    support_starts_with_three_twelve(a, b, 0, 0, rest);
    assert(padded(0, a) =~= written(a));
    assert(padded(0, b) =~= written(b));
    a_patch_changes_only_the_placeholder(def.def_slots(), p);
    let n = lemma_ends(def.def_slots(), 0);
    assert(read_by_cpython(def.def_slots())[p] == def.def_slots()[p]);
}

/// An array in which CPython reads no placeholder is left as it is, whatever version runs.
pub proof fn nothing_is_patched_without_a_placeholder(a: Seq<ModuleSlot>, supported: bool)
    requires
        terminated(a),
        forall|i: int|
            0 <= i < read_by_cpython(a).len() ==> !((#[trigger] read_by_cpython(a)[i]).id
                is MultipleInterpretersPlaceholder),
    ensures
        after_patch(a, supported) == a,
{
    let n = lemma_ends(a, 0);
    if has_placeholder(a) {
        let p = choose|p: int| first_placeholder(a, p);
        assert(p < n);
        assert(read_by_cpython(a)[p] == a[p]);
    }
}

/// In every other build the running version changes nothing.
pub proof fn a_build_that_knows_the_slot_is_not_patched(def: ModuleDef, version: Seq<u8>)
    requires
        !def.config().limited_api || def.config().py_minor >= 12,
    ensures
        def.patched_slots(version) == def.def_slots(),
{
}

/// A placeholder before the end means that there is a first one.
proof fn lemma_first(a: Seq<ModuleSlot>, n: int, i: int)
    requires
        ends_at(a, n),
        0 <= i < n,
        a[i].id is MultipleInterpretersPlaceholder,
    ensures
        has_placeholder(a),
    decreases i,
{
    if exists|j: int| 0 <= j < i && (#[trigger] a[j]).id is MultipleInterpretersPlaceholder {
        let j = choose|j: int|
            0 <= j < i && (#[trigger] a[j]).id is MultipleInterpretersPlaceholder;
        lemma_first(a, n, j);
    } else {
        assert(first_placeholder(a, i));
    }
}

/// What the calls that make a module object return; zero stands for a failure.
pub struct ModuleAnswers {
    pub namespace: usize,
    pub spec_object: usize,
    pub cached: usize,
    pub create: usize,
    pub executed: usize,
    pub store: usize,
}

impl ModuleAnswers {
    /// The answer to a call. Those that return nothing are not asked.
    pub open spec fn answer(self, call: ModuleCall) -> usize {
        match call {
            ModuleCall::ImportNamespace => self.namespace,
            ModuleCall::MakeSpec => self.spec_object,
            ModuleCall::FindCached => self.cached,
            ModuleCall::Create => self.create,
            ModuleCall::Exec => self.executed,
            ModuleCall::Store => self.store,
            _ => 0,
        }
    }
}

/// How far the making of a module object is after `n` calls.
pub open spec fn module_step_after(from: ModuleStep, answers: ModuleAnswers, n: nat) -> ModuleStep
    decreases n,
{
    if n == 0 {
        from
    } else {
        module_step_after(from.after(answers.answer(from.at)), answers, (n - 1) as nat)
    }
}

/// The making of a module object ends after nine calls at most: at the module object that the
/// interpreter keeps, or else at the one that it keeps after it made one.
pub proof fn the_making_of_a_module_ends(answers: ModuleAnswers)
    ensures
        ({
            let end = module_step_after(ModuleStep::start(), answers, 9);
            if answers.namespace == 0 || answers.spec_object == 0 {
                end.at is Failed
            } else if answers.cached != 0 {
                end.at is Done && end.cached == answers.cached
            } else if answers.create == 0 || answers.executed == 0 {
                end.at is Failed
            } else {
                end.at is Done && end.cached == if answers.store == 0 {
                    answers.create
                } else {
                    answers.store
                }
            }
        }),
{
    reveal_with_fuel(module_step_after, 10);
}

/// What a call of `make_module` in an interpreter does to the module objects that are kept, by
/// [`ModuleDef::cached_module`][crate::impl_::pymodule::ModuleDef::cached_module] and
/// [`ModuleDef::store_module`][crate::impl_::pymodule::ModuleDef::store_module]; `index` is that
/// of the cell of the definition.
pub open spec fn makes_module(
    before: Registries<usize>,
    interp: usize,
    index: usize,
    answers: ModuleAnswers,
    after: Registries<usize>,
) -> bool {
    let kept = before.value(interp, index);
    let made = answers.namespace != 0 && answers.spec_object != 0 && answers.cached == 0
        && answers.create != 0 && answers.executed != 0;
    &&& answers.cached == match kept {
        Some(module) => module,
        None => 0,
    }
    &&& if made && before@.dom().contains(interp) && kept is None {
        &&& answers.store == answers.create
        &&& after@ == before@.insert(
            interp,
            with_value(before@[interp], index as int, answers.create),
        )
    } else {
        &&& made ==> answers.store == match kept {
            Some(module) => module,
            None => 0,
        }
        &&& after@ == before@
    }
}

/// In an interpreter that holds a registry, a module object is made once: a later call gives the
/// same object, and neither creates nor executes another. An interpreter that has none makes its
/// own, and leaves that of every other as it was.
pub proof fn a_module_is_made_once_per_interpreter(
    before: Registries<usize>,
    between: Registries<usize>,
    after: Registries<usize>,
    interp: usize,
    index: usize,
    first: ModuleAnswers,
    later: ModuleAnswers,
    other: usize,
    elsewhere: ModuleAnswers,
    afterwards: Registries<usize>,
    n: nat,
)
    requires
        before@.dom().contains(interp),
        before.value(interp, index) != Some(0usize),
        makes_module(before, interp, index, first, between),
        module_step_after(ModuleStep::start(), first, 9).at is Done,
        makes_module(between, interp, index, later, after),
        later.namespace != 0,
        later.spec_object != 0,
        other != interp,
        between@.dom().contains(other),
        between.value(other, index) is None,
        makes_module(between, other, index, elsewhere, afterwards),
        module_step_after(ModuleStep::start(), elsewhere, 9).at is Done,
    ensures
        ({
            let module = module_step_after(ModuleStep::start(), first, 9).cached;
            let again = module_step_after(ModuleStep::start(), later, 9);
            let own = module_step_after(ModuleStep::start(), elsewhere, 9).cached;
            &&& between.value(interp, index) == Some(module)
            &&& again.at is Done
            &&& again.cached == module
            &&& after@ == between@
            &&& own == elsewhere.create
            &&& afterwards.value(other, index) == Some(own)
            &&& afterwards.value(interp, index) == Some(module)
        }),
        !(module_step_after(ModuleStep::start(), later, n).at is Create),
        !(module_step_after(ModuleStep::start(), later, n).at is Exec),
        module_step_after(ModuleStep::start(), first, n).at is Exec ==> n == 4,
{
    the_making_of_a_module_ends(first);
    the_making_of_a_module_ends(later);
    the_making_of_a_module_ends(elsewhere);
    lemma_made_at(first, n);
    lemma_made_at(later, n);
}

/// A module object is created and executed in one place of its making, and only where none is
/// kept.
proof fn lemma_made_at(answers: ModuleAnswers, n: nat)
    ensures
        module_step_after(ModuleStep::start(), answers, n).at is Create ==> n == 3
            && answers.cached == 0,
        module_step_after(ModuleStep::start(), answers, n).at is Exec ==> n == 4 && answers.cached
            == 0,
{
    if n >= 9 {
        the_making_of_a_module_ends(answers);
        lemma_module_split(ModuleStep::start(), answers, 9, (n - 9) as nat);
        lemma_module_end_stays(
            module_step_after(ModuleStep::start(), answers, 9),
            answers,
            (n - 9) as nat,
        );
    } else {
        reveal_with_fuel(module_step_after, 10);
        assert(n == 0 || n == 1 || n == 2 || n == 3 || n == 4 || n == 5 || n == 6 || n == 7 || n
            == 8);
    }
}

proof fn lemma_module_split(step: ModuleStep, answers: ModuleAnswers, a: nat, b: nat)
    ensures
        module_step_after(step, answers, a + b) == module_step_after(
            module_step_after(step, answers, a),
            answers,
            b,
        ),
    decreases a,
{
    if a > 0 {
        lemma_module_split(
            step.after(answers.answer(step.at)),
            answers,
            (a - 1) as nat,
            b,
        );
    }
}

proof fn lemma_module_end_stays(step: ModuleStep, answers: ModuleAnswers, n: nat)
    requires
        step.at is Done || step.at is Failed,
    ensures
        module_step_after(step, answers, n) == step,
    decreases n,
{
    if n > 0 {
        lemma_module_end_stays(step, answers, (n - 1) as nat);
    }
}

/// The object that the caller hands to the next call, or to the one who asked; none where it
/// hands over nothing.
pub open spec fn module_operand(step: ModuleStep) -> usize {
    match step.at {
        ModuleCall::MakeSpec => step.namespace,
        ModuleCall::Create | ModuleCall::ReleaseSpec => step.spec_object,
        ModuleCall::Exec | ModuleCall::Store | ModuleCall::ReleaseModule => step.module,
        ModuleCall::CloneRef | ModuleCall::Done => step.cached,
        _ => 0,
    }
}

/// The calls of a making, in order, each with the object that it is about.
pub open spec fn module_trace(
    from: ModuleStep,
    answers: ModuleAnswers,
    n: nat,
) -> Seq<(ModuleCall, usize)>
    decreases n,
{
    if n == 0 {
        Seq::empty()
    } else if from.at is Done || from.at is Failed {
        seq![(from.at, module_operand(from))]
    } else {
        seq![(from.at, module_operand(from))] + module_trace(
            from.after(answers.answer(from.at)),
            answers,
            (n - 1) as nat,
        )
    }
}

/// A module object is made in this order and no other. The spec comes first, in the name of the
/// module. Where the interpreter keeps a module object that one is taken, and none is created.
/// Where it keeps none, one is created from the spec, executed, and stored; if another thread
/// was faster the one that lost is given up. The one who asked always gets a reference of its
/// own to the module that is handed out, and the spec is given up last.
pub proof fn a_module_is_made_in_order(answers: ModuleAnswers)
    ensures
        module_trace(ModuleStep::start(), answers, 10) == if answers.namespace == 0 {
            seq![(ModuleCall::ImportNamespace, 0usize), (ModuleCall::Failed, 0)]
        } else if answers.spec_object == 0 {
            seq![
                (ModuleCall::ImportNamespace, 0usize),
                (ModuleCall::MakeSpec, answers.namespace),
                (ModuleCall::Failed, 0),
            ]
        } else if answers.cached != 0 {
            seq![
                (ModuleCall::ImportNamespace, 0usize),
                (ModuleCall::MakeSpec, answers.namespace),
                (ModuleCall::FindCached, 0),
                (ModuleCall::CloneRef, answers.cached),
                (ModuleCall::ReleaseSpec, answers.spec_object),
                (ModuleCall::Done, answers.cached),
            ]
        } else if answers.create == 0 {
            seq![
                (ModuleCall::ImportNamespace, 0usize),
                (ModuleCall::MakeSpec, answers.namespace),
                (ModuleCall::FindCached, 0),
                (ModuleCall::Create, answers.spec_object),
                (ModuleCall::ReleaseSpec, answers.spec_object),
                (ModuleCall::Failed, 0),
            ]
        } else if answers.executed == 0 {
            seq![
                (ModuleCall::ImportNamespace, 0usize),
                (ModuleCall::MakeSpec, answers.namespace),
                (ModuleCall::FindCached, 0),
                (ModuleCall::Create, answers.spec_object),
                (ModuleCall::Exec, answers.create),
                (ModuleCall::ReleaseModule, answers.create),
                (ModuleCall::ReleaseSpec, answers.spec_object),
                (ModuleCall::Failed, 0),
            ]
        } else if answers.store == answers.create || answers.store == 0 {
            seq![
                (ModuleCall::ImportNamespace, 0usize),
                (ModuleCall::MakeSpec, answers.namespace),
                (ModuleCall::FindCached, 0),
                (ModuleCall::Create, answers.spec_object),
                (ModuleCall::Exec, answers.create),
                (ModuleCall::Store, answers.create),
                (ModuleCall::CloneRef, answers.create),
                (ModuleCall::ReleaseSpec, answers.spec_object),
                (ModuleCall::Done, answers.create),
            ]
        } else {
            seq![
                (ModuleCall::ImportNamespace, 0usize),
                (ModuleCall::MakeSpec, answers.namespace),
                (ModuleCall::FindCached, 0),
                (ModuleCall::Create, answers.spec_object),
                (ModuleCall::Exec, answers.create),
                (ModuleCall::Store, answers.create),
                (ModuleCall::ReleaseModule, answers.create),
                (ModuleCall::CloneRef, answers.store),
                (ModuleCall::ReleaseSpec, answers.spec_object),
                (ModuleCall::Done, answers.store),
            ]
        },
{
    reveal_with_fuel(module_trace, 11);
}

/// A call that returns nothing decides nothing: whatever number is handed back for it, the making
/// goes on in the same way. And what has ended stays so.
pub proof fn a_release_decides_nothing_in_a_making(step: ModuleStep, a: usize, b: usize)
    ensures
        step.at is ReleaseModule || step.at is CloneRef || step.at is ReleaseSpec ==> step.after(a)
            == step.after(b),
        step.at is Done || step.at is Failed ==> step.after(a) == step,
{
}

/// The references that were taken for the one who asked, in the first `n` calls.
pub open spec fn taken_for_caller(from: ModuleStep, answers: ModuleAnswers, n: nat) -> Seq<usize>
    decreases n,
{
    if n == 0 {
        Seq::empty()
    } else {
        (if from.at is CloneRef {
            seq![from.cached]
        } else {
            Seq::empty()
        }) + taken_for_caller(from.after(answers.answer(from.at)), answers, (n - 1) as nat)
    }
}

/// The one who asked for a module gets exactly one reference of its own, to the module that it
/// is handed, whether the interpreter kept it or it was just made; and none where the making
/// failed.
pub proof fn the_caller_gets_a_reference_of_its_own(answers: ModuleAnswers)
    ensures
        ({
            let end = module_step_after(ModuleStep::start(), answers, 9);
            let taken = taken_for_caller(ModuleStep::start(), answers, 9);
            &&& end.at is Done || end.at is Failed
            &&& end.at is Done ==> taken == seq![end.cached] && end.cached != 0
            &&& end.at is Failed ==> taken == Seq::<usize>::empty()
        }),
{
    reveal_with_fuel(module_step_after, 10);
    reveal_with_fuel(taken_for_caller, 10);
    let end = module_step_after(ModuleStep::start(), answers, 9);
    let taken = taken_for_caller(ModuleStep::start(), answers, 9);
    if end.at is Done {
        assert(taken =~= seq![end.cached]);
    } else {
        assert(taken =~= Seq::<usize>::empty());
    }
}

/// The references that are held.
pub open spec fn module_owned(step: ModuleStep) -> Multiset<usize> {
    held(step.spec_object).add(held(step.module))
}

/// The reference that the next call returns.
pub open spec fn module_acquired(step: ModuleStep, answer: usize) -> Multiset<usize> {
    match step.at {
        ModuleCall::MakeSpec | ModuleCall::Create => held(answer),
        _ => Multiset::empty(),
    }
}

/// The reference that the next call gives up: to the interpreter's registry, or for good.
pub open spec fn module_released(step: ModuleStep, answer: usize) -> Multiset<usize> {
    match step.at {
        ModuleCall::Store => if answer == step.module || answer == 0 {
            held(step.module)
        } else {
            Multiset::empty()
        },
        ModuleCall::ReleaseModule => held(step.module),
        ModuleCall::ReleaseSpec => held(step.spec_object),
        _ => Multiset::empty(),
    }
}

/// How far it can be: nothing is held before it is made or after it was given up.
pub open spec fn module_in_order(step: ModuleStep) -> bool {
    &&& step.spec_object != 0 ==> !(step.at is ImportNamespace || step.at is MakeSpec || step.at is Done
        || step.at is Failed)
    &&& step.module != 0 ==> step.at is Exec || step.at is Store || step.at is ReleaseModule
}

/// Every reference that is taken to make a module object is given up once.
pub proof fn module_references_balance(step: ModuleStep, answer: usize)
    requires
        module_in_order(step),
    ensures
        module_in_order(ModuleStep::start()),
        module_owned(ModuleStep::start()) == Multiset::<usize>::empty(),
        module_in_order(step.after(answer)),
        module_owned(step.after(answer)).add(module_released(step, answer)) == module_owned(
            step,
        ).add(module_acquired(step, answer)),
        step.at is Done || step.at is Failed ==> module_owned(step) == Multiset::<usize>::empty(),
{
    assert(module_owned(ModuleStep::start()) =~= Multiset::<usize>::empty());
    assert(module_owned(step.after(answer)).add(module_released(step, answer)) =~= module_owned(
        step,
    ).add(module_acquired(step, answer)));
    if step.at is Done || step.at is Failed {
        assert(module_owned(step) =~= Multiset::<usize>::empty());
    }
}

} // verus!
