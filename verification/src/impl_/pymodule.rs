//! Module slots and module definitions.

use crate::config::BuildConfig;
use crate::impl_::version::{has_multiple_interpreters, supports_multiple_interpreters};
use crate::sync::per_interpreter::{
    with_value, PerInterpreterCell, Registries, RegistryCache, Stored,
};
use core::marker::PhantomData;
use vstd::prelude::*;

verus! {

/// The kind of a module slot.
#[derive(Clone, Copy, Debug, PartialEq, Eq, Structural)]
pub enum SlotId {
    /// Slot number zero: ends the array.
    End,
    /// Stands for `Py_mod_multiple_interpreters` until the running version is known. CPython
    /// has no such slot, so it must be gone before CPython reads the array.
    MultipleInterpretersPlaceholder,
    /// `Py_mod_exec`.
    Exec,
    /// `Py_mod_multiple_interpreters`.
    MultipleInterpreters,
    /// `Py_mod_gil`.
    Gil,
    /// `Py_mod_name`.
    Name,
    /// `Py_mod_doc`.
    Doc,
    /// `Py_mod_abi`.
    Abi,
    /// `Py_slot_subslots`.
    Subslots,
}

/// How a slot carries its value.
#[derive(Clone, Copy, Debug, PartialEq, Eq, Structural)]
pub enum SlotForm {
    /// A `PyModuleDef_Slot`: a number and a pointer.
    Plain,
    /// A `PySlot` made by `PySlot_FUNC`.
    Func,
    /// A `PySlot` made by `PySlot_DATA`.
    Data,
    /// A `PySlot` made by `PySlot_STATIC_DATA`.
    StaticData,
}

/// The value of a slot.
#[derive(Clone, Copy, Debug, PartialEq, Eq, Structural)]
pub enum SlotValue {
    /// The null pointer.
    Null,
    /// An address that the extension gave.
    Address(usize),
    /// `Py_MOD_PER_INTERPRETER_GIL_SUPPORTED`.
    PerInterpreterGilSupported,
    /// `Py_MOD_GIL_USED`.
    GilUsed,
    /// `Py_MOD_GIL_NOT_USED`.
    GilNotUsed,
    /// The address of the extension's ABI information.
    AbiInfo,
    /// The address of the extension's primary slot array.
    PrimarySlots,
}

/// One entry of a slot array.
#[derive(Clone, Copy, Debug, PartialEq, Eq, Structural)]
pub struct ModuleSlot {
    pub id: SlotId,
    pub form: SlotForm,
    pub value: SlotValue,
}

/// The zeroed entry that ends an array.
pub open spec fn end_slot() -> ModuleSlot {
    ModuleSlot { id: SlotId::End, form: SlotForm::Plain, value: SlotValue::Null }
}

/// The entry that [`end_slot`] describes.
pub fn zeroed_slot() -> (r: ModuleSlot)
    ensures
        r == end_slot(),
{
    ModuleSlot { id: SlotId::End, form: SlotForm::Plain, value: SlotValue::Null }
}

/// The array has an end.
pub open spec fn terminated(a: Seq<ModuleSlot>) -> bool {
    exists|i: int| 0 <= i < a.len() && (#[trigger] a[i]).id is End
}

/// `n` is where the array ends: what CPython reads of it is `a[0..n]`.
pub open spec fn ends_at(a: Seq<ModuleSlot>, n: int) -> bool {
    &&& 0 <= n < a.len()
    &&& a[n].id is End
    &&& forall|i: int| 0 <= i < n ==> !((#[trigger] a[i]).id is End)
}

/// `p` is the first placeholder that CPython would read.
pub open spec fn first_placeholder(a: Seq<ModuleSlot>, p: int) -> bool {
    &&& 0 <= p < a.len()
    &&& a[p].id is MultipleInterpretersPlaceholder
    &&& forall|i: int|
        0 <= i < p ==> !((#[trigger] a[i]).id is End)
            && !(a[i].id is MultipleInterpretersPlaceholder)
}

/// The slot that declares own-GIL support.
pub open spec fn own_gil_slot(form: SlotForm) -> ModuleSlot {
    ModuleSlot {
        id: SlotId::MultipleInterpreters,
        form,
        value: SlotValue::PerInterpreterGilSupported,
    }
}

/// The array after its placeholder was resolved: replaced by the real slot where the running
/// version has it, and taken out, with what followed it moved up, where it has not.
pub open spec fn resolved(a: Seq<ModuleSlot>, p: int, n: int, supported: bool) -> Seq<ModuleSlot> {
    if supported {
        a.update(p, own_gil_slot(a[p].form))
    } else {
        a.subrange(0, p) + a.subrange(p + 1, n + 1) + a.subrange(n, a.len() as int)
    }
}

/// There is a placeholder that CPython would read.
pub open spec fn has_placeholder(a: Seq<ModuleSlot>) -> bool {
    exists|p: int| first_placeholder(a, p)
}

/// The array after the running version decided about its placeholder, if it has one.
pub open spec fn after_patch(a: Seq<ModuleSlot>, supported: bool) -> Seq<ModuleSlot> {
    if has_placeholder(a) {
        resolved(
            a,
            choose|p: int| first_placeholder(a, p),
            choose|n: int| ends_at(a, n),
            supported,
        )
    } else {
        a
    }
}

/// Where a terminated array ends is one place.
pub(crate) proof fn lemma_ends(a: Seq<ModuleSlot>, from: int) -> (n: int)
    requires
        0 <= from < a.len(),
        forall|i: int| 0 <= i < from ==> !((#[trigger] a[i]).id is End),
        terminated(a),
    ensures
        ends_at(a, n),
        from <= n,
        forall|m: int| #[trigger] ends_at(a, m) ==> m == n,
    decreases a.len() - from,
{
    if a[from].id is End {
        from
    } else {
        assert(from + 1 < a.len()) by {
            let w = choose|i: int| 0 <= i < a.len() && (#[trigger] a[i]).id is End;
            assert(w > from);
        }
        lemma_ends(a, from + 1)
    }
}

/// Takes out the entry at `at` and moves the rest, up to the end, one place forward.
fn shift_up(slots: &mut Vec<ModuleSlot>, at: usize)
    requires
        terminated(old(slots)@),
        at < old(slots)@.len(),
        forall|i: int| 0 <= i <= at ==> !((#[trigger] old(slots)@[i]).id is End),
    ensures
        forall|n: int| #[trigger]
            ends_at(old(slots)@, n) ==> final(slots)@ == old(slots)@.subrange(0, at as int)
                + old(slots)@.subrange(at + 1, n + 1) + old(slots)@.subrange(
                n,
                old(slots)@.len() as int,
            ),
{
    let ghost a = slots@;
    let ghost n = lemma_ends(a, 0);
    let last: usize = slots.len() - 1;
    let mut j: usize = at;
    while j < last
        invariant
            at <= j < n,
            n <= last,
            last == a.len() - 1,
            a == old(slots)@,
            ends_at(a, n),
            slots@.len() == a.len(),
            slots@ == a.subrange(0, at as int) + a.subrange(at + 1, j + 1) + a.subrange(
                j as int,
                a.len() as int,
            ),
        decreases n - j,
    {
        let next = slots[j + 1];
        assert(next == a[j + 1]);
        slots[j] = next;
        assert(slots@ =~= a.subrange(0, at as int) + a.subrange(at + 1, j + 2) + a.subrange(
            j + 1,
            a.len() as int,
        ));
        match next.id {
            SlotId::End => {
                assert(j + 1 == n);
                assert forall|m: int| #[trigger] ends_at(a, m) implies m == n by {}
                return ;
            },
            _ => {},
        }
        j = j + 1;
    }
}

/// Resolves the placeholder of a slot array in place.
fn resolve_placeholder(slots: &mut Vec<ModuleSlot>, supported: bool)
    requires
        terminated(old(slots)@),
    ensures
        final(slots)@ == after_patch(old(slots)@, supported),
{
    let ghost a = slots@;
    let ghost n = lemma_ends(a, 0);
    let mut i: usize = 0;
    while i < slots.len()
        invariant
            slots@ == a,
            a == old(slots)@,
            terminated(a),
            ends_at(a, n),
            forall|m: int| #[trigger] ends_at(a, m) ==> m == n,
            i <= a.len(),
            forall|k: int|
                0 <= k < i ==> !((#[trigger] a[k]).id is End)
                    && !(a[k].id is MultipleInterpretersPlaceholder),
        decreases a.len() - i,
    {
        let slot = slots[i];
        match slot.id {
            SlotId::End => {
                assert forall|p: int| !first_placeholder(a, p) by {}
                return ;
            },
            SlotId::MultipleInterpretersPlaceholder => {
                if supported {
                    slots[i] = ModuleSlot {
                        id: SlotId::MultipleInterpreters,
                        form: slot.form,
                        value: SlotValue::PerInterpreterGilSupported,
                    };
                } else {
                    shift_up(slots, i);
                }
                proof {
                    assert(first_placeholder(a, i as int));
                    assert forall|p: int| #[trigger] first_placeholder(a, p) implies p == i by {}
                }
                return ;
            },
            _ => {},
        }
        i = i + 1;
    }
}

/// The slots that a `PySlot` array holds, from Python 3.15 on.
pub struct PyModuleSlots {
    slots: Vec<ModuleSlot>,
}

impl View for PyModuleSlots {
    type V = Seq<ModuleSlot>;

    closed spec fn view(&self) -> Seq<ModuleSlot> {
        self.slots@
    }
}

/// The slots that a `PyModuleDef` points to.
pub struct PyModuleDefSlots {
    slots: Vec<ModuleSlot>,
}

impl View for PyModuleDefSlots {
    type V = Seq<ModuleSlot>;

    closed spec fn view(&self) -> Seq<ModuleSlot> {
        self.slots@
    }
}

/// The slots that describe a module.
pub enum PrimaryModuleSlots {
    /// From Python 3.15 on.
    Slots(PyModuleSlots),
    /// On Python 3.14 and older.
    DefSlots(PyModuleDefSlots),
}

impl View for PrimaryModuleSlots {
    type V = Seq<ModuleSlot>;

    open spec fn view(&self) -> Seq<ModuleSlot> {
        match self {
            PrimaryModuleSlots::Slots(slots) => slots@,
            PrimaryModuleSlots::DefSlots(slots) => slots@,
        }
    }
}

impl PrimaryModuleSlots {
    /// The array is of the sort that the build uses, and it ends.
    pub open spec fn fits(&self, config: BuildConfig) -> bool {
        &&& self is Slots <==> config.py_minor >= 15
        &&& terminated(self@)
    }
}

/// The slots of a `PyModuleDef` that only point at the primary slots.
pub enum SecondaryModuleSlots {
    /// From Python 3.15 on, in a build that can fill in a `PyModuleDef`.
    DefSlots(PyModuleDefSlots),
    /// There are none.
    Absent,
}

impl SecondaryModuleSlots {
    /// The array is there where the build uses it.
    pub open spec fn fits(&self, config: BuildConfig) -> bool {
        &&& self is DefSlots <==> config.py_minor >= 15 && config.has_module_def()
        &&& self matches SecondaryModuleSlots::DefSlots(slots) ==> slots@ == points_at_primary()
    }
}

/// The array that points at the primary slots.
pub open spec fn points_at_primary() -> Seq<ModuleSlot> {
    seq![
        ModuleSlot {
            id: SlotId::Subslots,
            form: SlotForm::Plain,
            value: SlotValue::PrimarySlots,
        },
        end_slot(),
    ]
}

/// The secondary slots that go with primary ones.
pub fn secondary_slots(config: &BuildConfig, slots: &PrimaryModuleSlots) -> (r: SecondaryModuleSlots)
    ensures
        r.fits(*config),
{
    let _ = slots;
    if config.py_minor >= 15 && !(config.limited_api && config.gil_disabled) {
        let mut array: Vec<ModuleSlot> = Vec::new();
        array.push(
            ModuleSlot {
                id: SlotId::Subslots,
                form: SlotForm::Plain,
                value: SlotValue::PrimarySlots,
            },
        );
        array.push(zeroed_slot());
        assert(array@ =~= points_at_primary());
        SecondaryModuleSlots::DefSlots(PyModuleDefSlots { slots: array })
    } else {
        SecondaryModuleSlots::Absent
    }
}

/// Builder to create module slots. What a build has no slot for, it leaves out.
pub struct PyModuleSlotsBuilder {
    config: BuildConfig,
    // values (initially all zeroed)
    slots: Vec<ModuleSlot>,
    // current length
    len: usize,
}

impl View for PyModuleSlotsBuilder {
    type V = Seq<ModuleSlot>;

    /// The slots pushed so far.
    closed spec fn view(&self) -> Seq<ModuleSlot> {
        self.slots@.take(self.len as int)
    }
}

/// The slot that runs the function at this address.
pub open spec fn exec_slot(config: BuildConfig, function: usize) -> ModuleSlot {
    ModuleSlot {
        id: SlotId::Exec,
        form: if config.py_minor >= 15 {
            SlotForm::Func
        } else {
            SlotForm::Plain
        },
        value: SlotValue::Address(function),
    }
}

/// The form of a slot that carries a constant.
pub open spec fn data_form(config: BuildConfig) -> SlotForm {
    if config.py_minor >= 15 {
        SlotForm::Data
    } else {
        SlotForm::Plain
    }
}

/// What declares that the module may be loaded into sub-interpreters that own their GIL.
pub open spec fn own_gil_slots(config: BuildConfig) -> Seq<ModuleSlot> {
    if config.py_minor >= 12 {
        seq![own_gil_slot(data_form(config))]
    } else if config.limited_api {
        seq![
            ModuleSlot {
                id: SlotId::MultipleInterpretersPlaceholder,
                form: SlotForm::Plain,
                value: SlotValue::Null,
            },
        ]
    } else {
        Seq::empty()
    }
}

/// What declares whether the module uses the GIL.
pub open spec fn gil_slots(config: BuildConfig, gil_used: bool) -> Seq<ModuleSlot> {
    if config.py_minor >= 13 {
        seq![
            ModuleSlot {
                id: SlotId::Gil,
                form: data_form(config),
                value: if gil_used {
                    SlotValue::GilUsed
                } else {
                    SlotValue::GilNotUsed
                },
            },
        ]
    } else {
        Seq::empty()
    }
}

/// A slot with static data, where the build has such slots.
pub open spec fn static_slots(config: BuildConfig, id: SlotId, value: SlotValue) -> Seq<ModuleSlot> {
    if config.py_minor >= 15 {
        seq![ModuleSlot { id, form: SlotForm::StaticData, value }]
    } else {
        Seq::empty()
    }
}

/// What declares the name of a module.
pub open spec fn name_slots(config: BuildConfig, name: usize) -> Seq<ModuleSlot> {
    static_slots(config, SlotId::Name, SlotValue::Address(name))
}

/// What declares the documentation of a module.
pub open spec fn doc_slots(config: BuildConfig, doc: usize) -> Seq<ModuleSlot> {
    static_slots(config, SlotId::Doc, SlotValue::Address(doc))
}

/// What declares the ABI information of an extension.
pub open spec fn abi_slots(config: BuildConfig) -> Seq<ModuleSlot> {
    static_slots(config, SlotId::Abi, SlotValue::AbiInfo)
}

impl PyModuleSlotsBuilder {
    /// The build that the slots are for.
    pub closed spec fn config(&self) -> BuildConfig {
        self.config
    }

    /// The array has room for every slot of the build and a zeroed element behind them, all that
    /// is not pushed yet is zeroed, and no slot that was pushed ends the array.
    pub closed spec fn wf(&self) -> bool {
        &&& self.slots@.len() == self.config.max_slots() + 1
        &&& self.len <= self.config.max_slots()
        &&& forall|i: int| self.len <= i < self.slots@.len() ==> self.slots@[i] == end_slot()
        &&& forall|i: int| 0 <= i < self.len ==> !((#[trigger] self.slots@[i]).id is End)
    }

    /// There is room for these slots.
    pub open spec fn takes(&self, more: Seq<ModuleSlot>) -> bool {
        self@.len() + more.len() <= self.config().max_slots()
    }

    /// A builder with no slots.
    pub fn new(config: BuildConfig) -> (r: Self)
        ensures
            r.wf(),
            r.config() == config,
            r@ == Seq::<ModuleSlot>::empty(),
    {
        let size: usize = config.max_slot_count() + 1;
        let mut slots: Vec<ModuleSlot> = Vec::new();
        let mut i: usize = 0;
        while i < size
            invariant
                i <= size,
                slots@.len() == i,
                forall|k: int| 0 <= k < i ==> slots@[k] == end_slot(),
            decreases size - i,
        {
            slots.push(zeroed_slot());
            i = i + 1;
        }
        let r = PyModuleSlotsBuilder { config, slots, len: 0 };
        assert(r@ =~= Seq::<ModuleSlot>::empty());
        r
    }

    /// Whether every slot of the build is taken. A builder that is full takes no other.
    pub fn is_full(&self) -> (r: bool)
        requires
            self.wf(),
        ensures
            r == (self@.len() == self.config().max_slots()),
    {
        self.len == self.config.max_slot_count()
    }

    /// The slot that runs the function at this address when the module is executed.
    pub fn with_mod_exec(self, function: usize) -> (r: Self)
        requires
            self.wf(),
            self.takes(seq![exec_slot(self.config(), function)]),
        ensures
            r.wf(),
            r.config() == self.config(),
            r@ == self@.push(exec_slot(self.config(), function)),
    {
        let form = if self.config.py_minor >= 15 {
            SlotForm::Func
        } else {
            SlotForm::Plain
        };
        self.push(ModuleSlot { id: SlotId::Exec, form, value: SlotValue::Address(function) })
    }

    /// Declares that this module may be loaded into sub-interpreters that own their GIL. Where
    /// only the running version can tell whether CPython knows that slot, a placeholder takes
    /// its place until then.
    pub fn with_per_interpreter_gil(self) -> (r: Self)
        requires
            self.wf(),
            self.takes(own_gil_slots(self.config())),
        ensures
            r.wf(),
            r.config() == self.config(),
            r@ == self@ + own_gil_slots(self.config()),
    {
        let ghost pushed = self@;
        if self.config.py_minor >= 12 {
            let form = self.constant_form();
            let r = self.push(
                ModuleSlot {
                    id: SlotId::MultipleInterpreters,
                    form,
                    value: SlotValue::PerInterpreterGilSupported,
                },
            );
            assert(r@ =~= pushed + own_gil_slots(r.config()));
            r
        } else if self.config.limited_api {
            let r = self.push(
                ModuleSlot {
                    id: SlotId::MultipleInterpretersPlaceholder,
                    form: SlotForm::Plain,
                    value: SlotValue::Null,
                },
            );
            assert(r@ =~= pushed + own_gil_slots(r.config()));
            r
        } else {
            assert(pushed =~= pushed + own_gil_slots(self.config()));
            self
        }
    }

    /// Declares whether this module uses the GIL.
    pub fn with_gil_used(self, gil_used: bool) -> (r: Self)
        requires
            self.wf(),
            self.takes(gil_slots(self.config(), gil_used)),
        ensures
            r.wf(),
            r.config() == self.config(),
            r@ == self@ + gil_slots(self.config(), gil_used),
    {
        let ghost pushed = self@;
        if self.config.py_minor >= 13 {
            let form = self.constant_form();
            let value = if gil_used {
                SlotValue::GilUsed
            } else {
                SlotValue::GilNotUsed
            };
            let r = self.push(ModuleSlot { id: SlotId::Gil, form, value });
            assert(r@ =~= pushed + gil_slots(r.config(), gil_used));
            r
        } else {
            assert(pushed =~= pushed + gil_slots(self.config(), gil_used));
            self
        }
    }

    /// The name of the module: the address of its text.
    pub fn with_name(self, name: usize) -> (r: Self)
        requires
            self.wf(),
            self.takes(static_slots(self.config(), SlotId::Name, SlotValue::Address(name))),
        ensures
            r.wf(),
            r.config() == self.config(),
            r@ == self@ + static_slots(self.config(), SlotId::Name, SlotValue::Address(name)),
            r@ == self@ + name_slots(self.config(), name),
    {
        self.with_static(SlotId::Name, SlotValue::Address(name))
    }

    /// The ABI information of the extension.
    pub fn with_abi_info(self) -> (r: Self)
        requires
            self.wf(),
            self.takes(static_slots(self.config(), SlotId::Abi, SlotValue::AbiInfo)),
        ensures
            r.wf(),
            r.config() == self.config(),
            r@ == self@ + static_slots(self.config(), SlotId::Abi, SlotValue::AbiInfo),
            r@ == self@ + abi_slots(self.config()),
    {
        self.with_static(SlotId::Abi, SlotValue::AbiInfo)
    }

    /// The documentation of the module: the address of its text.
    pub fn with_doc(self, doc: usize) -> (r: Self)
        requires
            self.wf(),
            self.takes(static_slots(self.config(), SlotId::Doc, SlotValue::Address(doc))),
        ensures
            r.wf(),
            r.config() == self.config(),
            r@ == self@ + static_slots(self.config(), SlotId::Doc, SlotValue::Address(doc)),
            r@ == self@ + doc_slots(self.config(), doc),
    {
        self.with_static(SlotId::Doc, SlotValue::Address(doc))
    }

    /// The slots: those that were pushed, and a zeroed element that ends them.
    pub fn build(self) -> (r: PrimaryModuleSlots)
        requires
            self.wf(),
        ensures
            r.fits(self.config()),
            r@.len() == self.config().max_slots() + 1,
            r@.take(self@.len() as int) == self@,
            ends_at(r@, self@.len() as int),
            forall|i: int| self@.len() <= i < r@.len() ==> r@[i] == end_slot(),
    {
        assert(self@.len() == self.len);
        assert(self.slots@[self.len as int].id is End);
        if self.config.py_minor >= 15 {
            PrimaryModuleSlots::Slots(PyModuleSlots { slots: self.slots })
        } else {
            PrimaryModuleSlots::DefSlots(PyModuleDefSlots { slots: self.slots })
        }
    }

    fn constant_form(&self) -> (r: SlotForm)
        ensures
            r == data_form(self.config()),
    {
        if self.config.py_minor >= 15 {
            SlotForm::Data
        } else {
            SlotForm::Plain
        }
    }

    fn with_static(self, id: SlotId, value: SlotValue) -> (r: Self)
        requires
            self.wf(),
            self.takes(static_slots(self.config(), id, value)),
            !(id is End),
        ensures
            r.wf(),
            r.config() == self.config(),
            r@ == self@ + static_slots(self.config(), id, value),
    {
        let ghost pushed = self@;
        if self.config.py_minor >= 15 {
            let r = self.push(ModuleSlot { id, form: SlotForm::StaticData, value });
            assert(r@ =~= pushed + static_slots(r.config(), id, value));
            r
        } else {
            assert(pushed =~= pushed + static_slots(self.config(), id, value));
            self
        }
    }

    /// Appends a slot. A zeroed element must be left at the end.
    fn push(self, slot: ModuleSlot) -> (r: Self)
        requires
            self.wf(),
            self@.len() < self.config().max_slots(),
            !(slot.id is End),
        ensures
            r.wf(),
            r.config() == self.config(),
            r@ == self@.push(slot),
    {
        let mut slots = self.slots;
        slots[self.len] = slot;
        let r = PyModuleSlotsBuilder { config: self.config, slots, len: self.len + 1 };
        assert(r@ =~= self@.push(slot));
        r
    }
}

/// The fields of a `PyModuleDef` that a module fills in. All others are null.
pub struct ModuleDefFields {
    pub m_name: usize,
    pub m_doc: usize,
    pub m_size: isize,
    pub m_slots: Vec<ModuleSlot>,
}

pub const SECOND_INITIALIZATION: &'static str =
    "PyO3 modules compiled for the stable API on Windows targeting Python 3.9 may only be initialized once per interpreter process";

/// The Windows stable API before Python 3.10 cannot tell interpreters apart: there a module is
/// initialized once in the process, whichever interpreter it is for.
pub open spec fn refuses_second_initialization(config: BuildConfig) -> bool {
    config.windows && config.limited_api && config.py_minor < 10 && !config.alternative_impl
}

/// The definition of a module.
pub struct ModuleDef {
    config: BuildConfig,
    ffi_def: Option<ModuleDefFields>,
    name: usize,
    slots: Option<PyModuleSlots>,
    /// The placeholder was resolved by the version that is running.
    slot_patched: bool,
    /// A module object was initialized, in whichever interpreter.
    initialized: bool,
    /// Initialized module object, per interpreter.
    module: PerInterpreterCell<usize>,
}

impl ModuleDef {
    /// The build that the module is for.
    pub closed spec fn config(&self) -> BuildConfig {
        self.config
    }

    /// The name of the module: the address of its text.
    pub closed spec fn name(&self) -> usize {
        self.name
    }

    /// The `PyModuleDef`, in a build that can fill one in.
    pub closed spec fn def(&self) -> Option<ModuleDefFields> {
        self.ffi_def
    }

    /// The slots that the `PyModuleDef` points to.
    pub open spec fn def_slots(&self) -> Seq<ModuleSlot> {
        self.def()->0.m_slots@
    }

    /// The slots that `PyModule_FromSlotsAndSpec` takes, from Python 3.15 on.
    pub closed spec fn primary_slots(&self) -> Option<Seq<ModuleSlot>> {
        match self.slots {
            Some(slots) => Some(slots@),
            None => None,
        }
    }

    /// The placeholder was resolved.
    pub closed spec fn patched(&self) -> bool {
        self.slot_patched
    }

    /// A module object was initialized, in whichever interpreter.
    pub closed spec fn initialized(&self) -> bool {
        self.initialized
    }

    /// The cell of the initialized module object.
    pub closed spec fn cell(&self) -> PerInterpreterCell<usize> {
        self.module
    }

    /// The parts are those that the build has, and the slots end.
    pub closed spec fn wf(&self) -> bool {
        &&& self.config.valid()
        &&& self.ffi_def is Some <==> self.config.has_module_def()
        &&& self.slots is Some <==> self.config.py_minor >= 15
        &&& self.ffi_def matches Some(def) ==> terminated(def.m_slots@)
    }

    /// What a patch, or a use of the cell, leaves as it is.
    pub open spec fn same_module(&self, other: &ModuleDef) -> bool {
        &&& self.config() == other.config()
        &&& self.name() == other.name()
        &&& self.primary_slots() == other.primary_slots()
        &&& self.def() is Some <==> other.def() is Some
        &&& self.def() matches Some(def) ==> def.m_name == other.def()->0.m_name && def.m_doc
            == other.def()->0.m_doc && def.m_size == other.def()->0.m_size
    }

    /// Make new module definition with given module name.
    pub fn new(
        config: BuildConfig,
        name: usize,
        doc: usize,
        slots: PrimaryModuleSlots,
        secondary_slots: SecondaryModuleSlots,
    ) -> (r: Self)
        requires
            config.valid(),
            slots.fits(config),
            secondary_slots.fits(config),
        ensures
            r.wf(),
            r.config() == config,
            r.name() == name,
            r.def() is Some <==> config.has_module_def(),
            r.def() matches Some(def) ==> {
                &&& def.m_name == name
                &&& def.m_doc == doc
                &&& def.m_size == 0
                &&& def.m_slots@ == if config.py_minor >= 15 {
                    points_at_primary()
                } else {
                    slots@
                }
            },
            r.primary_slots() == if config.py_minor >= 15 {
                Some(slots@)
            } else {
                None
            },
            !r.patched(),
            !r.initialized(),
            r.cell().claimed() is None,
    {
        let module = PerInterpreterCell::new();
        match slots {
            PrimaryModuleSlots::Slots(slots) => {
                let ffi_def = match secondary_slots {
                    SecondaryModuleSlots::DefSlots(secondary) => {
                        assert(secondary@[1].id is End);
                        Some(
                            ModuleDefFields {
                                m_name: name,
                                m_doc: doc,
                                m_size: 0,
                                m_slots: secondary.slots,
                            },
                        )
                    },
                    SecondaryModuleSlots::Absent => None,
                };
                ModuleDef {
                    config,
                    ffi_def,
                    name,
                    slots: Some(slots),
                    slot_patched: false,
                    initialized: false,
                    module,
                }
            },
            PrimaryModuleSlots::DefSlots(slots) => {
                let ffi_def = Some(
                    ModuleDefFields {
                        m_name: name,
                        m_doc: doc,
                        m_size: 0,
                        m_slots: slots.slots,
                    },
                );
                ModuleDef {
                    config,
                    ffi_def,
                    name,
                    slots: None,
                    slot_patched: false,
                    initialized: false,
                    module,
                }
            },
        }
    }

    /// The slots of the `PyModuleDef` once the version that is running has decided about them:
    /// `version` is the text that `Py_GetVersion` gives.
    pub open spec fn patched_slots(&self, version: Seq<u8>) -> Seq<ModuleSlot> {
        if self.config().resolves_slot_at_run_time() && !self.patched() {
            after_patch(self.def_slots(), has_multiple_interpreters(version))
        } else {
            self.def_slots()
        }
    }

    /// Gets the `PyModuleDef` ready for `PyModuleDef_Init`: this is the last moment before
    /// CPython reads its slots.
    pub fn init_multi_phase(&mut self, version: &[u8]) -> (r: &ModuleDefFields)
        requires
            old(self).wf(),
            old(self).config().has_module_def(),
        ensures
            final(self).wf(),
            final(self).same_module(old(self)),
            final(self).cell() == old(self).cell(),
            final(self).initialized() == old(self).initialized(),
            final(self).def() == Some(*r),
            r.m_slots@ == old(self).patched_slots(version@),
            final(self).patched() == (old(self).patched() || old(
                self,
            ).config().resolves_slot_at_run_time()),
    {
        if self.config.slot_is_resolved_at_run_time() {
            self.patch_multiple_interpreters_slot(version);
        }
        self.ffi_def.as_ref().unwrap()
    }

    /// Must run before CPython reads the slots. Only the first call changes them.
    pub fn patch_multiple_interpreters_slot(&mut self, version: &[u8])
        requires
            old(self).wf(),
            old(self).config().resolves_slot_at_run_time(),
        ensures
            final(self).wf(),
            final(self).same_module(old(self)),
            final(self).cell() == old(self).cell(),
            final(self).initialized() == old(self).initialized(),
            final(self).def_slots() == old(self).patched_slots(version@),
            final(self).patched(),
    {
        if self.slot_patched {
            return ;
        }
        let supported = supports_multiple_interpreters(version);
        let ghost before = *self;
        self.slot_patched = true;
        if let Some(mut def) = self.ffi_def.take() {
            resolve_placeholder(&mut def.m_slots, supported);
            proof {
                lemma_patch_keeps_the_end(before.def_slots(), supported);
            }
            self.ffi_def = Some(def);
        }
    }

    /// The slots that `PyModule_FromSlotsAndSpec` takes.
    pub fn get_slots(&self) -> (r: &Vec<ModuleSlot>)
        requires
            self.wf(),
            self.config().py_minor >= 15,
        ensures
            self.primary_slots() == Some(r@),
    {
        &self.slots.as_ref().unwrap().slots
    }
}

/// Resolving the placeholder keeps the end.
proof fn lemma_patch_keeps_the_end(a: Seq<ModuleSlot>, supported: bool)
    requires
        terminated(a),
    ensures
        terminated(after_patch(a, supported)),
{
    let n = lemma_ends(a, 0);
    if has_placeholder(a) {
        let p = choose|p: int| first_placeholder(a, p);
        let b = after_patch(a, supported);
        assert(p < n);
        if supported {
            assert(b[n].id is End);
        } else {
            assert(b[n - 1] == a[n]);
        }
    }
}

/// What the caller does next to make a module object. It hands back what the call returned;
/// zero stands for a null pointer and for the code of a failure.
#[derive(Clone, Copy, Debug, PartialEq, Eq, Structural)]
pub enum ModuleCall {
    /// Look `types.SimpleNamespace` up, which this interpreter caches.
    ImportNamespace,
    /// Call it with the name of the module: the spec that the loader system needs.
    MakeSpec,
    /// [`ModuleDef::cached_module`].
    FindCached,
    /// `PyModule_FromSlotsAndSpec` from Python 3.15 on, `PyModule_FromDefAndSpec` before.
    Create,
    /// `PyModule_Exec` from Python 3.15 on, `PyModule_ExecDef` before.
    Exec,
    /// [`ModuleDef::store_module`]. The answer is the module that is stored, or zero where the
    /// interpreter has no registry.
    Store,
    /// `Py_DECREF` of the module that was made, which is not needed.
    ReleaseModule,
    /// `Py_INCREF` of the module, for the one who asked.
    CloneRef,
    /// `Py_DECREF` of the spec.
    ReleaseSpec,
    /// Nothing: the module is there.
    Done,
    /// Nothing: it failed, and the exception that is set says why.
    Failed,
}

/// How far the making of a module object is.
#[derive(Clone, Copy)]
pub struct ModuleStep {
    /// `types.SimpleNamespace`.
    pub namespace: usize,
    /// The spec, while it is held.
    pub spec_object: usize,
    /// The module that was made, while it is held.
    pub module: usize,
    /// The module that this interpreter keeps.
    pub cached: usize,
    /// A call failed.
    pub failed: bool,
    pub at: ModuleCall,
}

impl ModuleStep {
    /// The beginning.
    pub open spec fn start() -> ModuleStep {
        ModuleStep {
            namespace: 0,
            spec_object: 0,
            module: 0,
            cached: 0,
            failed: false,
            at: ModuleCall::ImportNamespace,
        }
    }

    /// How far it is after the call, which returned `answer`.
    pub open spec fn after(self, answer: usize) -> ModuleStep {
        match self.at {
            ModuleCall::ImportNamespace => if answer == 0 {
                ModuleStep { at: ModuleCall::Failed, ..self }
            } else {
                ModuleStep { namespace: answer, at: ModuleCall::MakeSpec, ..self }
            },
            ModuleCall::MakeSpec => if answer == 0 {
                ModuleStep { at: ModuleCall::Failed, ..self }
            } else {
                ModuleStep { spec_object: answer, at: ModuleCall::FindCached, ..self }
            },
            ModuleCall::FindCached => if answer == 0 {
                ModuleStep { at: ModuleCall::Create, ..self }
            } else {
                ModuleStep { cached: answer, at: ModuleCall::CloneRef, ..self }
            },
            ModuleCall::Create => if answer == 0 {
                ModuleStep { failed: true, at: ModuleCall::ReleaseSpec, ..self }
            } else {
                ModuleStep { module: answer, at: ModuleCall::Exec, ..self }
            },
            ModuleCall::Exec => if answer == 0 {
                ModuleStep { failed: true, at: ModuleCall::ReleaseModule, ..self }
            } else {
                ModuleStep { at: ModuleCall::Store, ..self }
            },
            ModuleCall::Store => if answer == self.module || answer == 0 {
                // The registry keeps the reference; without one it is leaked.
                ModuleStep { cached: self.module, module: 0, at: ModuleCall::CloneRef, ..self }
            } else {
                ModuleStep { cached: answer, at: ModuleCall::ReleaseModule, ..self }
            },
            ModuleCall::ReleaseModule => ModuleStep {
                module: 0,
                at: if self.failed {
                    ModuleCall::ReleaseSpec
                } else {
                    ModuleCall::CloneRef
                },
                ..self
            },
            ModuleCall::CloneRef => ModuleStep { at: ModuleCall::ReleaseSpec, ..self },
            ModuleCall::ReleaseSpec => ModuleStep {
                spec_object: 0,
                at: if self.failed {
                    ModuleCall::Failed
                } else {
                    ModuleCall::Done
                },
                ..self
            },
            _ => self,
        }
    }

    /// Goes on after the call, which returned `answer`.
    pub fn next(self, answer: usize) -> (r: ModuleStep)
        ensures
            r == self.after(answer),
    {
        match self.at {
            ModuleCall::ImportNamespace => if answer == 0 {
                ModuleStep { at: ModuleCall::Failed, ..self }
            } else {
                ModuleStep { namespace: answer, at: ModuleCall::MakeSpec, ..self }
            },
            ModuleCall::MakeSpec => if answer == 0 {
                ModuleStep { at: ModuleCall::Failed, ..self }
            } else {
                ModuleStep { spec_object: answer, at: ModuleCall::FindCached, ..self }
            },
            ModuleCall::FindCached => if answer == 0 {
                ModuleStep { at: ModuleCall::Create, ..self }
            } else {
                ModuleStep { cached: answer, at: ModuleCall::CloneRef, ..self }
            },
            ModuleCall::Create => if answer == 0 {
                ModuleStep { failed: true, at: ModuleCall::ReleaseSpec, ..self }
            } else {
                ModuleStep { module: answer, at: ModuleCall::Exec, ..self }
            },
            ModuleCall::Exec => if answer == 0 {
                ModuleStep { failed: true, at: ModuleCall::ReleaseModule, ..self }
            } else {
                ModuleStep { at: ModuleCall::Store, ..self }
            },
            ModuleCall::Store => if answer == self.module || answer == 0 {
                // The registry keeps the reference; without one it is leaked.
                ModuleStep { cached: self.module, module: 0, at: ModuleCall::CloneRef, ..self }
            } else {
                ModuleStep { cached: answer, at: ModuleCall::ReleaseModule, ..self }
            },
            ModuleCall::ReleaseModule => ModuleStep {
                module: 0,
                at: if self.failed {
                    ModuleCall::ReleaseSpec
                } else {
                    ModuleCall::CloneRef
                },
                ..self
            },
            ModuleCall::CloneRef => ModuleStep { at: ModuleCall::ReleaseSpec, ..self },
            ModuleCall::ReleaseSpec => ModuleStep {
                spec_object: 0,
                at: if self.failed {
                    ModuleCall::Failed
                } else {
                    ModuleCall::Done
                },
                ..self
            },
            _ => self,
        }
    }
}

impl ModuleDef {
    /// Begins to build a module object directly, as for a submodule. A submodule does not go
    /// through [`Self::init_multi_phase`], so the placeholder is resolved here too.
    pub fn make_module(&mut self, version: &[u8]) -> (r: Result<ModuleStep, &'static str>)
        requires
            old(self).wf(),
        ensures
            if refuses_second_initialization(old(self).config()) && old(self).initialized() {
                r matches Err(message) && message@ == SECOND_INITIALIZATION@
            } else {
                r == Ok::<ModuleStep, &'static str>(ModuleStep::start())
            },
            r is Err <==> old(self).config().windows && old(self).config().limited_api && old(
                self,
            ).config().py_minor <= 9 && !old(self).config().alternative_impl && old(
                self,
            ).initialized(),
            final(self).wf(),
            final(self).same_module(old(self)),
            old(self).def() is Some ==> final(self).def_slots() == old(self).patched_slots(
                version@,
            ),
            final(self).patched() == (old(self).patched() || old(
                self,
            ).config().resolves_slot_at_run_time()),
            final(self).cell() == old(self).cell(),
            final(self).initialized() == old(self).initialized(),
    {
        if self.config.slot_is_resolved_at_run_time() {
            self.patch_multiple_interpreters_slot(version);
        }
        if self.config.windows && self.config.limited_api && self.config.py_minor < 10
            && !self.config.alternative_impl && self.initialized {
            return Err(SECOND_INITIALIZATION);
        }
        Ok(
            ModuleStep {
                namespace: 0,
                spec_object: 0,
                module: 0,
                cached: 0,
                failed: false,
                at: ModuleCall::ImportNamespace,
            },
        )
    }

    /// The module object that this interpreter keeps, or null if it has none yet.
    pub fn cached_module(
        &mut self,
        registries: &mut Registries<usize>,
        cache: &mut RegistryCache,
        interp: usize,
    ) -> (r: usize)
        requires
            old(self).wf(),
            old(registries).wf(),
            old(self).cell().usable(old(registries)),
            old(cache).sound(*old(registries)),
            interp != 0,
        ensures
            r == match old(registries).value(
                interp,
                old(self).cell().index_in(old(registries)),
            ) {
                Some(module) => module,
                None => 0,
            },
            final(self).wf(),
            final(self).same_module(old(self)),
            final(self).def() == old(self).def(),
            final(self).patched() == old(self).patched(),
            final(self).initialized() == old(self).initialized(),
            final(self).cell().claimed() == Some(old(self).cell().index_in(old(registries))),
            final(registries).wf(),
            final(registries)@ == old(registries)@,
            final(registries).next_index() == old(self).cell().counter_after(old(registries)),
            final(cache).sound(*final(registries)),
            old(registries).keeps_caches_sound(*final(registries)),
    {
        match self.module.get(registries, cache, interp) {
            Some(module) => *module,
            None => 0,
        }
    }

    /// Keeps a module object that this interpreter made: the one that it keeps afterwards, which
    /// is another one where another thread was faster, or null where it has no registry.
    pub fn store_module(
        &mut self,
        registries: &mut Registries<usize>,
        interp: usize,
        module: usize,
    ) -> (r: usize)
        requires
            old(self).wf(),
            old(registries).wf(),
            old(self).cell().usable(old(registries)),
        ensures
            ({
                let index = old(self).cell().index_in(old(registries));
                if !old(registries)@.dom().contains(interp) {
                    &&& r == 0
                    &&& final(registries)@ == old(registries)@
                } else {
                    match old(registries).value(interp, index) {
                        Some(existing) => {
                            &&& r == existing
                            &&& final(registries)@ == old(registries)@
                        },
                        None => {
                            &&& r == module
                            &&& final(registries)@ == old(registries)@.insert(
                                interp,
                                with_value(old(registries)@[interp], index as int, module),
                            )
                        },
                    }
                }
            }),
            final(self).wf(),
            final(self).same_module(old(self)),
            final(self).def() == old(self).def(),
            final(self).patched() == old(self).patched(),
            final(self).initialized(),
            r != 0 ==> final(registries).value(
                interp,
                old(self).cell().index_in(old(registries)),
            ) == Some(r),
            forall|other: usize, index: usize|
                other != interp || index != old(self).cell().index_in(old(registries))
                    ==> #[trigger] final(registries).value(other, index) == old(registries).value(
                    other,
                    index,
                ),
            final(self).cell().claimed() == Some(old(self).cell().index_in(old(registries))),
            final(registries).wf(),
            final(registries).next_index() == old(self).cell().counter_after(old(registries)),
            old(registries).keeps_caches_sound(*final(registries)),
    {
        self.initialized = true;
        match self.module.set_and_get(registries, interp, module) {
            Stored::Inserted(stored) => *stored,
            Stored::Existing(existing, _lost) => *existing,
            Stored::Unregistered(_module) => 0,
        }
    }
}

/// What is to be added to a module.
#[derive(Clone, Copy, Debug, PartialEq, Eq, Structural)]
pub enum Addition {
    /// The type object of a native type, under its own name.
    Type,
    /// The type object of a class.
    Class,
    /// A function with this definition, bound to the module.
    Function(usize),
    /// The module object of another definition, made for this interpreter.
    Submodule,
}

/// Trait to add an element (class, function...) to a module.
pub trait PyAddToModule {
    /// What the element is.
    spec fn element(&self) -> Addition;

    /// What the caller adds to the module.
    fn add_to_module(&self) -> (r: Addition)
        ensures
            r == self.element(),
    ;
}

/// For adding native types (non-pyclass) to a module.
pub struct AddTypeToModule<T> {
    marker: PhantomData<T>,
}

impl<T> AddTypeToModule<T> {
    /// The addition of the type.
    pub fn new() -> (r: Self)
        ensures
            r.element() == Addition::Type,
    {
        AddTypeToModule { marker: PhantomData }
    }
}

impl<T> PyAddToModule for AddTypeToModule<T> {
    open spec fn element(&self) -> Addition {
        Addition::Type
    }

    fn add_to_module(&self) -> (r: Addition) {
        Addition::Type
    }
}

/// For adding a class to a module.
pub struct AddClassToModule<T> {
    marker: PhantomData<T>,
}

impl<T> AddClassToModule<T> {
    /// The addition of the class.
    pub fn new() -> (r: Self)
        ensures
            r.element() == Addition::Class,
    {
        AddClassToModule { marker: PhantomData }
    }
}

impl<T> PyAddToModule for AddClassToModule<T> {
    open spec fn element(&self) -> Addition {
        Addition::Class
    }

    fn add_to_module(&self) -> (r: Addition) {
        Addition::Class
    }
}

/// The definition of a function: the address of its `PyMethodDef`.
#[derive(Clone, Copy, Debug, PartialEq, Eq, Structural)]
pub struct PyFunctionDef {
    pub method: usize,
}

/// For adding a function to a module.
impl PyAddToModule for PyFunctionDef {
    open spec fn element(&self) -> Addition {
        Addition::Function(self.method)
    }

    fn add_to_module(&self) -> (r: Addition) {
        Addition::Function(self.method)
    }
}

/// For adding a module to a module.
impl PyAddToModule for ModuleDef {
    open spec fn element(&self) -> Addition {
        Addition::Submodule
    }

    fn add_to_module(&self) -> (r: Addition) {
        Addition::Submodule
    }
}

} // verus!
