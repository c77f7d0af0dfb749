//! What an extension was built against.

use vstd::prelude::*;

verus! {

/// What becomes of a reference dropped on a thread that is not attached.
#[derive(Clone, Copy, Debug, PartialEq, Eq, Structural)]
pub enum PoolMode {
    /// Its decref is queued for the interpreter that owns it.
    Enabled,
    /// There is no queue: the drop is an error.
    Disabled,
    /// There is no queue: the reference is leaked.
    LeakOnDrop,
}

/// The build an extension was compiled as. Every decision that depends on it takes it as an
/// argument.
#[derive(Clone, Copy, Debug, PartialEq, Eq, Structural)]
pub struct BuildConfig {
    /// The lowest Python 3 minor version that the build runs on (`12` for Python 3.12).
    pub py_minor: u32,
    /// Built against the limited API (abi3).
    pub limited_api: bool,
    /// Built for a free-threaded Python.
    pub gil_disabled: bool,
    /// Built for Windows.
    pub windows: bool,
    /// Built for PyPy or GraalPy instead of CPython.
    pub alternative_impl: bool,
    /// The reference pool of the build.
    pub pool: PoolMode,
}

impl BuildConfig {
    /// A free-threaded limited-API build needs the slot system of Python 3.15: before that a
    /// module is made from a `PyModuleDef`, whose layout such a build does not know.
    pub open spec fn valid(self) -> bool {
        self.limited_api && self.gil_disabled ==> self.py_minor >= 15
    }

    /// A limited-API build whose lowest version precedes Python 3.12 cannot know at compile
    /// time whether the interpreter that loads it has `Py_mod_multiple_interpreters`.
    pub open spec fn resolves_slot_at_run_time(self) -> bool {
        self.limited_api && self.py_minor < 12
    }

    /// The build can fill in a `PyModuleDef`.
    pub open spec fn has_module_def(self) -> bool {
        !(self.limited_api && self.gil_disabled)
    }

    /// Whether this is the build of [`Self::resolves_slot_at_run_time`].
    pub fn slot_is_resolved_at_run_time(&self) -> (r: bool)
        ensures
            r == self.resolves_slot_at_run_time(),
    {
        self.limited_api && self.py_minor < 12
    }

    /// The most slots that a module of this build can have: the exec slot, the
    /// multiple-interpreters slot (also where it is resolved at run time), the GIL slot from
    /// Python 3.13 on, and name, doc and ABI information from Python 3.15 on.
    pub open spec fn max_slots(self) -> nat {
        (1 + (if self.py_minor >= 12 || self.limited_api { 1int } else { 0 })
            + (if self.py_minor >= 13 { 1int } else { 0 })
            + (if self.py_minor >= 15 { 3int } else { 0 })) as nat
    }

    /// [`Self::max_slots`] as a number.
    pub fn max_slot_count(&self) -> (r: usize)
        ensures
            r == self.max_slots(),
    {
        let mut n: usize = 1;
        if self.py_minor >= 12 || self.slot_is_resolved_at_run_time() {
            n = n + 1;
        }
        if self.py_minor >= 13 {
            n = n + 1;
        }
        if self.py_minor >= 15 {
            n = n + 3;
        }
        n
    }
}

} // verus!
