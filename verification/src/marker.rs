//! The interpreter that a thread is attached to.

use vstd::prelude::*;

verus! {

/// A live interpreter, as CPython describes it: where its state lies, and its id.
#[derive(Clone, Copy, Debug, PartialEq, Eq, Structural)]
pub struct Interpreter {
    /// The address of its `PyInterpreterState`.
    pub addr: usize,
    /// Its id, which is zero for the main interpreter and for no other.
    pub id: i64,
}

impl Interpreter {
    /// An interpreter state has an aligned, non-null address.
    pub open spec fn valid(self) -> bool {
        self.addr > 1
    }
}

/// A token of the calling thread: it is attached, and to this interpreter.
#[derive(Clone, Copy, Debug, PartialEq, Eq, Structural)]
pub struct Python {
    /// The current interpreter.
    pub interp: Interpreter,
}

} // verus!
