//! What holds of per-interpreter values as a whole.

use crate::sync::per_interpreter::{
    occupied, with_value, PerInterpreterCell, Registries, UNCLAIMED,
};
use vstd::prelude::*;

verus! {

/// A value written by one interpreter is invisible to every other: whatever becomes of an
/// interpreter's registry, every cell reads as before everywhere else.
pub proof fn a_value_stays_in_its_interpreter<T>(
    before: Registries<T>,
    after: Registries<T>,
    interp: usize,
    slots: Seq<Option<T>>,
    other: usize,
    index: usize,
)
    requires
        after@ == before@.insert(interp, slots) || after@ == before@.remove(interp),
        other != interp,
    ensures
        after.value(other, index) == before.value(other, index),
{
}

/// What was stored for a cell is what the cell reads afterwards, and no other cell of the
/// interpreter reads differently.
pub proof fn a_value_stays_in_its_cell<T>(
    before: Registries<T>,
    after: Registries<T>,
    interp: usize,
    index: usize,
    value: T,
    other: usize,
)
    requires
        after@ == before@.insert(
            interp,
            with_value(before.slots_of(interp), index as int, value),
        ),
    ensures
        after.value(interp, index) == Some(value),
        other != index ==> after.value(interp, other) == before.value(interp, other),
{
}

/// A cell that was just made reads as empty in every interpreter, whatever other cells hold.
pub proof fn a_new_cell_is_empty<T>(
    cell: PerInterpreterCell<T>,
    registries: Registries<T>,
    interp: usize,
)
    requires
        registries.wf(),
        cell.claimed() is None,
    ensures
        registries.value(interp, cell.index_in(&registries)) is None,
{
    registries.only_handed_out_indices_have_values(interp, cell.index_in(&registries));
}

/// The cells and the registries before and after the cell `k` is used, in whichever interpreter;
/// any other `k` stands for what claims no index, such as a teardown.
pub open spec fn use_step<T>(
    cells: Seq<PerInterpreterCell<T>>,
    registries: Registries<T>,
    k: int,
    cells_after: Seq<PerInterpreterCell<T>>,
    registries_after: Registries<T>,
) -> bool {
    &&& cells_after.len() == cells.len()
    &&& forall|j: int|
        0 <= j < cells.len() && j != k ==> #[trigger] cells_after[j].claimed()
            == cells[j].claimed()
    &&& if 0 <= k < cells.len() {
        &&& cells[k].usable(&registries)
        &&& cells_after[k].claimed() == Some(cells[k].index_in(&registries))
        &&& registries_after.next_index() == cells[k].counter_after(&registries)
    } else {
        registries_after.next_index() == registries.next_index()
    }
}

/// A run of the cells of one set of registries, from where none has an index: `used[i]` is the
/// cell that is used between `cells[i]` and `cells[i + 1]`.
pub open spec fn is_use_run<T>(
    cells: Seq<Seq<PerInterpreterCell<T>>>,
    registries: Seq<Registries<T>>,
    used: Seq<int>,
) -> bool {
    &&& cells.len() == used.len() + 1
    &&& registries.len() == used.len() + 1
    &&& forall|j: int| 0 <= j < cells[0].len() ==> (#[trigger] cells[0][j]).claimed() is None
    &&& forall|i: int|
        0 <= i < used.len() ==> #[trigger] use_step(
            cells[i],
            registries[i],
            used[i],
            cells[i + 1],
            registries[i + 1],
        )
}

/// Two cells never have one index, in whichever order and however often they are used; and the
/// index that stands for none is never one of them.
pub proof fn no_two_cells_share_an_index<T>(
    cells: Seq<Seq<PerInterpreterCell<T>>>,
    registries: Seq<Registries<T>>,
    used: Seq<int>,
    n: int,
    a: int,
    b: int,
)
    requires
        is_use_run(cells, registries, used),
        0 <= n <= used.len(),
        0 <= a < cells[n].len(),
        0 <= b < cells[n].len(),
        cells[n][a].claimed() is Some,
        cells[n][b].claimed() is Some,
    ensures
        cells[n][a].claimed() == cells[n][b].claimed() <==> a == b,
        cells[n][a].claimed() != Some(UNCLAIMED),
{
    lemma_indices(cells, registries, used, n);
    cells[n][a].unclaimed_is_no_index();
}

/// The indices are below the counter, and no two are one.
spec fn indices_in_order<T>(cells: Seq<PerInterpreterCell<T>>, registries: Registries<T>) -> bool {
    &&& forall|j: int|
        0 <= j < cells.len() ==> ((#[trigger] cells[j]).claimed() matches Some(index) ==> index
            < registries.next_index())
    &&& forall|i: int, j: int|
        0 <= i < cells.len() && 0 <= j < cells.len() && i != j ==> ((
        #[trigger] cells[i]).claimed() is Some ==> cells[i].claimed() != (
        #[trigger] cells[j]).claimed())
}

proof fn lemma_indices<T>(
    cells: Seq<Seq<PerInterpreterCell<T>>>,
    registries: Seq<Registries<T>>,
    used: Seq<int>,
    n: int,
)
    requires
        is_use_run(cells, registries, used),
        0 <= n <= used.len(),
    ensures
        indices_in_order(cells[n], registries[n]),
    decreases n,
{
    if n > 0 {
        let m = n - 1;
        lemma_indices(cells, registries, used, m);
        assert(use_step(cells[m], registries[m], used[m], cells[m + 1], registries[m + 1]));
    }
}

/// A cell that has no index gets the next one of the counter, which goes up by one; a cell that
/// has one keeps it, and the counter stays. So no index is left out. A cell can be used as long as
/// the counter has an index left for it, or handed out the one that it has.
pub proof fn indices_are_handed_out_one_by_one<T>(
    cell: PerInterpreterCell<T>,
    registries: Registries<T>,
)
    ensures
        cell.claimed() is None ==> {
            &&& cell.index_in(&registries) == registries.next_index()
            &&& cell.counter_after(&registries) == registries.next_index() + 1
            &&& cell.usable(&registries) <==> registries.next_index() < usize::MAX
        },
        cell.claimed() matches Some(index) ==> {
            &&& cell.index_in(&registries) == index
            &&& cell.counter_after(&registries) == registries.next_index()
            &&& cell.usable(&registries) <==> index < registries.next_index()
        },
{
}

/// Once a cell has an index it keeps it.
pub proof fn a_cell_keeps_its_index<T>(
    cells: Seq<Seq<PerInterpreterCell<T>>>,
    registries: Seq<Registries<T>>,
    used: Seq<int>,
    m: int,
    n: int,
    a: int,
)
    requires
        is_use_run(cells, registries, used),
        0 <= m <= n <= used.len(),
        0 <= a < cells[m].len(),
        cells[m][a].claimed() is Some,
    ensures
        a < cells[n].len(),
        cells[n][a].claimed() == cells[m][a].claimed(),
    decreases n - m,
{
    if m < n {
        let k = n - 1;
        a_cell_keeps_its_index(cells, registries, used, m, k, a);
        assert(use_step(cells[k], registries[k], used[k], cells[k + 1], registries[k + 1]));
    }
}

/// Once an interpreter's registry is gone, every cell reads as empty there.
pub proof fn a_cell_is_empty_after_teardown<T>(
    before: Registries<T>,
    after: Registries<T>,
    interp: usize,
    index: usize,
)
    requires
        after@ == before@.remove(interp),
    ensures
        after.value(interp, index) is None,
{
}

/// No cell has a value in an interpreter that nothing was stored in.
pub proof fn a_new_interpreter_has_no_values<T>(
    registries: Registries<T>,
    interp: usize,
    index: usize,
)
    requires
        !registries@.dom().contains(interp) || registries@[interp] == Seq::<Option<T>>::empty(),
    ensures
        registries.value(interp, index) is None,
{
}

/// How many of the first `n` slots hold a value.
pub open spec fn filled<T>(slots: Seq<Option<T>>, n: int) -> int
    decreases n,
{
    if n <= 0 {
        0
    } else {
        filled(slots, n - 1) + if slots[n - 1] is Some {
            1int
        } else {
            0
        }
    }
}

/// Dropping a registry gives out every value that it holds, each once and in slot order, and
/// nothing else: there are as many as slots that hold one, and the value of a slot comes behind
/// those of the slots before it.
pub proof fn every_value_comes_out_once<T>(slots: Seq<Option<T>>, i: int)
    requires
        0 <= i < slots.len(),
    ensures
        occupied(slots).len() == filled(slots, slots.len() as int),
        slots[i] matches Some(value) ==> {
            &&& 0 <= filled(slots, i) < occupied(slots).len()
            &&& occupied(slots)[filled(slots, i)] == value
        },
    decreases slots.len(),
{
    let before = slots.drop_last();
    let n = before.len() as int;
    lemma_filled(slots, before, n);
    if n > 0 {
        every_value_comes_out_once(before, if i < n { i } else { 0 });
    } else {
        assert(occupied(before) =~= Seq::<T>::empty());
    }
    if i < n {
        lemma_filled(slots, before, i);
    }
}

proof fn lemma_filled<T>(slots: Seq<Option<T>>, before: Seq<Option<T>>, n: int)
    requires
        before == slots.drop_last(),
        slots.len() > 0,
        0 <= n <= before.len(),
    ensures
        filled(slots, n) == filled(before, n),
    decreases n,
{
    if n > 0 {
        lemma_filled(slots, before, n - 1);
    }
}

/// What happens to the registries.
pub enum CellEvent<T> {
    /// A cell is initialized in an interpreter with this value, unless it has one there.
    Initialized { interp: usize, index: usize, value: T },
    /// An interpreter's registry is dropped.
    TornDown { interp: usize },
}

/// The event takes the registries from one state to the next.
pub open spec fn cell_step<T>(
    before: Registries<T>,
    event: CellEvent<T>,
    after: Registries<T>,
) -> bool {
    match event {
        CellEvent::Initialized { interp, index, value } => if before.value(interp, index) is Some {
            after@ == before@
        } else {
            after@ == before@.insert(
                interp,
                with_value(before.slots_of(interp), index as int, value),
            )
        },
        CellEvent::TornDown { interp } => after@ == before@.remove(interp),
    }
}

/// A run of the registries, from none: `states[i]` is what they are before `events[i]`.
pub open spec fn is_cell_run<T>(states: Seq<Registries<T>>, events: Seq<CellEvent<T>>) -> bool {
    &&& states.len() == events.len() + 1
    &&& states[0]@ == Map::<usize, Seq<Option<T>>>::empty()
    &&& forall|i: int|
        0 <= i < events.len() ==> #[trigger] cell_step(states[i], events[i], states[i + 1])
}

/// The interpreter is torn down by one of `events[from..to]`.
pub open spec fn ends_between<T>(
    events: Seq<CellEvent<T>>,
    interp: usize,
    from: int,
    to: int,
) -> bool {
    exists|j: int| from <= j < to && #[trigger] events[j] == (CellEvent::<T>::TornDown { interp })
}

/// `events[i]` initializes the cell in the interpreter with `value`, and the interpreter lives
/// on until `events[n]`.
pub open spec fn stems_from<T>(
    events: Seq<CellEvent<T>>,
    interp: usize,
    index: usize,
    value: T,
    i: int,
    n: int,
) -> bool {
    &&& 0 <= i < n
    &&& events[i] == (CellEvent::Initialized { interp, index, value })
    &&& !ends_between(events, interp, i, n)
}

/// A value that a cell gives in an interpreter is one that the same cell was initialized with in
/// the same interpreter, and that interpreter has not been torn down since.
pub proof fn a_value_stems_from_its_interpreter<T>(
    states: Seq<Registries<T>>,
    events: Seq<CellEvent<T>>,
    interp: usize,
    index: usize,
    n: int,
)
    requires
        is_cell_run(states, events),
        0 <= n <= events.len(),
        states[n].value(interp, index) is Some,
    ensures
        exists|i: int|
            stems_from(events, interp, index, states[n].value(interp, index)->0, i, n),
    decreases n,
{
    if n > 0 {
        let before = states[n - 1];
        let after = states[n];
        let value = after.value(interp, index)->0;
        assert(cell_step(states[n - 1], events[n - 1], states[n - 1 + 1]));
        if before.value(interp, index) == Some(value) {
            let m = n - 1;
            a_value_stems_from_its_interpreter(states, events, interp, index, m);
            let i = choose|i: int| stems_from(events, interp, index, value, i, m);
            assert(events[n - 1] != (CellEvent::<T>::TornDown { interp }));
            assert(stems_from(events, interp, index, value, i, n));
        } else {
            assert(events[n - 1] == (CellEvent::Initialized { interp, index, value }));
            assert(stems_from(events, interp, index, value, n - 1, n));
        }
    }
}

/// Once a cell is initialized in an interpreter it keeps its value there until that interpreter
/// is torn down, whatever is initialized or torn down elsewhere.
pub proof fn a_value_is_kept<T>(
    states: Seq<Registries<T>>,
    events: Seq<CellEvent<T>>,
    interp: usize,
    index: usize,
    i: int,
    n: int,
)
    requires
        is_cell_run(states, events),
        0 <= i < n <= events.len(),
        events[i] matches CellEvent::Initialized { interp: x, index: k, .. } && x == interp && k
            == index,
        !ends_between(events, interp, i, n),
    ensures
        states[n].value(interp, index) is Some,
        states[n].value(interp, index) == states[i + 1].value(interp, index),
    decreases n,
{
    assert(cell_step(states[n - 1], events[n - 1], states[n - 1 + 1]));
    if n > i + 1 {
        assert(!ends_between(events, interp, i, n - 1)) by {
            if ends_between(events, interp, i, n - 1) {
                let j = choose|j: int|
                    i <= j < n - 1 && #[trigger] events[j] == (CellEvent::<T>::TornDown { interp });
                assert(events[j] == (CellEvent::<T>::TornDown { interp }));
            }
        }
        a_value_is_kept(states, events, interp, index, i, n - 1);
        assert(events[n - 1] != (CellEvent::<T>::TornDown { interp }));
    }
}

} // verus!
