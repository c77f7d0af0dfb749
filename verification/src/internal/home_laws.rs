//! What holds of the home interpreter over the whole history of an extension copy.

use crate::internal::home::{
    flag_set, target_of, ForeignTarget, Record, HOME_GONE, HOME_IS_MAIN, MULTI,
};
use vstd::prelude::*;

verus! {

/// What happened to an extension copy.
pub enum Event {
    /// The interpreter executed a module of the copy.
    Exec { interp: usize, is_main: bool },
    /// The interpreter was torn down.
    Teardown { interp: usize },
}

/// The record after a history, which starts with none.
pub open spec fn record_after(events: Seq<Event>) -> Record
    decreases events.len(),
{
    if events.len() == 0 {
        Record::empty()
    } else {
        let before = record_after(events.drop_last());
        match events.last() {
            Event::Exec { interp, is_main } => before.executed(interp, is_main),
            Event::Teardown { interp } => before.torn_down(interp),
        }
    }
}

/// `events[i]` is an exec by `interp`.
pub open spec fn execs(events: Seq<Event>, i: int, interp: usize) -> bool {
    0 <= i < events.len() && (events[i] matches Event::Exec { interp: x, .. } && x == interp)
}

/// `interp` is torn down after `events[i]`.
pub open spec fn torn_down_after(events: Seq<Event>, i: int, interp: usize) -> bool {
    exists|j: int| i < j < events.len() && #[trigger] events[j] == (Event::Teardown { interp })
}

/// `events[i]` is an exec by an interpreter other than the main one.
pub open spec fn sub_execs(events: Seq<Event>, i: int, interp: usize) -> bool {
    0 <= i < events.len() && events[i] == (Event::Exec { interp, is_main: false })
}

/// An interpreter is the main one in all of its execs, or in none.
pub open spec fn consistent(events: Seq<Event>) -> bool {
    forall|i: int, j: int|
        0 <= i < events.len() && 0 <= j < events.len() ==> (#[trigger] events[i] matches Event::Exec {
            interp: a,
            is_main: m,
        } ==> (#[trigger] events[j] matches Event::Exec { interp: b, is_main: n } ==> (a == b
            ==> m == n)))
}

spec fn home_is_alive(events: Seq<Event>) -> bool {
    let r = record_after(events);
    r.home matches Some(x) ==> exists|i: int|
        0 <= i < events.len() && #[trigger] events[i] == (Event::Exec { interp: x, is_main: r.main })
            && !torn_down_after(events, i, x)
}

spec fn others_are_gone(events: Seq<Event>) -> bool {
    let r = record_after(events);
    !r.multi ==> forall|i: int, x: usize| #[trigger]
        execs(events, i, x) ==> r.home == Some(x) || torn_down_after(events, i, x)
}

spec fn unrecorded_means_none(events: Seq<Event>) -> bool {
    let r = record_after(events);
    &&& r.gone ==> r.home is None
    &&& r.main ==> r.home is Some
    &&& r.home is None && !r.gone ==> forall|i: int, x: usize| !#[trigger] execs(events, i, x)
}

proof fn lemma_invariant(events: Seq<Event>)
    ensures
        home_is_alive(events),
        others_are_gone(events),
        unrecorded_means_none(events),
    decreases events.len(),
{
    if events.len() > 0 {
        let before = events.drop_last();
        let n = before.len() as int;
        lemma_invariant(before);
        let r = record_after(events);
        let b = record_after(before);
        assert forall|i: int, x: usize| 0 <= i < n && torn_down_after(before, i, x) implies
            torn_down_after(events, i, x) by {
            let j = choose|j: int|
                i < j < before.len() && #[trigger] before[j] == (Event::Teardown { interp: x });
            assert(events[j] == (Event::Teardown { interp: x }));
        }
        assert forall|i: int, x: usize| i < n && execs(events, i, x) implies execs(before, i, x) by {}
        assert forall|i: int, x: usize| #[trigger] execs(before, i, x) implies execs(events, i, x) by {}
        match events.last() {
            Event::Exec { interp, is_main } => {
                if b.home is None {
                    assert(events[n] == (Event::Exec { interp, is_main: r.main }));
                    assert(!torn_down_after(events, n, interp));
                } else {
                    let x = b.home->0;
                    let i = choose|i: int|
                        0 <= i < before.len() && #[trigger] before[i] == (Event::Exec {
                            interp: x,
                            is_main: b.main,
                        }) && !torn_down_after(before, i, x);
                    assert(events[i] == (Event::Exec { interp: x, is_main: r.main }));
                    assert(!torn_down_after(events, i, x)) by {
                        if torn_down_after(events, i, x) {
                            let j = choose|j: int|
                                i < j < events.len() && #[trigger] events[j] == (Event::Teardown {
                                    interp: x,
                                });
                            assert(before[j] == events[j]);
                        }
                    }
                }
                assert(execs(events, n, interp));
            },
            Event::Teardown { interp } => {
                assert forall|i: int| 0 <= i < n implies #[trigger] torn_down_after(
                    events,
                    i,
                    interp,
                ) by {
                    assert(events[n] == (Event::Teardown { interp }));
                }
                if b.home is Some && b.home != Some(interp) {
                    let x = b.home->0;
                    let i = choose|i: int|
                        0 <= i < before.len() && #[trigger] before[i] == (Event::Exec {
                            interp: x,
                            is_main: b.main,
                        }) && !torn_down_after(before, i, x);
                    assert(events[i] == (Event::Exec { interp: x, is_main: r.main }));
                    assert(!torn_down_after(events, i, x)) by {
                        if torn_down_after(events, i, x) {
                            let j = choose|j: int|
                                i < j < events.len() && #[trigger] events[j] == (Event::Teardown {
                                    interp: x,
                                });
                            assert(before[j] == events[j]);
                        }
                    }
                }
            },
        }
    }
}

/// A foreign-thread attach is never sent to an interpreter that is gone: the one it is sent to
/// executed a module of the copy and was not torn down since.
pub proof fn home_is_never_dangling(events: Seq<Event>, interp: usize)
    requires
        record_after(events).target() == ForeignTarget::Home(interp),
    ensures
        exists|i: int| #[trigger] sub_execs(events, i, interp) && !torn_down_after(events, i, interp),
{
    lemma_invariant(events);
    let i = choose|i: int|
        0 <= i < events.len() && #[trigger] events[i] == (Event::Exec { interp, is_main: false })
            && !torn_down_after(events, i, interp);
    assert(sub_execs(events, i, interp));
}

/// A foreign-thread attach is never silently sent to the main interpreter while a
/// sub-interpreter that executed a module of the copy is alive.
pub proof fn main_is_never_a_fallback(events: Seq<Event>, i: int, interp: usize)
    requires
        consistent(events),
        record_after(events).target() == ForeignTarget::Gilstate,
        sub_execs(events, i, interp),
    ensures
        torn_down_after(events, i, interp),
{
    lemma_invariant(events);
    assert(execs(events, i, interp));
    if !torn_down_after(events, i, interp) {
        let r = record_after(events);
        assert(r.home == Some(interp));
        let k = choose|k: int|
            0 <= k < events.len() && #[trigger] events[k] == (Event::Exec {
                interp,
                is_main: r.main,
            }) && !torn_down_after(events, k, interp);
        assert(events[k] matches Event::Exec { interp: a, is_main: m } && a == interp && m == r.main);
        assert(events[i] matches Event::Exec { interp: a, is_main: m } && a == interp && !m);
    }
}

/// Exactly one interpreter executed the copy's modules, and it is alive: a foreign-thread attach
/// goes to it, by way of `PyGILState_Ensure` if it is the main one.
pub proof fn one_interpreter_is_home(events: Seq<Event>, interp: usize, is_main: bool)
    requires
        exists|i: int| #[trigger] execs(events, i, interp),
        forall|i: int, x: usize| #[trigger] execs(events, i, x) ==> events[i] == (Event::Exec {
            interp,
            is_main,
        }),
        forall|i: int|
            0 <= i < events.len() ==> #[trigger] events[i] != (Event::Teardown { interp }),
    ensures
        record_after(events).target() == if is_main {
            ForeignTarget::Gilstate
        } else {
            ForeignTarget::Home(interp)
        },
{
    lemma_one_interpreter(events, interp, is_main);
    lemma_invariant(events);
    let i = choose|i: int| #[trigger] execs(events, i, interp);
    assert(!torn_down_after(events, i, interp));
}

/// Where one interpreter alone executed modules, it or none is home, and nothing is ambiguous.
proof fn lemma_one_interpreter(events: Seq<Event>, interp: usize, is_main: bool)
    requires
        forall|i: int, x: usize| #[trigger] execs(events, i, x) ==> events[i] == (Event::Exec {
            interp,
            is_main,
        }),
    ensures
        !record_after(events).multi,
        record_after(events).home matches Some(x) ==> x == interp && record_after(events).main
            == is_main,
    decreases events.len(),
{
    if events.len() > 0 {
        let before = events.drop_last();
        assert forall|i: int, x: usize| #[trigger] execs(before, i, x) implies before[i] == (
        Event::Exec { interp, is_main }) by {
            assert(execs(events, i, x));
        }
        lemma_one_interpreter(before, interp, is_main);
        if let Event::Exec { interp: x, .. } = events.last() {
            assert(execs(events, events.len() - 1, x));
        }
    }
}

/// Once ambiguous, always ambiguous: nothing that happens later makes the copy pick an
/// interpreter again.
pub proof fn ambiguity_is_permanent(events: Seq<Event>, later: Seq<Event>)
    requires
        record_after(events).target() == ForeignTarget::Ambiguous,
    ensures
        record_after(events + later).target() == ForeignTarget::Ambiguous,
    decreases later.len(),
{
    if later.len() == 0 {
        assert(events + later =~= events);
    } else {
        ambiguity_is_permanent(events, later.drop_last());
        assert((events + later).drop_last() =~= events + later.drop_last());
        assert((events + later).last() == later.last());
    }
}

/// Two interpreters that executed the copy's modules while the first of them was alive make the
/// copy ambiguous.
pub proof fn two_interpreters_are_ambiguous(events: Seq<Event>, i: int, j: int, a: usize, b: usize)
    requires
        i < j,
        execs(events, i, a),
        execs(events, j, b),
        a != b,
        forall|k: int| i < k < j ==> #[trigger] events[k] != (Event::Teardown { interp: a }),
    ensures
        record_after(events).target() == ForeignTarget::Ambiguous,
{
    let prefix = events.take(j);
    lemma_home_or_ambiguous(events, i, j, a);
    let through = events.take(j + 1);
    assert(through.drop_last() =~= prefix);
    assert(through.last() == events[j]);
    assert(record_after(through).multi);
    assert(events =~= through + events.skip(j + 1));
    ambiguity_is_permanent(through, events.skip(j + 1));
}

/// From its exec on, and until it is torn down, an interpreter is home, or the copy is ambiguous.
proof fn lemma_home_or_ambiguous(events: Seq<Event>, i: int, n: int, a: usize)
    requires
        i < n <= events.len(),
        execs(events, i, a),
        forall|k: int| i < k < n ==> #[trigger] events[k] != (Event::Teardown { interp: a }),
    ensures
        record_after(events.take(n)).multi || record_after(events.take(n)).home == Some(a),
    decreases n - i,
{
    assert(events.take(n).drop_last() =~= events.take(n - 1));
    assert(events.take(n).last() == events[n - 1]);
    if n > i + 1 {
        lemma_home_or_ambiguous(events, i, n - 1, a);
    }
}

/// The only interpreter that executed the copy's modules was torn down, and none executed one
/// since: a foreign-thread attach fails loudly.
pub proof fn finalized_home_is_loud(events: Seq<Event>, i: int, j: int, interp: usize, is_main: bool)
    requires
        forall|k: int, x: usize| #[trigger] execs(events, k, x) ==> events[k] == (Event::Exec {
            interp,
            is_main,
        }),
        execs(events, i, interp),
        i < j < events.len(),
        events[j] == (Event::Teardown { interp }),
        forall|k: int, x: usize| #[trigger] execs(events, k, x) ==> k < j,
    ensures
        record_after(events).target() == ForeignTarget::HomeGone,
{
    lemma_one_interpreter(events, interp, is_main);
    lemma_invariant(events);
    let r = record_after(events);
    if r.home is Some {
        let k = choose|k: int|
            0 <= k < events.len() && #[trigger] events[k] == (Event::Exec {
                interp,
                is_main: r.main,
            }) && !torn_down_after(events, k, interp);
        assert(execs(events, k, interp));
        assert(torn_down_after(events, k, interp));
    }
}

/// A later interpreter takes the place of a finalized home.
pub proof fn finalized_home_is_replaced(events: Seq<Event>, interp: usize, is_main: bool)
    requires
        record_after(events).target() == ForeignTarget::HomeGone,
    ensures
        record_after(events.push(Event::Exec { interp, is_main })).target() == if is_main {
            ForeignTarget::Gilstate
        } else {
            ForeignTarget::Home(interp)
        },
{
    let next = events.push(Event::Exec { interp, is_main });
    assert(next.drop_last() =~= events);
}

/// While no module was executed, a foreign-thread attach goes the way it always went.
pub proof fn no_exec_means_gilstate(events: Seq<Event>)
    requires
        forall|i: int, x: usize| !#[trigger] execs(events, i, x),
    ensures
        record_after(events).target() == ForeignTarget::Gilstate,
    decreases events.len(),
{
    lemma_none(events);
}

proof fn lemma_none(events: Seq<Event>)
    requires
        forall|i: int, x: usize| !#[trigger] execs(events, i, x),
    ensures
        record_after(events) == Record::empty(),
    decreases events.len(),
{
    if events.len() > 0 {
        let before = events.drop_last();
        assert forall|i: int, x: usize| !#[trigger] execs(before, i, x) by {
            assert(!execs(events, i, x));
        }
        lemma_none(before);
        if let Event::Exec { interp: x, .. } = events.last() {
            assert(execs(events, events.len() - 1, x));
        }
    }
}

/// What one more event does to where a foreign-thread attach goes, whatever came before it. While
/// a sub-interpreter is home, another exec of its own changes nothing, an exec of any other makes
/// the copy ambiguous, its teardown leaves no home, and the teardown of any other changes nothing.
pub proof fn an_event_moves_the_target(events: Seq<Event>, home: usize, interp: usize, is_main: bool)
    requires
        record_after(events).target() == ForeignTarget::Home(home),
    ensures
        record_after(events.push(Event::Exec { interp, is_main })).target() == if interp == home {
            ForeignTarget::Home(home)
        } else {
            ForeignTarget::Ambiguous
        },
        record_after(events.push(Event::Teardown { interp })).target() == if interp == home {
            ForeignTarget::HomeGone
        } else {
            ForeignTarget::Home(home)
        },
{
    assert(events.push(Event::Exec { interp, is_main }).drop_last() =~= events);
    assert(events.push(Event::Teardown { interp }).drop_last() =~= events);
}

/// The same while the main interpreter is home: a foreign-thread attach goes there until it is
/// torn down, or another interpreter executes a module.
pub proof fn an_event_moves_the_target_from_main(
    events: Seq<Event>,
    main: usize,
    interp: usize,
    is_main: bool,
)
    requires
        record_after(events).target() == ForeignTarget::Gilstate,
        exists|i: int|
            0 <= i < events.len() && #[trigger] events[i] == (Event::Exec {
                interp: main,
                is_main: true,
            }) && !torn_down_after(events, i, main),
    ensures
        record_after(events.push(Event::Exec { interp, is_main })).target() == if interp == main {
            ForeignTarget::Gilstate
        } else {
            ForeignTarget::Ambiguous
        },
        record_after(events.push(Event::Teardown { interp })).target() == if interp == main {
            ForeignTarget::HomeGone
        } else {
            ForeignTarget::Gilstate
        },
{
    lemma_invariant(events);
    let i = choose|i: int|
        0 <= i < events.len() && #[trigger] events[i] == (Event::Exec {
            interp: main,
            is_main: true,
        }) && !torn_down_after(events, i, main);
    assert(execs(events, i, main));
    assert(record_after(events).home == Some(main));
    assert(events.push(Event::Exec { interp, is_main }).drop_last() =~= events);
    assert(events.push(Event::Teardown { interp }).drop_last() =~= events);
}

/// A home that is gone stays gone until an interpreter executes a module, whatever else is torn
/// down; and the first interpreter to execute one becomes the home.
pub proof fn the_first_exec_decides(events: Seq<Event>, interp: usize, is_main: bool)
    ensures
        record_after(events).target() == ForeignTarget::HomeGone ==> record_after(
            events.push(Event::Teardown { interp }),
        ).target() == ForeignTarget::HomeGone,
        (forall|i: int, x: usize| !#[trigger] execs(events, i, x)) ==> record_after(
            events.push(Event::Exec { interp, is_main }),
        ).target() == if is_main {
            ForeignTarget::Gilstate
        } else {
            ForeignTarget::Home(interp)
        },
{
    lemma_invariant(events);
    assert(events.push(Event::Exec { interp, is_main }).drop_last() =~= events);
    assert(events.push(Event::Teardown { interp }).drop_last() =~= events);
    if forall|i: int, x: usize| !#[trigger] execs(events, i, x) {
        lemma_none(events);
    }
}

/// The flags decide where an attach goes by rank: more than one interpreter makes it ambiguous,
/// whatever else they say; then a home, by way of `PyGILState_Ensure` if it is the main one; then
/// one that is gone; and with none of these it goes the way it always went.
pub proof fn the_flags_decide_by_rank(home: usize, flags: u8)
    ensures
        target_of(home, flags) is Ambiguous <==> flag_set(flags, MULTI),
        forall|interp: usize|
            target_of(home, flags) == ForeignTarget::Home(interp) <==> !flag_set(flags, MULTI)
                && interp == home && home != 0 && !flag_set(flags, HOME_IS_MAIN),
        target_of(home, flags) is HomeGone <==> !flag_set(flags, MULTI) && home == 0 && flag_set(
            flags,
            HOME_GONE,
        ),
{
}

} // verus!
