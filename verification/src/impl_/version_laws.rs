//! What holds of the version that a text gives.

use crate::impl_::version::{
    decimal, digits_end, has_multiple_interpreters, is_digit, major, minor,
};
use vstd::prelude::*;

verus! {

/// A number as decimal digits, without leading zeros.
pub open spec fn written(n: nat) -> Seq<u8>
    decreases n,
{
    if n < 10 {
        seq![(48 + n) as u8]
    } else {
        written(n / 10).push((48 + n % 10) as u8)
    }
}

/// A number as decimal digits behind some zeros.
pub open spec fn padded(zeros: nat, n: nat) -> Seq<u8> {
    Seq::new(zeros, |i: int| 48u8) + written(n)
}

/// The text goes on with something that is no digit, or it ends.
pub open spec fn no_digit_follows(rest: Seq<u8>) -> bool {
    rest.len() == 0 || rest[0] < 48 || rest[0] > 57
}

proof fn lemma_written(n: nat)
    ensures
        written(n).len() > 0,
        decimal(written(n)) == n,
        forall|i: int| 0 <= i < written(n).len() ==> is_digit(#[trigger] written(n)[i]),
    decreases n,
{
    reveal_with_fuel(decimal, 2);
    if n < 10 {
        assert(written(n).drop_last() =~= Seq::<u8>::empty());
    } else {
        lemma_written(n / 10);
        assert(written(n).drop_last() =~= written(n / 10));
        assert forall|i: int| 0 <= i < written(n).len() implies is_digit(
            #[trigger] written(n)[i],
        ) by {
            if i < written(n).len() - 1 {
                assert(written(n)[i] == written(n / 10)[i]);
            }
        }
    }
}

proof fn lemma_zeros(zeros: nat, digits: Seq<u8>)
    ensures
        decimal(Seq::new(zeros, |i: int| 48u8) + digits) == decimal(digits),
    decreases digits.len(), zeros,
{
    let all = Seq::new(zeros, |i: int| 48u8) + digits;
    if digits.len() > 0 {
        lemma_zeros(zeros, digits.drop_last());
        assert(all.drop_last() =~= Seq::new(zeros, |i: int| 48u8) + digits.drop_last());
        assert(all.last() == digits.last());
    } else if zeros > 0 {
        lemma_zeros((zeros - 1) as nat, digits);
        assert(all.drop_last() =~= Seq::new((zeros - 1) as nat, |i: int| 48u8) + digits);
        assert(all.last() == 48u8);
    } else {
        assert(all =~= digits);
    }
}

proof fn lemma_padded(zeros: nat, n: nat)
    ensures
        padded(zeros, n).len() > 0,
        decimal(padded(zeros, n)) == n,
        forall|i: int| 0 <= i < padded(zeros, n).len() ==> is_digit(#[trigger] padded(zeros, n)[i]),
{
    lemma_written(n);
    lemma_zeros(zeros, written(n));
    assert forall|i: int| 0 <= i < padded(zeros, n).len() implies is_digit(
        #[trigger] padded(zeros, n)[i],
    ) by {
        if i >= zeros {
            assert(padded(zeros, n)[i] == written(n)[i - zeros]);
        }
    }
}

/// Where the digits of a text end.
proof fn lemma_run_ends(text: Seq<u8>, from: int, to: int)
    requires
        0 <= from <= to <= text.len(),
        forall|i: int| from <= i < to ==> is_digit(#[trigger] text[i]),
        to == text.len() || !is_digit(text[to]),
    ensures
        digits_end(text, from) == to,
    decreases to - from,
{
    if from < to {
        assert(is_digit(text[from]));
        lemma_run_ends(text, from + 1, to);
    }
}

/// A version text names its two numbers: whatever zeros lead them and whatever follows, the slot
/// is declared exactly from version 3.12 on.
pub proof fn support_starts_with_three_twelve(
    a: nat,
    b: nat,
    zeros_a: nat,
    zeros_b: nat,
    rest: Seq<u8>,
)
    requires
        no_digit_follows(rest),
    ensures
        has_multiple_interpreters(padded(zeros_a, a) + seq![46u8] + padded(zeros_b, b) + rest) <==> a
            >= 4 || (a == 3 && b >= 12),
{
    let left = padded(zeros_a, a);
    let right = padded(zeros_b, b);
    let text = left + seq![46u8] + right + rest;
    let dot = left.len() as int;
    let end = dot + 1 + right.len();
    lemma_padded(zeros_a, a);
    lemma_padded(zeros_b, b);
    assert forall|i: int| 0 <= i < dot implies is_digit(#[trigger] text[i]) by {
        assert(text[i] == left[i]);
    }
    assert(text[dot] == 46);
    assert forall|i: int| dot + 1 <= i < end implies is_digit(#[trigger] text[i]) by {
        assert(text[i] == right[i - dot - 1]);
    }
    assert(end < text.len() ==> text[end] == rest[0]);
    lemma_run_ends(text, 0, dot);
    lemma_run_ends(text, dot + 1, end);
    assert(text.subrange(0, dot) =~= left);
    assert(text.subrange(dot + 1, end) =~= right);
    assert(major(text) == a);
    assert(minor(text) == b);
}

/// A version text without a second number is of that major version, and none of its minor ones:
/// it has the slot from version 4 on.
pub proof fn a_lone_number_is_a_major_version(a: nat, zeros: nat, rest: Seq<u8>)
    requires
        no_digit_follows(rest),
        rest.len() > 0 ==> rest[0] != 46,
    ensures
        has_multiple_interpreters(padded(zeros, a) + rest) <==> a >= 4,
{
    let left = padded(zeros, a);
    let text = left + rest;
    let end = left.len() as int;
    lemma_padded(zeros, a);
    assert forall|i: int| 0 <= i < end implies is_digit(#[trigger] text[i]) by {
        assert(text[i] == left[i]);
    }
    assert(end < text.len() ==> text[end] == rest[0]);
    lemma_run_ends(text, 0, end);
    assert(text.subrange(0, end) =~= left);
}

/// A version text whose dot is followed by no number is of that major version.
pub proof fn a_missing_minor_version_is_none(a: nat, zeros: nat, rest: Seq<u8>)
    requires
        no_digit_follows(rest),
    ensures
        has_multiple_interpreters(padded(zeros, a) + seq![46u8] + rest) <==> a >= 4,
{
    let left = padded(zeros, a);
    let text = left + seq![46u8] + rest;
    let dot = left.len() as int;
    lemma_padded(zeros, a);
    assert forall|i: int| 0 <= i < dot implies is_digit(#[trigger] text[i]) by {
        assert(text[i] == left[i]);
    }
    assert(text[dot] == 46);
    assert(dot + 1 < text.len() ==> text[dot + 1] == rest[0]);
    lemma_run_ends(text, 0, dot);
    lemma_run_ends(text, dot + 1, dot + 1);
    assert(text.subrange(0, dot) =~= left);
    assert(text.subrange(dot + 1, dot + 1) =~= Seq::<u8>::empty());
}

/// A text that begins with no number names no version that has the slot.
pub proof fn a_text_without_a_number_has_no_support(text: Seq<u8>)
    requires
        no_digit_follows(text),
    ensures
        !has_multiple_interpreters(text),
{
    lemma_run_ends(text, 0, 0);
    assert(text.subrange(0, 0) =~= Seq::<u8>::empty());
}

} // verus!
