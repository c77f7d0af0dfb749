//! The version of the interpreter that runs the extension.

use vstd::prelude::*;

verus! {

pub open spec fn is_digit(c: u8) -> bool {
    48 <= c <= 57
}

/// The number that a run of decimal digits writes.
pub open spec fn decimal(digits: Seq<u8>) -> nat
    decreases digits.len(),
{
    if digits.len() == 0 {
        0
    } else {
        10 * decimal(digits.drop_last()) + (digits.last() - 48) as nat
    }
}

/// The end of the run of digits that starts at `from`.
pub open spec fn digits_end(text: Seq<u8>, from: int) -> int
    decreases text.len() - from,
{
    if 0 <= from < text.len() && is_digit(text[from]) {
        digits_end(text, from + 1)
    } else {
        from
    }
}

/// The number before the first dot.
pub open spec fn major(text: Seq<u8>) -> nat {
    decimal(text.subrange(0, digits_end(text, 0)))
}

/// The number between the first dot and what follows it; zero where the leading number is not
/// followed by a dot.
pub open spec fn minor(text: Seq<u8>) -> nat {
    let dot = digits_end(text, 0);
    if dot < text.len() && text[dot] == 46 {
        decimal(text.subrange(dot + 1, digits_end(text, dot + 1)))
    } else {
        0
    }
}

/// The version text, such as `3.14.6 (main, ...)`, is of Python 3.12 or later.
pub open spec fn has_multiple_interpreters(text: Seq<u8>) -> bool {
    major(text) > 3 || (major(text) == 3 && minor(text) >= 12)
}

proof fn lemma_digits_end(text: Seq<u8>, from: int, i: int)
    requires
        0 <= from <= i <= text.len(),
        forall|k: int| from <= k < i ==> is_digit(#[trigger] text[k]),
    ensures
        digits_end(text, from) == digits_end(text, i),
    decreases i - from,
{
    if from < i {
        assert(is_digit(text[from]));
        lemma_digits_end(text, from + 1, i);
    }
}

/// Reads the digits at `from`: where they end, and the number they write. A number of 1000 or
/// more comes out as some number of 1000 or more, which no version is.
fn read_number(text: &[u8], from: usize) -> (r: (usize, u32))
    requires
        from <= text@.len(),
    ensures
        from <= r.0 <= text@.len(),
        r.0 == digits_end(text@, from as int),
        r.1 < 1000 ==> r.1 == decimal(text@.subrange(from as int, r.0 as int)),
        r.1 >= 1000 ==> decimal(text@.subrange(from as int, r.0 as int)) >= 1000,
{
    let mut i: usize = from;
    let mut value: u32 = 0;
    assert(text@.subrange(from as int, from as int).len() == 0);
    while i < text.len() && text[i] >= 48 && text[i] <= 57
        invariant
            from <= i <= text@.len(),
            forall|k: int| from <= k < i ==> is_digit(#[trigger] text@[k]),
            value < 10000,
            value < 1000 ==> value == decimal(text@.subrange(from as int, i as int)),
            value >= 1000 ==> decimal(text@.subrange(from as int, i as int)) >= 1000,
        decreases text@.len() - i,
    {
        let d: u32 = (text[i] - 48) as u32;
        assert(text@.subrange(from as int, i + 1).drop_last() =~= text@.subrange(
            from as int,
            i as int,
        ));
        if value < 1000 {
            value = value * 10 + d;
        }
        i = i + 1;
    }
    proof {
        lemma_digits_end(text@, from as int, i as int);
    }
    (i, value)
}

/// Whether the interpreter with this version text, as `Py_GetVersion` gives it, knows
/// `Py_mod_multiple_interpreters`.
pub fn supports_multiple_interpreters(text: &[u8]) -> (r: bool)
    ensures
        r == has_multiple_interpreters(text@),
{
    let (dot, major_number) = read_number(text, 0);
    let mut minor_number: u32 = 0;
    if dot < text.len() && text[dot] == 46 {
        let (_end, number) = read_number(text, dot + 1);
        minor_number = number;
    }
    major_number > 3 || (major_number == 3 && minor_number >= 12)
}

} // verus!
