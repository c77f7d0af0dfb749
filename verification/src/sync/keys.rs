//! The keys under which an extension copy keeps its state in an interpreter's dict.
//!
//! Every extension copy has statics of its own, so it has a registry of its own in each
//! interpreter. Two copies loaded by one interpreter must not find each other's: the keys carry
//! a tag that is the copy's own.

use vstd::prelude::*;

verus! {

/// What the key of every registry begins with. The tag of the copy follows.
pub const REGISTRY_PREFIX: &'static str = "_pyo3_per_interpreter.";

/// What the key of a copy's teardown hook has behind the key of its registry.
pub const HOOK_SUFFIX: &'static str = ".hook";

/// The capsule name of a registry. CPython compares it when it unwraps a capsule.
pub const CAPSULE_NAME: &'static str = "pyo3.per_interpreter.registry";

/// The hexadecimal digit for a number below sixteen.
pub open spec fn hex_digit(d: int) -> char {
    if d == 0 {
        '0'
    } else if d == 1 {
        '1'
    } else if d == 2 {
        '2'
    } else if d == 3 {
        '3'
    } else if d == 4 {
        '4'
    } else if d == 5 {
        '5'
    } else if d == 6 {
        '6'
    } else if d == 7 {
        '7'
    } else if d == 8 {
        '8'
    } else if d == 9 {
        '9'
    } else if d == 10 {
        'a'
    } else if d == 11 {
        'b'
    } else if d == 12 {
        'c'
    } else if d == 13 {
        'd'
    } else if d == 14 {
        'e'
    } else {
        'f'
    }
}

/// A number in hexadecimal, without leading zeros.
pub open spec fn hex(n: nat) -> Seq<char>
    decreases n,
{
    if n < 16 {
        seq![hex_digit(n as int)]
    } else {
        hex(n / 16).push(hex_digit((n % 16) as int))
    }
}

/// The keys of an extension copy.
pub struct Keys {
    /// The key of its registry.
    pub registry: String,
    /// The key of its teardown hook.
    pub hook: String,
}

/// The key of the registry of the copy with this tag.
pub open spec fn registry_key(tag: usize) -> Seq<char> {
    REGISTRY_PREFIX@ + hex(tag as nat)
}

/// The key of the teardown hook of the copy with this tag.
pub open spec fn hook_key(tag: usize) -> Seq<char> {
    registry_key(tag) + HOOK_SUFFIX@
}

fn digit_text(d: usize) -> (r: &'static str)
    requires
        d < 16,
    ensures
        r@ == seq![hex_digit(d as int)],
{
    proof {
        reveal_strlit("0");
        reveal_strlit("1");
        reveal_strlit("2");
        reveal_strlit("3");
        reveal_strlit("4");
        reveal_strlit("5");
        reveal_strlit("6");
        reveal_strlit("7");
        reveal_strlit("8");
        reveal_strlit("9");
        reveal_strlit("a");
        reveal_strlit("b");
        reveal_strlit("c");
        reveal_strlit("d");
        reveal_strlit("e");
        reveal_strlit("f");
    }
    let r = match d {
        0 => "0",
        1 => "1",
        2 => "2",
        3 => "3",
        4 => "4",
        5 => "5",
        6 => "6",
        7 => "7",
        8 => "8",
        9 => "9",
        10 => "a",
        11 => "b",
        12 => "c",
        13 => "d",
        14 => "e",
        _ => "f",
    };
    assert(r@ =~= seq![hex_digit(d as int)]);
    r
}

fn append_hex(text: &mut String, n: usize)
    ensures
        final(text)@ == old(text)@ + hex(n as nat),
    decreases n,
{
    let ghost before = text@;
    if n >= 16 {
        append_hex(text, n / 16);
    }
    text.append(digit_text(n % 16));
    assert(text@ =~= before + hex(n as nat));
}

/// The keys of the copy with this tag.
pub fn keys(tag: usize) -> (r: Keys)
    ensures
        r.registry@ == registry_key(tag),
        r.hook@ == hook_key(tag),
{
    let mut registry = String::from_str(REGISTRY_PREFIX);
    append_hex(&mut registry, tag);
    let mut hook = registry.clone();
    hook.append(HOOK_SUFFIX);
    Keys { registry, hook }
}

/// The key is one of a registry: a tag without a dot follows the prefix.
pub open spec fn is_registry_key(key: Seq<char>) -> bool {
    &&& REGISTRY_PREFIX@.is_prefix_of(key)
    &&& !key.skip(REGISTRY_PREFIX@.len() as int).contains('.')
}

proof fn lemma_hex_injective(a: nat, b: nat)
    requires
        hex(a) == hex(b),
    ensures
        a == b,
    decreases a + b,
{
    lemma_hex_len(a);
    lemma_hex_len(b);
    if a < 16 {
        if b >= 16 {
            lemma_hex_len(b / 16);
        } else {
            assert(hex(a)[0] == hex_digit(a as int));
            assert(hex(b)[0] == hex_digit(b as int));
        }
    } else if b < 16 {
        lemma_hex_len(a / 16);
    } else {
        assert(hex(a).drop_last() =~= hex(a / 16));
        assert(hex(b).drop_last() =~= hex(b / 16));
        assert(hex(a).last() == hex_digit((a % 16) as int));
        assert(hex(b).last() == hex_digit((b % 16) as int));
        lemma_hex_injective(a / 16, b / 16);
    }
}

proof fn lemma_hex_len(a: nat)
    ensures
        hex(a).len() >= 1,
    decreases a,
{
    if a >= 16 {
        lemma_hex_len(a / 16);
    }
}

proof fn lemma_hex_has_no_dot(a: nat)
    ensures
        !hex(a).contains('.'),
    decreases a,
{
    if a >= 16 {
        lemma_hex_has_no_dot(a / 16);
        assert forall|i: int| 0 <= i < hex(a).len() implies hex(a)[i] != '.' by {
            if i < hex(a / 16).len() {
                assert(hex(a)[i] == hex(a / 16)[i]);
            }
        }
    }
}

/// Two extension copies never share a key.
pub proof fn copies_have_keys_of_their_own(a: usize, b: usize)
    requires
        a != b,
    ensures
        registry_key(a) != registry_key(b),
        hook_key(a) != hook_key(b),
        registry_key(a) != hook_key(b),
{
    let p = REGISTRY_PREFIX@.len() as int;
    if registry_key(a) == registry_key(b) {
        assert(registry_key(a).skip(p) =~= hex(a as nat));
        assert(registry_key(b).skip(p) =~= hex(b as nat));
        lemma_hex_injective(a as nat, b as nat);
    }
    if hook_key(a) == hook_key(b) {
        let n = registry_key(a).len() as int;
        assert(registry_key(a).len() == hook_key(a).len() - HOOK_SUFFIX@.len());
        assert(registry_key(b).len() == hook_key(b).len() - HOOK_SUFFIX@.len());
        assert(hook_key(a).take(n) =~= registry_key(a));
        assert(hook_key(b).take(n) =~= registry_key(b));
        assert(registry_key(a).skip(p) =~= hex(a as nat));
        assert(registry_key(b).skip(p) =~= hex(b as nat));
        lemma_hex_injective(a as nat, b as nat);
    }
    one_key_is_the_registry(a);
    one_key_is_the_registry(b);
}

/// Of the keys of a copy, exactly one is that of a registry: a copy is found under it, and under
/// no other.
pub proof fn one_key_is_the_registry(tag: usize)
    ensures
        is_registry_key(registry_key(tag)),
        !is_registry_key(hook_key(tag)),
{
    let p = REGISTRY_PREFIX@.len() as int;
    assert(registry_key(tag).take(p) =~= REGISTRY_PREFIX@);
    assert(registry_key(tag).skip(p) =~= hex(tag as nat));
    lemma_hex_has_no_dot(tag as nat);
    reveal_strlit(".hook");
    let n = hex(tag as nat).len() as int;
    assert(hook_key(tag).skip(p)[n] == HOOK_SUFFIX@[0]);
    assert(HOOK_SUFFIX@[0] == '.');
}

/// What a hexadecimal digit stands for.
pub open spec fn digit_value(c: char) -> int {
    if '0' <= c && c <= '9' {
        c as int - '0' as int
    } else if 'a' <= c && c <= 'f' {
        c as int - 'a' as int + 10
    } else {
        -1
    }
}

/// What a hexadecimal number stands for.
pub open spec fn hex_value(text: Seq<char>) -> int
    decreases text.len(),
{
    if text.len() == 0 {
        0
    } else {
        16 * hex_value(text.drop_last()) + digit_value(text.last())
    }
}

/// A tag is written in lower-case hexadecimal, without leading zeros: read as such a number it is
/// the tag again.
pub proof fn a_tag_is_written_in_hexadecimal(n: nat)
    ensures
        hex_value(hex(n)) == n,
        forall|i: int| 0 <= i < hex(n).len() ==> 0 <= digit_value(#[trigger] hex(n)[i]) < 16,
        hex(n).len() > 0,
        n != 0 ==> hex(n)[0] != '0',
        n == 0 ==> hex(n) == seq!['0'],
    decreases n,
{
    reveal_with_fuel(hex_value, 2);
    if n < 16 {
        assert(hex(n).drop_last() =~= Seq::<char>::empty());
        assert(hex(n).last() == hex_digit(n as int));
    } else {
        a_tag_is_written_in_hexadecimal(n / 16);
        assert(hex(n).drop_last() =~= hex(n / 16));
        assert(hex(n)[0] == hex(n / 16)[0]);
        assert forall|i: int| 0 <= i < hex(n).len() implies 0 <= digit_value(
            #[trigger] hex(n)[i],
        ) < 16 by {
            if i < hex(n).len() - 1 {
                assert(hex(n)[i] == hex(n / 16)[i]);
            }
        }
    }
}

/// The key of a registry is its prefix and the tag, and the key of the hook is that and its
/// suffix: nothing comes before, between or behind.
pub proof fn a_key_holds_the_tag(tag: usize)
    ensures
        REGISTRY_PREFIX@.is_prefix_of(registry_key(tag)),
        hex_value(registry_key(tag).skip(REGISTRY_PREFIX@.len() as int)) == tag,
        registry_key(tag).is_prefix_of(hook_key(tag)),
        hook_key(tag).skip(registry_key(tag).len() as int) == HOOK_SUFFIX@,
{
    a_tag_is_written_in_hexadecimal(tag as nat);
    let p = REGISTRY_PREFIX@.len() as int;
    assert(registry_key(tag).take(p) =~= REGISTRY_PREFIX@);
    assert(registry_key(tag).skip(p) =~= hex(tag as nat));
    let n = registry_key(tag).len() as int;
    assert(hook_key(tag).take(n) =~= registry_key(tag));
    assert(hook_key(tag).skip(n) =~= HOOK_SUFFIX@);
}

} // verus!
