//! Which scripts may be handed to the store.
//!
//! Every connection carries one SQL function of the connection library's
//! own, which sets up a trigger for the table that it is called with. Called
//! from a script with a table that is not there, or a second time for one
//! table, it does not report an error: it brings the program down. So no
//! script may name it, and since the store takes function names in any
//! letter case, no script may hold its name in any.

use vstd::prelude::*;
use vstd::std_specs::iter::IteratorSpec;
use vstd::string::*;

verus! {

/// The name that no script may hold, in small letters.
pub open spec fn reserved_name() -> Seq<char> {
    "diesel_manage_updated_at"@
}

/// `c` is the character `small`, or `small` is a small letter and `c` is
/// its capital.
pub open spec fn same_letter(c: char, small: char) -> bool {
    c == small || (97 <= small as u32 <= 122 && c as u32 + 32 == small as u32)
}

/// The reserved name stands in `text` at place `i`, in some letter case.
pub open spec fn names_reserved_at(text: Seq<char>, i: int) -> bool {
    &&& 0 <= i
    &&& i + reserved_name().len() <= text.len()
    &&& forall|j: int|
        0 <= j < reserved_name().len() ==> same_letter(text[i + j], #[trigger] reserved_name()[j])
}

/// The reserved name stands nowhere in `text`, in no letter case.
pub open spec fn script_is_admissible(text: Seq<char>) -> bool {
    forall|i: int| !names_reserved_at(text, i)
}

/// A text that lacks one of the characters of the reserved name, in both
/// letter cases, cannot hold the name.
pub proof fn text_without_a_letter_is_admissible(text: Seq<char>, k: int)
    requires
        0 <= k < reserved_name().len(),
        forall|i: int| 0 <= i < text.len() ==> !same_letter(#[trigger] text[i], reserved_name()[k]),
    ensures
        script_is_admissible(text),
{
    assert forall|i: int| !names_reserved_at(text, i) by {
        if names_reserved_at(text, i) {
            assert(same_letter(text[i + k], reserved_name()[k]));
        }
    }
}

/// The statement that sets the durability of a connection: the store hands
/// its writes to the operating system without waiting for the disk at each
/// transaction. That gives up the last transactions on a power loss for
/// faster writes.
pub fn durability_statement() -> (statement: &'static str)
    ensures
        statement@ == "PRAGMA synchronous = NORMAL"@,
        script_is_admissible(statement@),
{
    proof {
        reveal_strlit("PRAGMA synchronous = NORMAL");
        reveal_strlit("diesel_manage_updated_at");
        text_without_a_letter_is_admissible("PRAGMA synchronous = NORMAL"@, 6);
    }
    "PRAGMA synchronous = NORMAL"
}

/// The statement that removes from the history table the row of the
/// version that is bound to it.
pub fn removal_statement() -> (statement: &'static str)
    ensures
        statement@ == "DELETE FROM __diesel_schema_migrations WHERE version = ?"@,
        script_is_admissible(statement@),
{
    proof {
        reveal_strlit("DELETE FROM __diesel_schema_migrations WHERE version = ?");
        reveal_strlit("diesel_manage_updated_at");
        text_without_a_letter_is_admissible(
            "DELETE FROM __diesel_schema_migrations WHERE version = ?"@,
            15,
        );
    }
    "DELETE FROM __diesel_schema_migrations WHERE version = ?"
}

/// The characters of a text, one by one.
pub fn chars_of(text: &str) -> (chars: Vec<char>)
    ensures
        chars@ == text@,
{
    broadcast use vstd::string::group_string_axioms;

    let mut chars: Vec<char> = Vec::new();
    let mut rest = text.chars();
    assert(chars@ + rest.remaining() =~= text@);
    loop
        invariant
            chars@ + rest.remaining() == text@,
            rest.decrease() is Some,
        ensures
            chars@ == text@,
        decreases rest.decrease()->0,
    {
        let ghost before = rest;
        match rest.next() {
            Some(c) => {
                chars.push(c);
                assert(chars@ + rest.remaining() =~= text@);
            },
            None => {
                assert(chars@ + rest.remaining() =~= chars@);
                break ;
            },
        }
    }
    chars
}

/// Whether `c` is `small` or its capital.
fn is_same_letter(c: char, small: char) -> (same: bool)
    ensures
        same == same_letter(c, small),
{
    c == small || (97 <= small as u32 && small as u32 <= 122 && c as u32 + 32 == small as u32)
}

/// Whether a script may be handed to the store: whether it nowhere holds
/// the reserved name, in any letter case.
pub fn is_admissible(script: &str) -> (admissible: bool)
    ensures
        admissible == script_is_admissible(script@),
{
    let text = chars_of(script);
    let name = chars_of("diesel_manage_updated_at");
    let n: usize = text.len();
    let m: usize = name.len();
    if n < m {
        assert forall|i: int| !names_reserved_at(text@, i) by {}
        return true;
    }
    let mut i: usize = 0;
    while i <= n - m
        invariant
            m <= n,
            n == text@.len(),
            m == name@.len(),
            name@ == reserved_name(),
            text@ == script@,
            i <= n - m + 1,
            forall|k: int| 0 <= k < i ==> !names_reserved_at(text@, k),
        decreases n - m + 1 - i,
    {
        let mut j: usize = 0;
        while j < m && is_same_letter(text[i + j], name[j])
            invariant
                m <= n,
                n == text@.len(),
                m == name@.len(),
                name@ == reserved_name(),
                i <= n - m,
                j <= m,
                forall|k: int| 0 <= k < j ==> same_letter(text@[i + k], #[trigger] name@[k]),
            decreases m - j,
        {
            j = j + 1;
        }
        if j == m {
            assert(names_reserved_at(text@, i as int));
            return false;
        }
        assert(!names_reserved_at(text@, i as int)) by {
            if names_reserved_at(text@, i as int) {
                assert(same_letter(text@[i + j], reserved_name()[j as int]));
            }
        }
        i = i + 1;
    }
    assert forall|k: int| !names_reserved_at(text@, k) by {}
    true
}

} // verus!
