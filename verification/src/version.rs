//! Migration versions are unsigned integers. In the history table each is
//! kept as its canonical decimal text: no sign, no padding, no leading zero.

use vstd::prelude::*;
use vstd::string::*;

verus! {

/// The character that writes the digit `d`.
pub open spec fn digit_char(d: nat) -> char {
    if d == 0 {
        '0'
    } else if d == 1 {
        '1'
    } else if d == 2 {
        '2'
    } else if d == 3 {
        '3'
    } else if d == 4 {
        '4'
    } else if d == 5 {
        '5'
    } else if d == 6 {
        '6'
    } else if d == 7 {
        '7'
    } else if d == 8 {
        '8'
    } else {
        '9'
    }
}

/// The digit that `c` writes, if it writes one.
pub open spec fn digit_value(c: char) -> Option<nat> {
    if c == '0' {
        Some(0nat)
    } else if c == '1' {
        Some(1nat)
    } else if c == '2' {
        Some(2nat)
    } else if c == '3' {
        Some(3nat)
    } else if c == '4' {
        Some(4nat)
    } else if c == '5' {
        Some(5nat)
    } else if c == '6' {
        Some(6nat)
    } else if c == '7' {
        Some(7nat)
    } else if c == '8' {
        Some(8nat)
    } else if c == '9' {
        Some(9nat)
    } else {
        None
    }
}

/// The canonical decimal text of `n`.
pub open spec fn decimal(n: nat) -> Seq<char>
    decreases n,
{
    if n < 10 {
        seq![digit_char(n)]
    } else {
        decimal(n / 10).push(digit_char(n % 10))
    }
}

/// Every character of `text` writes a digit.
pub open spec fn all_digits(text: Seq<char>) -> bool {
    forall|i: int| 0 <= i < text.len() ==> (#[trigger] digit_value(text[i])) is Some
}

/// The number that a run of digits writes, leading zeros allowed; a
/// character that is no digit counts as zero.
pub open spec fn digits_value(text: Seq<char>) -> nat
    decreases text.len(),
{
    if text.len() == 0 {
        0
    } else {
        let last = match digit_value(text.last()) {
            Some(d) => d,
            None => 0nat,
        };
        digits_value(text.drop_last()) * 10 + last
    }
}

/// The version that `text` stands for: the one whose canonical decimal text
/// it is, if there is one.
pub open spec fn version_of_text(text: Seq<char>) -> Option<u64> {
    if exists|v: u64| decimal(v as nat) == text {
        Some(choose|v: u64| decimal(v as nat) == text)
    } else {
        None
    }
}

/// A canonical decimal text holds digits only.
pub proof fn decimal_is_digits(n: nat)
    ensures
        all_digits(decimal(n)),
        decimal(n).len() >= 1,
    decreases n,
{
    if n >= 10 {
        decimal_is_digits(n / 10);
    }
}

/// Reading a canonical decimal text gives the number back.
pub proof fn decimal_reads_back(n: nat)
    ensures
        digits_value(decimal(n)) == n,
    decreases n,
{
    if n < 10 {
        assert(decimal(n).drop_last() =~= Seq::<char>::empty());
        assert(digits_value(decimal(n).drop_last()) == 0);
    } else {
        decimal_reads_back(n / 10);
        assert(decimal(n).drop_last() =~= decimal(n / 10));
        assert(decimal(n).last() == digit_char(n % 10));
    }
}

/// Two numbers with the same canonical decimal text are the same number.
pub proof fn decimal_is_injective(a: nat, b: nat)
    requires
        decimal(a) == decimal(b),
    ensures
        a == b,
{
    decimal_reads_back(a);
    decimal_reads_back(b);
}

/// `version_of_text` undoes `decimal` on every version.
pub proof fn version_text_round_trip(version: u64)
    ensures
        version_of_text(decimal(version as nat)) == Some(version),
{
    let text = decimal(version as nat);
    let found = choose|v: u64| decimal(v as nat) == text;
    decimal_is_injective(found as nat, version as nat);
}

/// A run of digits writes at least what any of its prefixes writes.
proof fn prefix_value_is_smaller(text: Seq<char>, k: int)
    requires
        0 <= k <= text.len(),
    ensures
        digits_value(text.take(k)) <= digits_value(text),
    decreases text.len() - k,
{
    if k == text.len() {
        assert(text.take(k) =~= text);
    } else {
        prefix_value_is_smaller(text.drop_last(), k);
        assert(text.drop_last().take(k) =~= text.take(k));
    }
}

/// The one-character text of a digit.
fn digit_text(d: u64) -> (text: &'static str)
    requires
        d < 10,
    ensures
        text@ == seq![digit_char(d as nat)],
{
    proof {
        reveal_strlit("0");
        reveal_strlit("1");
        reveal_strlit("2");
        reveal_strlit("3");
        reveal_strlit("4");
        reveal_strlit("5");
        reveal_strlit("6");
        reveal_strlit("7");
        reveal_strlit("8");
        reveal_strlit("9");
    }
    let text = if d == 0 {
        "0"
    } else if d == 1 {
        "1"
    } else if d == 2 {
        "2"
    } else if d == 3 {
        "3"
    } else if d == 4 {
        "4"
    } else if d == 5 {
        "5"
    } else if d == 6 {
        "6"
    } else if d == 7 {
        "7"
    } else if d == 8 {
        "8"
    } else {
        "9"
    };
    assert(text@ =~= seq![digit_char(d as nat)]);
    text
}

/// The digit that a character writes.
fn digit_of(c: char) -> (d: Option<u64>)
    ensures
        match d {
            Some(d) => digit_value(c) == Some(d as nat) && d < 10,
            None => digit_value(c) is None,
        },
{
    if c == '0' {
        Some(0)
    } else if c == '1' {
        Some(1)
    } else if c == '2' {
        Some(2)
    } else if c == '3' {
        Some(3)
    } else if c == '4' {
        Some(4)
    } else if c == '5' {
        Some(5)
    } else if c == '6' {
        Some(6)
    } else if c == '7' {
        Some(7)
    } else if c == '8' {
        Some(8)
    } else if c == '9' {
        Some(9)
    } else {
        None
    }
}

/// Writes a version as the history table keeps it.
pub fn version_text(version: u64) -> (text: String)
    ensures
        text@ == decimal(version as nat),
    decreases version,
{
    if version < 10 {
        String::from_str(digit_text(version))
    } else {
        let mut text = version_text(version / 10);
        text.append(digit_text(version % 10));
        assert(text@ =~= decimal(version as nat));
        text
    }
}

/// Reads a version from a text of the history table. Only the canonical
/// decimal text of a version is accepted: `"7"` is a version, and `"07"`,
/// `"+7"`, `""` and a number above `u64::MAX` are not.
pub fn parse_version(text: &str) -> (version: Option<u64>)
    ensures
        version == version_of_text(text@),
{
    let n: usize = text.unicode_len();
    let mut value: u64 = 0;
    let mut i: usize = 0;
    while i < n
        invariant
            n == text@.len(),
            0 <= i <= n,
            value == digits_value(text@.take(i as int)),
        decreases n - i,
    {
        let c: char = text.get_char(i);
        let ghost longer = text@.take(i + 1);
        assert(longer.drop_last() =~= text@.take(i as int));
        assert(longer.last() == c);
        match digit_of(c) {
            None => {
                proof {
                    assert forall|v: u64| decimal(v as nat) != text@ by {
                        decimal_is_digits(v as nat);
                        if decimal(v as nat) == text@ {
                            assert(digit_value(text@[i as int]) is Some);
                        }
                    }
                }
                return None;
            },
            Some(d) => {
                if value > (u64::MAX - d) / 10 {
                    proof {
                        assert(digits_value(longer) == value * 10 + d);
                        prefix_value_is_smaller(text@, i + 1);
                        assert forall|v: u64| decimal(v as nat) != text@ by {
                            decimal_reads_back(v as nat);
                        }
                    }
                    return None;
                }
                value = value * 10 + d;
            },
        }
        i = i + 1;
    }
    assert(text@.take(n as int) =~= text@);
    let written = version_text(value);
    if written == String::from_str(text) {
        proof {
            decimal_is_injective(
                value as nat,
                (choose|v: u64| decimal(v as nat) == text@) as nat,
            );
        }
        Some(value)
    } else {
        proof {
            assert forall|v: u64| decimal(v as nat) != text@ by {
                decimal_reads_back(v as nat);
            }
        }
        None
    }
}

} // verus!
