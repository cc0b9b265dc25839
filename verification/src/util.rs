//! Small verified helpers shared across the crate: character counting and
//! separator-freedom predicates used by the identifier parsers, character-level
//! string equality, and decimal parsing for pagination cursors.

use vstd::prelude::*;

use crate::error::InputValidationError;

verus! {

/// A type that carries unvalidated user input. Validation converts it to an
/// output type whose values are all valid, so the rest of the crate can rely
/// on validity by construction; `field` names the input field for the error
/// report when validation fails.
pub trait Validate: Sized {
    type Output;

    fn validate(self, field: &str) -> Result<Self::Output, InputValidationError>;
}

/// Whether `s` contains no occurrence of `sep`.
pub open spec fn free_of(s: Seq<char>, sep: char) -> bool {
    forall|i: int| 0 <= i < s.len() ==> s[i] != sep
}

/// Number of occurrences of `sep` in `s`.
pub open spec fn count_of(s: Seq<char>, sep: char) -> nat
    decreases s.len(),
{
    if s.len() == 0 {
        0
    } else {
        count_of(s.drop_last(), sep) + if s.last() == sep {
            1nat
        } else {
            0nat
        }
    }
}

/// Occurrence counts add up over concatenation.
pub proof fn lemma_count_of_add(a: Seq<char>, b: Seq<char>, sep: char)
    ensures
        count_of(a + b, sep) == count_of(a, sep) + count_of(b, sep),
    decreases b.len(),
{
    if b.len() == 0 {
        assert(a + b =~= a);
    } else {
        lemma_count_of_add(a, b.drop_last(), sep);
        assert((a + b).drop_last() =~= a + b.drop_last());
    }
}

/// A sequence is free of `sep` exactly when its occurrence count is zero.
pub proof fn lemma_free_of_count(s: Seq<char>, sep: char)
    ensures
        free_of(s, sep) <==> count_of(s, sep) == 0,
    decreases s.len(),
{
    if s.len() == 0 {
    } else {
        lemma_free_of_count(s.drop_last(), sep);
        if free_of(s, sep) {
            assert(free_of(s.drop_last(), sep)) by {
                assert(forall|i: int|
                    0 <= i < s.drop_last().len() ==> s.drop_last()[i] == s[i]);
            }
        }
        if count_of(s, sep) == 0 {
            assert(forall|i: int| 0 <= i < s.len() ==> s[i] != sep) by {
                assert(s.last() != sep);
                assert(forall|i: int|
                    0 <= i < s.len() - 1 ==> s[i] == s.drop_last()[i]);
            }
        }
    }
}

/// Character-by-character string equality, proved equivalent to equality of
/// the views.
pub fn str_eq(a: &str, b: &str) -> (r: bool)
    ensures
        r == (a@ == b@),
{
    let a_len = a.unicode_len();
    let b_len = b.unicode_len();
    if a_len != b_len {
        return false;
    }
    let mut i: usize = 0;
    while i < a_len
        invariant
            i <= a_len,
            a_len == a@.len(),
            a_len == b@.len(),
            forall|j: int| 0 <= j < i ==> a@[j] == b@[j],
        decreases a_len - i,
    {
        if a.get_char(i) != b.get_char(i) {
            return false;
        }
        i += 1;
    }
    proof {
        assert(a@ =~= b@);
    }
    true
}

/// Split `s` at its two occurrences of `sep` into three parts. Succeeds
/// exactly when `sep` occurs exactly twice; the parts are then free of the
/// separator and reassemble to the input.
pub fn split3(s: &str, sep: char) -> (r: Option<(String, String, String)>)
    ensures
        match r {
            Some(parts) => {
                &&& count_of(s@, sep) == 2
                &&& free_of(parts.0@, sep)
                &&& free_of(parts.1@, sep)
                &&& free_of(parts.2@, sep)
                &&& s@ == parts.0@ + seq![sep] + parts.1@ + seq![sep] + parts.2@
            },
            None => count_of(s@, sep) != 2,
        },
{
    let n = s.unicode_len();
    let mut i: usize = 0;
    let mut count: usize = 0;
    let mut c1: usize = 0;
    let mut c2: usize = 0;
    while i < n
        invariant
            i <= n,
            count <= i,
            n == s@.len(),
            count == count_of(s@.take(i as int), sep),
            count == 0 ==> forall|j: int| 0 <= j < i ==> s@[j] != sep,
            count == 1 ==> c1 < i && s@[c1 as int] == sep && forall|j: int|
                0 <= j < i && s@[j] == sep ==> j == c1,
            count >= 2 ==> c1 < c2 < i && s@[c1 as int] == sep && s@[c2 as int] == sep,
            count == 2 ==> forall|j: int|
                0 <= j < i && s@[j] == sep ==> j == c1 || j == c2,
        decreases n - i,
    {
        proof {
            assert(s@.take(i + 1).drop_last() =~= s@.take(i as int));
        }
        if s.get_char(i) == sep {
            if count == 0 {
                c1 = i;
            } else if count == 1 {
                c2 = i;
            }
            count += 1;
        }
        i += 1;
    }
    proof {
        assert(s@.take(n as int) =~= s@);
    }
    if count != 2 {
        return None;
    }
    let first = s.substring_char(0, c1).to_owned();
    let second = s.substring_char(c1 + 1, c2).to_owned();
    let third = s.substring_char(c2 + 1, n).to_owned();
    proof {
        assert(free_of(first@, sep)) by {
            assert(forall|j: int| 0 <= j < first@.len() ==> first@[j] == s@[j]);
        }
        assert(free_of(second@, sep)) by {
            assert(forall|j: int| 0 <= j < second@.len() ==> second@[j] == s@[c1 + 1 + j]);
        }
        assert(free_of(third@, sep)) by {
            assert(forall|j: int| 0 <= j < third@.len() ==> third@[j] == s@[c2 + 1 + j]);
        }
        assert(s@ =~= first@ + seq![sep] + second@ + seq![sep] + third@);
    }
    Some((first, second, third))
}

/// The numeric value of a decimal digit character; any non-digit maps to 10.
pub open spec fn digit_of(c: char) -> nat {
    match c {
        '0' => 0,
        '1' => 1,
        '2' => 2,
        '3' => 3,
        '4' => 4,
        '5' => 5,
        '6' => 6,
        '7' => 7,
        '8' => 8,
        '9' => 9,
        _ => 10,
    }
}

/// Whether `c` is a decimal digit.
pub open spec fn is_digit(c: char) -> bool {
    digit_of(c) < 10
}

/// Whether every character of `s` is a decimal digit.
pub open spec fn all_digits(s: Seq<char>) -> bool {
    forall|i: int| 0 <= i < s.len() ==> is_digit(s[i])
}

/// The value of `s` read as a decimal numeral.
pub open spec fn dec_val(s: Seq<char>) -> nat
    decreases s.len(),
{
    if s.len() == 0 {
        0
    } else {
        dec_val(s.drop_last()) * 10 + digit_of(s.last())
    }
}

/// Reading more digits never decreases the value of a numeral prefix.
pub proof fn lemma_dec_val_take_grows(s: Seq<char>, i: int, j: int)
    requires
        0 <= i <= j <= s.len(),
    ensures
        dec_val(s.take(i)) <= dec_val(s.take(j)),
    decreases j - i,
{
    if i < j {
        lemma_dec_val_take_grows(s, i, j - 1);
        assert(s.take(j).drop_last() =~= s.take(j - 1));
        assert(dec_val(s.take(j)) == dec_val(s.take(j - 1)) * 10 + digit_of(
            s.take(j).last(),
        ));
    } else {
        assert(s.take(i) =~= s.take(j));
    }
}

fn digit_value(c: char) -> (r: Option<u8>)
    ensures
        match r {
            Some(d) => is_digit(c) && d == digit_of(c),
            None => !is_digit(c),
        },
{
    match c {
        '0' => Some(0),
        '1' => Some(1),
        '2' => Some(2),
        '3' => Some(3),
        '4' => Some(4),
        '5' => Some(5),
        '6' => Some(6),
        '7' => Some(7),
        '8' => Some(8),
        '9' => Some(9),
        _ => None,
    }
}

fn digit_str(d: usize) -> (r: &'static str)
    requires
        d < 10,
    ensures
        r@.len() == 1,
        digit_of(r@[0]) == d,
{
    proof {
        reveal_strlit("0");
        reveal_strlit("1");
        reveal_strlit("2");
        reveal_strlit("3");
        reveal_strlit("4");
        reveal_strlit("5");
        reveal_strlit("6");
        reveal_strlit("7");
        reveal_strlit("8");
        reveal_strlit("9");
    }
    match d {
        0 => "0",
        1 => "1",
        2 => "2",
        3 => "3",
        4 => "4",
        5 => "5",
        6 => "6",
        7 => "7",
        8 => "8",
        _ => "9",
    }
}

/// Render `n` as a decimal numeral; the exact inverse of [`parse_usize`] on
/// its range.
pub fn format_usize(n: usize) -> (r: String)
    ensures
        r@.len() >= 1,
        all_digits(r@),
        dec_val(r@) == n,
    decreases n,
{
    if n < 10 {
        let r = digit_str(n).to_owned();
        proof {
            assert(r@.drop_last() =~= Seq::<char>::empty());
            assert(dec_val(r@) == dec_val(Seq::<char>::empty()) * 10 + digit_of(r@.last()));
        }
        r
    } else {
        let mut s = format_usize(n / 10);
        let ghost prefix = s@;
        s.append(digit_str(n % 10));
        proof {
            assert(s@.drop_last() =~= prefix);
            assert(dec_val(s@) == dec_val(prefix) * 10 + digit_of(s@.last()));
        }
        s
    }
}

/// Parse a non-empty all-digit string as a `usize`, rejecting anything else
/// and any value that does not fit.
pub fn parse_usize(s: &str) -> (r: Option<usize>)
    ensures
        match r {
            Some(v) => s@.len() > 0 && all_digits(s@) && v == dec_val(s@),
            None => s@.len() == 0 || !all_digits(s@) || dec_val(s@) > usize::MAX,
        },
{
    let n = s.unicode_len();
    if n == 0 {
        return None;
    }
    let mut acc: usize = 0;
    let mut i: usize = 0;
    while i < n
        invariant
            i <= n,
            n == s@.len(),
            all_digits(s@.take(i as int)),
            acc == dec_val(s@.take(i as int)),
        decreases n - i,
    {
        let c = s.get_char(i);
        let d = match digit_value(c) {
            Some(d) => d,
            None => {
                proof {
                    assert(!is_digit(s@[i as int]));
                }
                return None;
            },
        };
        proof {
            assert(s@.take(i + 1).drop_last() =~= s@.take(i as int));
        }
        let next = match acc.checked_mul(10) {
            Some(m) => m.checked_add(d as usize),
            None => None,
        };
        acc = match next {
            Some(v) => v,
            None => {
                proof {
                    assert(dec_val(s@.take(i + 1)) > usize::MAX);
                    lemma_dec_val_take_grows(s@, i + 1, s@.len() as int);
                    assert(s@.take(s@.len() as int) =~= s@);
                }
                return None;
            },
        };
        i += 1;
    }
    proof {
        assert(s@.take(n as int) =~= s@);
    }
    Some(acc)
}

} // verus!
