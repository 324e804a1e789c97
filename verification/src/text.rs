//! Small verified string utilities: slice equality, a prefix test for
//! command syntax, and the validity check for numeric answers.

use vstd::prelude::*;
use vstd::string::StrSliceExecFns;

verus! {

/// Character-for-character equality of two string slices.
pub fn str_eq(a: &str, b: &str) -> (r: bool)
    ensures
        r == (a@ == b@),
{
    let na = a.unicode_len();
    let nb = b.unicode_len();
    if na != nb {
        return false;
    }
    let mut i: usize = 0;
    while i < na
        invariant
            na == a@.len(),
            na == b@.len(),
            i <= na,
            forall|j: int| 0 <= j < i ==> a@[j] == b@[j],
        decreases na - i,
    {
        if a.get_char(i) != b.get_char(i) {
            return false;
        }
        i = i + 1;
    }
    proof {
        assert(a@ =~= b@);
    }
    true
}

/// Whether the text is command syntax: non-empty and starting with `/`.
pub open spec fn spec_is_command(s: Seq<char>) -> bool {
    s.len() > 0 && s[0] == '/'
}

/// Tests whether a message text is command syntax (starts with `/`).
pub fn is_command_text(s: &str) -> (r: bool)
    ensures
        r == spec_is_command(s@),
{
    if s.unicode_len() == 0 {
        return false;
    }
    s.get_char(0) == '/'
}

/// Whether the character is a decimal digit.
pub open spec fn is_digit_char(c: char) -> bool {
    48 <= c as int && c as int <= 57
}

/// The numeric value of a decimal digit character.
pub open spec fn digit_val(c: char) -> int {
    c as int - 48
}

/// Whether every character of the sequence is a decimal digit.
pub open spec fn all_digits(s: Seq<char>) -> bool {
    forall|i: int| 0 <= i < s.len() ==> is_digit_char(#[trigger] s[i])
}

/// The value of a digit sequence read in base ten.
pub open spec fn digits_value(s: Seq<char>) -> int
    decreases s.len(),
{
    if s.len() == 0 {
        0
    } else {
        digits_value(s.drop_last()) * 10 + digit_val(s.last())
    }
}

/// A digit sequence's value is non-negative.
pub proof fn lemma_digits_value_nonneg(s: Seq<char>)
    requires
        all_digits(s),
    ensures
        digits_value(s) >= 0,
    decreases s.len(),
{
    if s.len() > 0 {
        assert(all_digits(s.drop_last())) by {
            assert(forall|i: int|
                0 <= i < s.len() - 1 ==> is_digit_char(#[trigger] s.drop_last()[i]));
        }
        lemma_digits_value_nonneg(s.drop_last());
    }
}

/// Reading more digits never shrinks the value: the value of a prefix is a
/// lower bound on the value of the whole sequence.
pub proof fn lemma_digits_value_prefix_le(s: Seq<char>, k: int)
    requires
        all_digits(s),
        0 <= k <= s.len(),
    ensures
        digits_value(s.take(k)) <= digits_value(s),
    decreases s.len() - k,
{
    if k < s.len() {
        lemma_digits_value_prefix_le(s, k + 1);
        let p = s.take(k + 1);
        assert(p.drop_last() =~= s.take(k));
        assert(digits_value(p) == digits_value(s.take(k)) * 10 + digit_val(p.last()));
        lemma_digits_value_take_digits(s, k);
        lemma_digits_value_nonneg(s.take(k));
        assert(digits_value(s.take(k)) * 10 >= digits_value(s.take(k)));
    } else {
        assert(s.take(k) =~= s);
    }
}

/// Every prefix of a digit sequence is itself a digit sequence.
pub proof fn lemma_digits_value_take_digits(s: Seq<char>, k: int)
    requires
        all_digits(s),
        0 <= k <= s.len(),
    ensures
        all_digits(s.take(k)),
{
    assert(forall|i: int| 0 <= i < k ==> is_digit_char(#[trigger] s.take(k)[i]));
}

/// The digit part of a candidate number: everything after an optional
/// leading sign.
pub open spec fn number_digits(s: Seq<char>) -> Seq<char> {
    if s.len() > 0 && (s[0] == '+' || s[0] == '-') {
        s.drop_first()
    } else {
        s
    }
}

/// Whether the text parses as a 32-bit signed integer: an optional sign,
/// at least one digit, nothing else, and a value within the `i32` range.
pub open spec fn spec_is_i32(s: Seq<char>) -> bool {
    let digits = number_digits(s);
    let negative = s.len() > 0 && s[0] == '-';
    &&& digits.len() > 0
    &&& all_digits(digits)
    &&& digits_value(digits) <= if negative {
        0x8000_0000int
    } else {
        0x7fff_ffffint
    }
}

/// Tests whether an answer text is a well-formed 32-bit integer, the
/// validity rule for `number`-type questions.
pub fn is_valid_number(s: &str) -> (r: bool)
    ensures
        r == spec_is_i32(s@),
{
    let n = s.unicode_len();
    if n == 0 {
        return false;
    }
    let first = s.get_char(0);
    let has_sign = first == '+' || first == '-';
    let start: usize = if has_sign { 1 } else { 0 };
    let ghost digits = number_digits(s@);
    proof {
        assert(digits =~= s@.subrange(start as int, n as int));
    }
    if start == n {
        return false;
    }
    let limit: u64 = if first == '-' { 0x8000_0000 } else { 0x7fff_ffff };
    let mut acc: u64 = 0;
    let mut i: usize = start;
    while i < n
        invariant
            n == s@.len(),
            start <= i <= n,
            start <= 1,
            n > start,
            digits == number_digits(s@),
            digits =~= s@.subrange(start as int, n as int),
            limit <= 0x8000_0000,
            limit == (if s@[0] == '-' { 0x8000_0000int } else { 0x7fff_ffffint }),
            has_sign == (s@[0] == '+' || s@[0] == '-'),
            start == (if has_sign { 1int } else { 0int }),
            acc <= limit,
            all_digits(digits.take(i - start)),
            acc == digits_value(digits.take(i - start)),
        decreases n - i,
    {
        let c = s.get_char(i);
        let cv = c as u32;
        if cv < 48 || cv > 57 {
            proof {
                assert(digits[i - start] == s@[i as int]);
                assert(!is_digit_char(digits[i - start]));
            }
            return false;
        }
        proof {
            assert(digits.take(i - start).push(s@[i as int]) =~= digits.take(i + 1 - start));
            assert(digits.take(i + 1 - start).drop_last() =~= digits.take(i - start));
        }
        let d: u64 = (cv - 48) as u64;
        acc = acc * 10 + d;
        i = i + 1;
        if acc > limit {
            proof {
                let k = i - start;
                lemma_digits_value_nonneg(digits.take(k));
                if all_digits(digits) {
                    lemma_digits_value_prefix_le(digits, k);
                    assert(digits_value(digits) >= acc > limit);
                }
            }
            return false;
        }
    }
    proof {
        assert(digits.take(n - start) =~= digits);
    }
    true
}

} // verus!
