//! Validation of the interactive device selection. A single candidate is
//! selected outright; with several, each entered line is validated here: it
//! must be a number within the 1-based candidate range, and anything else is
//! rejected so the prompt repeats. Reading the lines is outside the library.

use vstd::prelude::*;

verus! {

/// The byte is ASCII whitespace, as trimmed off an entered line.
pub open spec fn is_ws(b: u8) -> bool {
    b == 32 || 9 <= b <= 13
}

/// The byte is an ASCII decimal digit.
pub open spec fn is_digit(b: u8) -> bool {
    48 <= b <= 57
}

/// Every byte of the sequence is an ASCII decimal digit.
pub open spec fn all_digits(s: Seq<u8>) -> bool {
    forall|i: int| 0 <= i < s.len() ==> is_digit(#[trigger] s[i])
}

/// The sequence with leading whitespace removed.
pub open spec fn trim_start_spec(s: Seq<u8>) -> Seq<u8>
    decreases s.len(),
{
    if s.len() > 0 && is_ws(s[0]) {
        trim_start_spec(s.drop_first())
    } else {
        s
    }
}

/// The sequence with trailing whitespace removed.
pub open spec fn trim_end_spec(s: Seq<u8>) -> Seq<u8>
    decreases s.len(),
{
    if s.len() > 0 && is_ws(s.last()) {
        trim_end_spec(s.drop_last())
    } else {
        s
    }
}

/// The sequence with surrounding whitespace removed.
pub open spec fn trim_spec(s: Seq<u8>) -> Seq<u8> {
    trim_end_spec(trim_start_spec(s))
}

/// The digit part of a trimmed entry: an optional leading plus sign is
/// accepted before the digits, as the decimal number syntax has it.
pub open spec fn numeric_body(t: Seq<u8>) -> Seq<u8> {
    if t.len() > 0 && t[0] == 43 {
        t.drop_first()
    } else {
        t
    }
}

/// The value of a digit sequence read as a decimal number.
pub open spec fn digits_value(s: Seq<u8>) -> int
    decreases s.len(),
{
    if s.len() == 0 {
        0
    } else {
        digits_value(s.drop_last()) * 10 + (s.last() - 48)
    }
}

/// What an entered line parses to: the decimal value of its trimmed digits,
/// or nothing when the line is empty, holds a non-digit, or overflows the
/// machine's word.
pub open spec fn parse_usize_spec(s: Seq<u8>) -> Option<int> {
    let d = numeric_body(trim_spec(s));
    if d.len() > 0 && all_digits(d) && digits_value(d) <= usize::MAX as int {
        Some(digits_value(d))
    } else {
        None
    }
}

/// What an entered line selects: its numeric value when the line is numeric
/// and the value lies within the inclusive range, nothing otherwise.
pub open spec fn selection_spec(s: Seq<u8>, min: int, max: int) -> Option<int> {
    match parse_usize_spec(s) {
        Some(v) => if min <= v <= max {
            Some(v)
        } else {
            None
        },
        None => None,
    }
}

/// Nonnegativity of a digit sequence's value.
proof fn lemma_digits_value_nonneg(s: Seq<u8>)
    requires
        all_digits(s),
    ensures
        digits_value(s) >= 0,
    decreases s.len(),
{
    if s.len() > 0 {
        assert(all_digits(s.drop_last()));
        lemma_digits_value_nonneg(s.drop_last());
    }
}

/// A digit sequence's value dominates the value of each of its prefixes.
proof fn lemma_digits_value_prefix(s: Seq<u8>, j: int)
    requires
        all_digits(s),
        0 <= j <= s.len(),
    ensures
        digits_value(s.take(j)) <= digits_value(s),
    decreases s.len(),
{
    if j == s.len() {
        assert(s.take(j) =~= s);
    } else {
        assert(all_digits(s.drop_last()));
        assert(s.take(j) =~= s.drop_last().take(j));
        lemma_digits_value_prefix(s.drop_last(), j);
        lemma_digits_value_nonneg(s.drop_last());
    }
}

/// Leading whitespace up to the first non-whitespace index is exactly what
/// trimming from the start removes.
proof fn lemma_trim_start(s: Seq<u8>, a: int)
    requires
        0 <= a <= s.len(),
        forall|j: int| 0 <= j < a ==> is_ws(#[trigger] s[j]),
        a < s.len() ==> !is_ws(s[a]),
    ensures
        trim_start_spec(s) == s.skip(a),
    decreases a,
{
    if a == 0 {
        assert(s.skip(0) =~= s);
    } else {
        assert(is_ws(s[0]));
        let t = s.drop_first();
        assert forall|j: int| 0 <= j < a - 1 implies is_ws(#[trigger] t[j]) by {
            assert(t[j] == s[j + 1]);
        }
        assert(a - 1 < t.len() ==> !is_ws(t[a - 1]));
        lemma_trim_start(t, a - 1);
        assert(t.skip(a - 1) =~= s.skip(a));
    }
}

/// Trailing whitespace from the last non-whitespace index on is exactly what
/// trimming from the end removes.
proof fn lemma_trim_end(s: Seq<u8>, b: int)
    requires
        0 <= b <= s.len(),
        forall|j: int| b <= j < s.len() ==> is_ws(#[trigger] s[j]),
        b > 0 ==> !is_ws(s[b - 1]),
    ensures
        trim_end_spec(s) == s.take(b),
    decreases s.len(),
{
    if b == s.len() {
        assert(s.take(b) =~= s);
    } else {
        assert(is_ws(s.last()));
        lemma_trim_end(s.drop_last(), b);
        assert(s.drop_last().take(b) =~= s.take(b));
    }
}

/// Decides whether a byte is ASCII whitespace.
fn byte_is_ws(b: u8) -> (r: bool)
    ensures
        r == is_ws(b),
{
    b == 32 || 9 <= b && b <= 13
}

/// Validates one entered selection line against the inclusive range
/// `[min, max]`: the trimmed line must be a decimal number (an optional plus
/// sign before one or more digits) whose value lies in the range. Anything
/// else — an empty line, a non-numeric line, an overflowing number, a value
/// outside the range — selects nothing, so the prompt repeats.
pub fn parse_selection(input: &[u8], min: usize, max: usize) -> (r: Option<usize>)
    ensures
        match r {
            Some(v) => selection_spec(input@, min as int, max as int) == Some(v as int) && min <= v
                <= max,
            None => selection_spec(input@, min as int, max as int) is None,
        },
{
    let n = input.len();
    let mut a: usize = 0;
    while a < n && byte_is_ws(input[a])
        invariant
            a <= n,
            n == input@.len(),
            forall|j: int| 0 <= j < a ==> is_ws(#[trigger] input@[j]),
        decreases n - a,
    {
        a += 1;
    }
    let mut b: usize = n;
    while b > a && byte_is_ws(input[b - 1])
        invariant
            a <= b <= n,
            n == input@.len(),
            forall|j: int| 0 <= j < a ==> is_ws(#[trigger] input@[j]),
            forall|j: int| b <= j < n ==> is_ws(#[trigger] input@[j]),
        decreases b,
    {
        b -= 1;
    }
    proof {
        lemma_trim_start(input@, a as int);
        let t = input@.skip(a as int);
        assert forall|j: int| b - a <= j < t.len() implies is_ws(#[trigger] t[j]) by {
            assert(t[j] == input@[j + a]);
        }
        if b > a {
            assert(t[b - a - 1] == input@[b - 1]);
        }
        lemma_trim_end(t, b - a);
        assert(t.take(b - a) =~= input@.subrange(a as int, b as int));
        assert(trim_spec(input@) == input@.subrange(a as int, b as int));
    }
    if b <= a {
        // the trimmed line is empty
        return None;
    }
    let mut i = a;
    if input[i] == 43 {
        i += 1;
    }
    proof {
        assert(numeric_body(trim_spec(input@)) =~= input@.subrange(i as int, b as int));
    }
    let ghost digits: Seq<u8> = input@.subrange(i as int, b as int);
    if i >= b {
        // a plus sign alone carries no digits
        return None;
    }
    let mut val: usize = 0;
    let mut k = i;
    while k < b
        invariant
            i <= k <= b <= n,
            n == input@.len(),
            digits == input@.subrange(i as int, b as int),
            digits == numeric_body(trim_spec(input@)),
            digits.len() == b - i,
            all_digits(digits.take(k - i)),
            val == digits_value(digits.take(k - i)),
        decreases b - k,
    {
        let c = input[k];
        proof {
            assert(digits[k - i] == input@[k as int]);
            assert(digits.take(k - i + 1).drop_last() =~= digits.take(k - i));
            assert(digits.take(k - i + 1).last() == digits[k - i]);
        }
        if !(48 <= c && c <= 57) {
            proof {
                assert(!is_digit(digits[k - i]));
            }
            return None;
        }
        let d = (c - 48) as usize;
        if val > (usize::MAX - d) / 10 {
            proof {
                let w = usize::MAX as int;
                assert(val * 10 + d > w) by (nonlinear_arith)
                    requires
                        val > (w - d) / 10,
                        0 <= d <= 9,
                        w >= 10,
                        val >= 0,
                ;
                if all_digits(digits) {
                    lemma_digits_value_prefix(digits, k - i + 1);
                    assert(digits_value(digits.take(k - i + 1)) == val * 10 + d);
                }
            }
            return None;
        }
        proof {
            let w = usize::MAX as int;
            assert(val * 10 + d <= w) by (nonlinear_arith)
                requires
                    val <= (w - d) / 10,
                    0 <= d <= 9,
                    w >= 10,
                    val >= 0,
            ;
        }
        val = val * 10 + d;
        k += 1;
    }
    proof {
        assert(digits.take(b - i) =~= digits);
    }
    if val < min || max < val {
        return None;
    }
    Some(val)
}

/// When exactly one candidate exists, it is selected outright — index 1,
/// with no prompt and no read; with any other count, interactive selection
/// is required and nothing is selected here.
pub fn select_index_if_single(count: usize) -> (r: Option<usize>)
    ensures
        count == 1 ==> r == Some(1usize),
        count != 1 ==> r is None,
{
    if count == 1 {
        Some(1)
    } else {
        None
    }
}

} // verus!
