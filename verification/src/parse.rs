//! The input-coercion policy: menu input is parsed into the target numeric
//! type, and any input the policy rejects is silently replaced by the
//! field's fixed default, so that no entry ever blocks the menu loop.
//!
//! Mark quantities accept a fixed-point literal: one to thirteen integer
//! digits, optionally followed by a point and one to three fraction digits,
//! read in thousandths of a mark. Counts and indices accept plain digit
//! runs. Anything else — and any value out of range, a zero where a positive
//! value is needed included — falls back to the default.

use vstd::prelude::*;

use crate::record::MARKS_LIMIT_MILLI;

verus! {

/// A decimal digit, by code point.
pub open spec fn is_digit(c: char) -> bool {
    48 <= c as int <= 57
}

/// The numeric value of a decimal digit.
pub open spec fn digit_of(c: char) -> nat {
    (c as int - 48) as nat
}

/// Every character of `s` is a decimal digit.
pub open spec fn all_digits(s: Seq<char>) -> bool {
    forall|i: int| 0 <= i < s.len() ==> is_digit(#[trigger] s[i])
}

/// The value of a digit run read as a decimal numeral.
pub open spec fn digits_val(s: Seq<char>) -> nat
    decreases s.len(),
{
    if s.len() == 0 {
        0
    } else {
        digits_val(s.drop_last()) * 10 + digit_of(s.last())
    }
}

pub open spec fn pow10(n: nat) -> nat
    decreases n,
{
    if n == 0 {
        1
    } else {
        10 * pow10((n - 1) as nat)
    }
}

pub proof fn lemma_pow10_mono(a: nat, b: nat)
    requires
        a <= b,
    ensures
        pow10(a) <= pow10(b),
    decreases b,
{
    if a < b {
        lemma_pow10_mono(a, (b - 1) as nat);
    }
}

/// A digit run of length `n` has value below `10^n`.
pub proof fn lemma_digits_val_bound(s: Seq<char>)
    requires
        all_digits(s),
    ensures
        digits_val(s) < pow10(s.len()),
    decreases s.len(),
{
    if s.len() > 0 {
        assert(forall|i: int|
            0 <= i < s.drop_last().len() ==> is_digit(#[trigger] s.drop_last()[i]));
        lemma_digits_val_bound(s.drop_last());
    }
}

/// The fixed-point literal shape, with the point (or the end) at `p`: one to
/// thirteen integer digits, then optionally '.' and one to three fraction
/// digits.
pub open spec fn fixed_shape_at(s: Seq<char>, p: int) -> bool {
    &&& 1 <= p <= 13
    &&& p <= s.len()
    &&& forall|i: int| 0 <= i < p ==> is_digit(#[trigger] s[i])
    &&& (p < s.len() ==> {
        &&& s[p] == '.'
        &&& p + 2 <= s.len() <= p + 4
        &&& forall|i: int| p < i < s.len() ==> is_digit(#[trigger] s[i])
    })
}

/// `s` is a fixed-point literal the policy accepts in shape.
pub open spec fn fixed_shape(s: Seq<char>) -> bool {
    exists|p: int| #[trigger] fixed_shape_at(s, p)
}

/// The fraction digits scaled to thousandths: one digit is hundreds of a
/// thousandth and so on.
pub open spec fn frac_scaled(f: Seq<char>) -> nat
    recommends
        1 <= f.len() <= 3,
{
    if f.len() == 1 {
        digits_val(f) * 100
    } else if f.len() == 2 {
        digits_val(f) * 10
    } else {
        digits_val(f)
    }
}

/// The value, in thousandths of a mark, of a fixed-point literal whose point
/// (or end) is at `p`.
pub open spec fn fixed_value_at(s: Seq<char>, p: int) -> nat {
    digits_val(s.subrange(0, p)) * 1000 + if p == s.len() {
        0
    } else {
        frac_scaled(s.subrange(p + 1, s.len() as int))
    }
}

/// The value, in thousandths of a mark, of an accepted fixed-point literal.
pub open spec fn fixed_value(s: Seq<char>) -> nat {
    fixed_value_at(s, choose|p: int| fixed_shape_at(s, p))
}

/// The literal shape determines where its point is: two positions cannot
/// both satisfy it.
pub proof fn lemma_fixed_shape_at_unique(s: Seq<char>, p1: int, p2: int)
    requires
        fixed_shape_at(s, p1),
        fixed_shape_at(s, p2),
    ensures
        p1 == p2,
{
    if p1 < p2 {
        assert(s[p1] == '.');
        assert(is_digit(s[p1]));
        assert(false);
    } else if p2 < p1 {
        assert(s[p2] == '.');
        assert(is_digit(s[p2]));
        assert(false);
    }
}

/// If the literal shape holds at all, it holds at the first point position
/// (the length when there is none).
pub proof fn lemma_shape_is_at_first_dot(s: Seq<char>, p: int)
    requires
        0 <= p <= s.len(),
        p < s.len() ==> s[p] == '.',
        forall|i: int| 0 <= i < p ==> #[trigger] s[i] != '.',
        fixed_shape(s),
    ensures
        fixed_shape_at(s, p),
        fixed_value(s) == fixed_value_at(s, p),
{
    let q = choose|q: int| fixed_shape_at(s, q);
    if q < p {
        assert(s[q] == '.');
        assert(false);
    } else if p < q {
        assert(is_digit(s[p]));
        assert(s[p] == '.');
        assert(false);
    }
}

fn is_digit_char(c: char) -> (b: bool)
    ensures
        b == is_digit(c),
{
    let v = c as u32;
    48 <= v && v <= 57
}

fn digit_value(c: char) -> (d: u64)
    requires
        is_digit(c),
    ensures
        d == digit_of(c),
        d <= 9,
{
    ((c as u32) - 48) as u64
}

/// Every character of `s` in `[start, end)` is a decimal digit.
fn digits_in_range(s: &str, start: usize, end: usize) -> (b: bool)
    requires
        start <= end <= s@.len(),
    ensures
        b == forall|i: int| start <= i < end ==> is_digit(#[trigger] s@[i]),
{
    let mut j = start;
    while j < end
        invariant
            start <= j <= end <= s@.len(),
            forall|i: int| start <= i < j ==> is_digit(#[trigger] s@[i]),
        decreases end - j,
    {
        if !is_digit_char(s.get_char(j)) {
            return false;
        }
        j += 1;
    }
    true
}

/// Reads the digit run `s[start..end]` as a decimal numeral.
fn scan_digits(s: &str, start: usize, end: usize) -> (v: u64)
    requires
        start <= end <= s@.len(),
        end - start <= 18,
        forall|i: int| start <= i < end ==> is_digit(#[trigger] s@[i]),
    ensures
        v == digits_val(s@.subrange(start as int, end as int)),
{
    let mut acc: u64 = 0;
    let mut j = start;
    while j < end
        invariant
            start <= j <= end <= s@.len(),
            end - start <= 18,
            forall|i: int| start <= i < end ==> is_digit(#[trigger] s@[i]),
            acc == digits_val(s@.subrange(start as int, j as int)),
            acc < pow10((j - start) as nat),
        decreases end - j,
    {
        let d = digit_value(s.get_char(j));
        proof {
            lemma_pow10_mono((j - start + 1) as nat, 18);
            assert(pow10(18) == 1_000_000_000_000_000_000) by {
                reveal_with_fuel(pow10, 20);
            }
            assert(s@.subrange(start as int, j as int + 1).drop_last() =~= s@.subrange(
                start as int,
                j as int,
            ));
            assert(s@.subrange(start as int, j as int + 1).last() == s@[j as int]);
        }
        acc = acc * 10 + d;
        j += 1;
    }
    acc
}

/// Parses a fixed-point mark literal into thousandths of a mark. `Some`
/// exactly when the literal has the accepted shape and its value is within
/// range; the value is exact.
pub fn parse_fixed_milli(s: &str) -> (r: Option<u64>)
    ensures
        match r {
            Some(v) => fixed_shape(s@) && v == fixed_value(s@) && v <= MARKS_LIMIT_MILLI,
            None => !fixed_shape(s@) || fixed_value(s@) > MARKS_LIMIT_MILLI,
        },
{
    let n = s.unicode_len();
    // The position of the first point, or n when there is none.
    let mut p: usize = n;
    let mut j: usize = 0;
    while j < n
        invariant
            j <= n == s@.len(),
            p == n || (p < j && s@[p as int] == '.'),
            forall|i: int| 0 <= i < j && i < p ==> #[trigger] s@[i] != '.',
        decreases n - j,
    {
        if p == n && s.get_char(j) == '.' {
            p = j;
        }
        j += 1;
    }
    assert(forall|i: int| 0 <= i < p ==> #[trigger] s@[i] != '.');
    if p == 0 || p > 13 {
        proof {
            if fixed_shape(s@) {
                lemma_shape_is_at_first_dot(s@, p as int);
            }
        }
        return None;
    }
    if !digits_in_range(s, 0, p) {
        proof {
            if fixed_shape(s@) {
                lemma_shape_is_at_first_dot(s@, p as int);
            }
        }
        return None;
    }
    if p < n {
        let flen = n - p - 1;
        if flen == 0 || flen > 3 {
            proof {
                if fixed_shape(s@) {
                    lemma_shape_is_at_first_dot(s@, p as int);
                }
            }
            return None;
        }
        if !digits_in_range(s, p + 1, n) {
            proof {
                if fixed_shape(s@) {
                    lemma_shape_is_at_first_dot(s@, p as int);
                }
            }
            return None;
        }
    }
    assert(fixed_shape_at(s@, p as int));
    let int_val = scan_digits(s, 0, p);
    proof {
        lemma_digits_val_bound(s@.subrange(0, p as int));
        lemma_pow10_mono(p as nat, 13);
        assert(pow10(13) == 10_000_000_000_000) by {
            reveal_with_fuel(pow10, 15);
        }
    }
    let frac_milli: u64 = if p < n {
        let fv = scan_digits(s, p + 1, n);
        proof {
            lemma_digits_val_bound(s@.subrange(p as int + 1, n as int));
            assert(pow10(1) == 10 && pow10(2) == 100 && pow10(3) == 1000) by {
                reveal_with_fuel(pow10, 5);
            }
        }
        let flen = n - p - 1;
        if flen == 1 {
            fv * 100
        } else if flen == 2 {
            fv * 10
        } else {
            fv
        }
    } else {
        0
    };
    assert(frac_milli < 1000);
    let value = int_val * 1000 + frac_milli;
    proof {
        lemma_shape_is_at_first_dot(s@, p as int);
        assert(value == fixed_value_at(s@, p as int));
    }
    if value <= MARKS_LIMIT_MILLI {
        Some(value)
    } else {
        None
    }
}

/// An accepted mark input: the fixed-point shape, with its value in range.
pub open spec fn accepted_marks(s: Seq<char>) -> bool {
    fixed_shape(s) && fixed_value(s) <= MARKS_LIMIT_MILLI
}

/// Total marks entered at the menu: an accepted literal is taken exactly,
/// anything else falls back to 0.
pub fn coerce_total_marks(s: &str) -> (v: u64)
    ensures
        accepted_marks(s@) ==> v == fixed_value(s@),
        !accepted_marks(s@) ==> v == 0,
        v <= MARKS_LIMIT_MILLI,
{
    match parse_fixed_milli(s) {
        Some(v) => v,
        None => 0,
    }
}

/// Maximum marks entered at the menu: an accepted, positive literal is taken
/// exactly, anything else falls back to 100 marks.
pub fn coerce_max_marks(s: &str) -> (v: u64)
    ensures
        accepted_marks(s@) && fixed_value(s@) >= 1 ==> v == fixed_value(s@),
        !(accepted_marks(s@) && fixed_value(s@) >= 1) ==> v == 100_000,
        1 <= v <= MARKS_LIMIT_MILLI,
{
    match parse_fixed_milli(s) {
        Some(v) => if v >= 1 {
            v
        } else {
            100_000
        },
        None => 100_000,
    }
}

/// An accepted count input: one to nine decimal digits.
pub open spec fn count_shape(s: Seq<char>) -> bool {
    1 <= s.len() <= 9 && all_digits(s)
}

/// The subject count entered at the menu: an accepted, positive digit run is
/// taken exactly, anything else falls back to 1.
pub fn coerce_subject_count(s: &str) -> (v: u32)
    ensures
        count_shape(s@) && digits_val(s@) >= 1 ==> v == digits_val(s@),
        !(count_shape(s@) && digits_val(s@) >= 1) ==> v == 1,
        1 <= v,
{
    let n = s.unicode_len();
    if n == 0 || n > 9 {
        return 1;
    }
    if !digits_in_range(s, 0, n) {
        return 1;
    }
    let v = scan_digits(s, 0, n);
    proof {
        assert(s@.subrange(0, n as int) =~= s@);
        lemma_digits_val_bound(s@);
        lemma_pow10_mono(s@.len(), 9);
        assert(pow10(9) == 1_000_000_000) by {
            reveal_with_fuel(pow10, 11);
        }
    }
    if v >= 1 {
        v as u32
    } else {
        1
    }
}

/// An accepted index input: one to eighteen decimal digits.
pub open spec fn index_shape(s: Seq<char>) -> bool {
    1 <= s.len() <= 18 && all_digits(s)
}

/// A one-based record index entered at the menu: an accepted digit run is
/// taken exactly, anything else falls back to 0, which no record ever has.
pub fn coerce_user_index(s: &str) -> (v: u64)
    ensures
        index_shape(s@) ==> v == digits_val(s@),
        !index_shape(s@) ==> v == 0,
{
    let n = s.unicode_len();
    if n == 0 || n > 18 {
        return 0;
    }
    if !digits_in_range(s, 0, n) {
        return 0;
    }
    let v = scan_digits(s, 0, n);
    proof {
        assert(s@.subrange(0, n as int) =~= s@);
    }
    v
}

} // verus!
