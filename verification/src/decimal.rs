//! Decimal number strings: parsing into digit parts and exact comparison.
//!
//! A number value is a string such as `"-12.500"`. Its meaning is the signed
//! rational number whose magnitude is the integer part followed by the
//! fractional part, read in base ten.
use vstd::prelude::*;

verus! {

/// Outcome of comparing two numbers.
#[derive(PartialEq, Eq, Structural, Debug, Clone, Copy)]
pub enum NumberCompareResult {
    Less,
    Equal,
    Greater,
}

// ------------------------------------------------------------------
// Character classes and trimming
// ------------------------------------------------------------------

/// The characters with the Unicode `White_Space` property.
pub open spec fn is_white_space(c: char) -> bool {
    ||| ('\u{9}' <= c && c <= '\u{d}')
    ||| c == ' '
    ||| c == '\u{85}'
    ||| c == '\u{a0}'
    ||| c == '\u{1680}'
    ||| ('\u{2000}' <= c && c <= '\u{200a}')
    ||| c == '\u{2028}'
    ||| c == '\u{2029}'
    ||| c == '\u{202f}'
    ||| c == '\u{205f}'
    ||| c == '\u{3000}'
}

pub open spec fn is_digit_char(c: char) -> bool {
    '0' <= c && c <= '9'
}

pub open spec fn digit_value(c: char) -> u8 {
    (c as int - '0' as int) as u8
}

/// `s` without its leading white space.
pub open spec fn trim_start(s: Seq<char>) -> Seq<char>
    decreases s.len(),
{
    if s.len() > 0 && is_white_space(s[0]) {
        trim_start(s.drop_first())
    } else {
        s
    }
}

/// `s` without its trailing white space.
pub open spec fn trim_end(s: Seq<char>) -> Seq<char>
    decreases s.len(),
{
    if s.len() > 0 && is_white_space(s.last()) {
        trim_end(s.drop_last())
    } else {
        s
    }
}

/// `s` without leading and trailing white space.
pub open spec fn trimmed(s: Seq<char>) -> Seq<char> {
    trim_end(trim_start(s))
}

/// The digits among the characters of `cs`, in order, as values `0..=9`;
/// other characters are skipped.
pub open spec fn digits_in(cs: Seq<char>) -> Seq<u8>
    decreases cs.len(),
{
    if cs.len() == 0 {
        Seq::empty()
    } else if is_digit_char(cs.last()) {
        digits_in(cs.drop_last()).push(digit_value(cs.last()))
    } else {
        digits_in(cs.drop_last())
    }
}

/// Index of the first `'.'` in `cs`, or `-1` when there is none.
pub open spec fn first_dot(cs: Seq<char>) -> int
    decreases cs.len(),
{
    if cs.len() == 0 {
        -1
    } else if cs[0] == '.' {
        0
    } else {
        let r = first_dot(cs.drop_first());
        if r < 0 {
            -1
        } else {
            r + 1
        }
    }
}

/// The sign, integer digits and fractional digits that a number string denotes.
///
/// White space around the string, and around the magnitude after a leading
/// `-`, is ignored; the first `'.'` separates the integer part from the
/// fractional part; characters that are not digits are skipped; an integer
/// part with no digit counts as `0`.
pub open spec fn parse_parts(s: Seq<char>) -> (bool, Seq<u8>, Seq<u8>) {
    let t = trimmed(s);
    let negative = t.len() > 0 && t[0] == '-';
    let m = if negative {
        trimmed(t.drop_first())
    } else {
        t
    };
    let d = first_dot(m);
    let int_chars = if d >= 0 {
        m.subrange(0, d)
    } else {
        m
    };
    let frac_chars = if d >= 0 {
        m.subrange(d + 1, m.len() as int)
    } else {
        Seq::empty()
    };
    let int_digits = digits_in(int_chars);
    (negative, if int_digits.len() == 0 {
        seq![0u8]
    } else {
        int_digits
    }, digits_in(frac_chars))
}

// ------------------------------------------------------------------
// Values
// ------------------------------------------------------------------

pub open spec fn pow10(n: nat) -> nat
    decreases n,
{
    if n == 0 {
        1
    } else {
        10 * pow10((n - 1) as nat)
    }
}

/// The value of a digit sequence read in base ten, most significant first.
pub open spec fn digits_value(ds: Seq<u8>) -> nat
    decreases ds.len(),
{
    if ds.len() == 0 {
        0
    } else {
        digits_value(ds.drop_last()) * 10 + ds.last() as nat
    }
}

pub open spec fn all_digits(ds: Seq<u8>) -> bool {
    forall|i: int| 0 <= i < ds.len() ==> #[trigger] ds[i] <= 9
}

pub open spec fn all_zero(ds: Seq<u8>) -> bool {
    forall|i: int| 0 <= i < ds.len() ==> #[trigger] ds[i] == 0
}

pub open spec fn zeros(n: nat) -> Seq<u8> {
    Seq::new(n, |i: int| 0u8)
}

/// `ds` extended with zeros to length `k` (unchanged when it is already that long).
pub open spec fn padded(ds: Seq<u8>, k: nat) -> Seq<u8> {
    if ds.len() < k {
        ds + zeros((k - ds.len()) as nat)
    } else {
        ds
    }
}

pub open spec fn max_nat(a: nat, b: nat) -> nat {
    if a < b {
        b
    } else {
        a
    }
}

/// The magnitude of integer digits `int_d` and fractional digits `frac_d`,
/// multiplied by `10^k` (for `k` at least the number of fractional digits).
pub open spec fn scaled_magnitude(int_d: Seq<u8>, frac_d: Seq<u8>, k: nat) -> nat {
    digits_value(int_d + padded(frac_d, k))
}

pub open spec fn frac_len(s: Seq<char>) -> nat {
    parse_parts(s).2.len()
}

/// The signed value of the number string `s`, multiplied by `10^k`.
pub open spec fn signed_scaled(s: Seq<char>, k: nat) -> int {
    let p = parse_parts(s);
    let m = scaled_magnitude(p.1, p.2, k);
    if p.0 {
        -m
    } else {
        m as int
    }
}

/// Every digit of `s` is zero: its magnitude is zero.
pub open spec fn magnitude_is_zero(s: Seq<char>) -> bool {
    let p = parse_parts(s);
    all_zero(p.1) && all_zero(p.2)
}

/// `s` is written with a minus sign and has magnitude zero, as `"-0"`.
pub open spec fn is_negative_zero(s: Seq<char>) -> bool {
    parse_parts(s).0 && magnitude_is_zero(s)
}

pub open spec fn is_negative_nonzero(s: Seq<char>) -> bool {
    parse_parts(s).0 && !magnitude_is_zero(s)
}

pub open spec fn int_order(a: int, b: int) -> NumberCompareResult {
    if a < b {
        NumberCompareResult::Less
    } else if a == b {
        NumberCompareResult::Equal
    } else {
        NumberCompareResult::Greater
    }
}

pub open spec fn reverse_compare(r: NumberCompareResult) -> NumberCompareResult {
    match r {
        NumberCompareResult::Less => NumberCompareResult::Greater,
        NumberCompareResult::Equal => NumberCompareResult::Equal,
        NumberCompareResult::Greater => NumberCompareResult::Less,
    }
}

/// The result of comparing the number strings `a` and `b`.
///
/// The two values are compared as rationals over the common denominator
/// `10^k`. The one exception is a negative zero (`"-0"`) against a negative
/// nonzero number: there the magnitudes are compared, so `"-0"` comes out
/// below `"-3"`.
pub open spec fn decimal_compare(a: Seq<char>, b: Seq<char>) -> NumberCompareResult {
    let k = max_nat(frac_len(a), frac_len(b));
    if is_negative_nonzero(a) && is_negative_zero(b) {
        NumberCompareResult::Greater
    } else if is_negative_zero(a) && is_negative_nonzero(b) {
        NumberCompareResult::Less
    } else {
        int_order(signed_scaled(a, k), signed_scaled(b, k))
    }
}

/// The sign of the number string `s` as a comparison with zero.
pub open spec fn decimal_sign(s: Seq<char>) -> NumberCompareResult {
    int_order(signed_scaled(s, frac_len(s)), 0)
}

// ------------------------------------------------------------------
// Lemmas on digit values
// ------------------------------------------------------------------

pub proof fn lemma_pow10_positive(n: nat)
    ensures
        pow10(n) >= 1,
    decreases n,
{
    if n > 0 {
        lemma_pow10_positive((n - 1) as nat);
    }
}

pub proof fn lemma_pow10_monotone(a: nat, b: nat)
    requires
        a <= b,
    ensures
        pow10(a) <= pow10(b),
    decreases b,
{
    if a < b {
        lemma_pow10_monotone(a, (b - 1) as nat);
        lemma_pow10_positive((b - 1) as nat);
    }
}

/// The value of a concatenation.
pub proof fn lemma_digits_value_concat(a: Seq<u8>, b: Seq<u8>)
    ensures
        digits_value(a + b) == digits_value(a) * pow10(b.len()) + digits_value(b),
    decreases b.len(),
{
    if b.len() == 0 {
        assert(a + b =~= a);
        assert(digits_value(b) == 0);
        assert(pow10(b.len()) == 1);
        assert(digits_value(a) * 1 == digits_value(a));
    } else {
        let b1 = b.drop_last();
        lemma_digits_value_concat(a, b1);
        assert((a + b).drop_last() =~= a + b1);
        assert((a + b).last() == b.last());
        let va = digits_value(a);
        let p1 = pow10(b1.len());
        let vb1 = digits_value(b1);
        assert(pow10(b.len()) == 10 * p1);
        assert(digits_value(b) == vb1 * 10 + b.last());
        assert(digits_value(a + b) == digits_value(a + b1) * 10 + b.last());
        assert(digits_value(a + b1) == va * p1 + vb1);
        assert((va * p1 + vb1) * 10 + b.last() == va * (10 * p1) + (vb1 * 10 + b.last()))
            by (nonlinear_arith);
    }
}

/// A digit sequence stays below `10^len`.
pub proof fn lemma_digits_value_bound(ds: Seq<u8>)
    requires
        all_digits(ds),
    ensures
        digits_value(ds) < pow10(ds.len()),
    decreases ds.len(),
{
    if ds.len() > 0 {
        let d1 = ds.drop_last();
        assert(all_digits(d1)) by {
            assert forall|i: int| 0 <= i < d1.len() implies #[trigger] d1[i] <= 9 by {
                assert(d1[i] == ds[i]);
            }
        }
        lemma_digits_value_bound(d1);
        assert(ds.last() == ds[ds.len() - 1]);
    }
}

/// The value of a single digit.
pub proof fn lemma_digits_value_single(x: u8)
    ensures
        digits_value(seq![x]) == x,
{
    assert(seq![x].drop_last() =~= Seq::<u8>::empty());
    assert(digits_value(Seq::<u8>::empty()) == 0);
    assert(seq![x].last() == x);
}

/// Leading zeros do not change a value.
pub proof fn lemma_digits_value_leading_zeros(z: Seq<u8>, x: Seq<u8>)
    requires
        all_zero(z),
    ensures
        digits_value(z + x) == digits_value(x),
{
    lemma_digits_value_all_zero(z);
    lemma_digits_value_concat(z, x);
}

/// A value is zero exactly when every digit is zero.
pub proof fn lemma_digits_value_all_zero(ds: Seq<u8>)
    ensures
        (digits_value(ds) == 0) == all_zero(ds),
    decreases ds.len(),
{
    if ds.len() > 0 {
        let d1 = ds.drop_last();
        lemma_digits_value_all_zero(d1);
        assert(ds.last() == ds[ds.len() - 1]);
        if all_zero(ds) {
            assert forall|i: int| 0 <= i < d1.len() implies #[trigger] d1[i] == 0 by {
                assert(d1[i] == ds[i]);
            }
        }
        if all_zero(d1) && ds.last() == 0 {
            assert forall|i: int| 0 <= i < ds.len() implies #[trigger] ds[i] == 0 by {
                if i < ds.len() - 1 {
                    assert(ds[i] == d1[i]);
                }
            }
        }
    }
}

/// The parity of a value is that of its last digit.
pub proof fn lemma_digits_value_parity(ds: Seq<u8>)
    requires
        ds.len() > 0,
    ensures
        digits_value(ds) % 2 == ds.last() % 2,
{
    let v = digits_value(ds.drop_last());
    let l = ds.last() as int;
    assert((v * 10 + l) % 2 == l % 2) by (nonlinear_arith);
}

/// The first differing digit decides between two sequences of equal length.
pub proof fn lemma_first_difference(a: Seq<u8>, b: Seq<u8>, i: int)
    requires
        a.len() == b.len(),
        0 <= i < a.len(),
        a.subrange(0, i) == b.subrange(0, i),
        a[i] < b[i],
        all_digits(a),
        all_digits(b),
    ensures
        digits_value(a) < digits_value(b),
{
    let n = a.len() as int;
    let pa = a.subrange(0, i);
    let ta = a.subrange(i + 1, n);
    let tb = b.subrange(i + 1, n);
    assert(a =~= pa + (seq![a[i]] + ta));
    assert(b =~= pa + (seq![b[i]] + tb));
    lemma_digits_value_concat(pa, seq![a[i]] + ta);
    lemma_digits_value_concat(pa, seq![b[i]] + tb);
    lemma_digits_value_concat(seq![a[i]], ta);
    lemma_digits_value_concat(seq![b[i]], tb);
    lemma_digits_value_single(a[i]);
    lemma_digits_value_single(b[i]);
    assert(all_digits(ta)) by {
        assert forall|j: int| 0 <= j < ta.len() implies #[trigger] ta[j] <= 9 by {
            assert(ta[j] == a[i + 1 + j]);
        }
    }
    lemma_digits_value_bound(ta);
    let p = pow10(ta.len());
    assert(tb.len() == ta.len());
    let va = digits_value(ta);
    let vb = digits_value(tb);
    let ai = a[i] as int;
    let bi = b[i] as int;
    assert(ai * p + va < bi * p + vb) by (nonlinear_arith)
        requires
            va < p,
            ai < bi,
            vb >= 0,
            p >= 1,
    ;
    let q = pow10((seq![a[i]] + ta).len());
    let vp = digits_value(pa);
    assert(vp * q + (ai * p + va) < vp * q + (bi * p + vb));
}

/// A longer sequence with a nonzero first digit has the larger value.
pub proof fn lemma_longer_is_larger(a: Seq<u8>, b: Seq<u8>)
    requires
        a.len() < b.len(),
        b[0] >= 1,
        all_digits(a),
    ensures
        digits_value(a) < digits_value(b),
{
    let tb = b.subrange(1, b.len() as int);
    assert(b =~= seq![b[0]] + tb);
    lemma_digits_value_concat(seq![b[0]], tb);
    lemma_digits_value_single(b[0]);
    lemma_digits_value_bound(a);
    lemma_pow10_monotone(a.len(), tb.len());
    let p = pow10(tb.len());
    let b0 = b[0] as int;
    assert(b0 * p >= p) by (nonlinear_arith)
        requires
            b0 >= 1,
            p >= 0,
    ;
}

// ------------------------------------------------------------------
// Lemmas on trimming, splitting and digit extraction
// ------------------------------------------------------------------

pub proof fn lemma_trim_start_at(t: Seq<char>, k: int)
    requires
        0 <= k <= t.len(),
        forall|j: int| 0 <= j < k ==> is_white_space(#[trigger] t[j]),
        k == t.len() || !is_white_space(t[k]),
    ensures
        trim_start(t) == t.subrange(k, t.len() as int),
    decreases k,
{
    if k == 0 {
        assert(t.subrange(0, t.len() as int) =~= t);
    } else {
        let t1 = t.drop_first();
        assert forall|j: int| 0 <= j < k - 1 implies is_white_space(#[trigger] t1[j]) by {
            assert(t1[j] == t[j + 1]);
        }
        lemma_trim_start_at(t1, k - 1);
        assert(t1.subrange(k - 1, t1.len() as int) =~= t.subrange(k, t.len() as int));
        assert(is_white_space(t[0]));
    }
}

pub proof fn lemma_trim_end_at(t: Seq<char>, k: int)
    requires
        0 <= k <= t.len(),
        forall|j: int| k <= j < t.len() ==> is_white_space(#[trigger] t[j]),
        k == 0 || !is_white_space(t[k - 1]),
    ensures
        trim_end(t) == t.subrange(0, k),
    decreases t.len() - k,
{
    if k == t.len() {
        assert(t.subrange(0, k) =~= t);
        if t.len() > 0 {
            assert(t.last() == t[k - 1]);
        }
    } else {
        let t1 = t.drop_last();
        assert forall|j: int| k <= j < t1.len() implies is_white_space(#[trigger] t1[j]) by {
            assert(t1[j] == t[j]);
        }
        if k > 0 {
            assert(t1[k - 1] == t[k - 1]);
        }
        lemma_trim_end_at(t1, k);
        assert(t1.subrange(0, k) =~= t.subrange(0, k));
        assert(t.last() == t[t.len() - 1]);
    }
}

pub proof fn lemma_first_dot_at(t: Seq<char>, k: int)
    requires
        0 <= k <= t.len(),
        forall|j: int| 0 <= j < k ==> #[trigger] t[j] != '.',
        k == t.len() || t[k] == '.',
    ensures
        first_dot(t) == (if k == t.len() {
            -1
        } else {
            k
        }),
    decreases k,
{
    if k > 0 {
        let t1 = t.drop_first();
        assert forall|j: int| 0 <= j < k - 1 implies #[trigger] t1[j] != '.' by {
            assert(t1[j] == t[j + 1]);
        }
        if k < t.len() {
            assert(t1[k - 1] == t[k]);
        }
        lemma_first_dot_at(t1, k - 1);
        assert(t[0] != '.');
    }
}

pub proof fn lemma_digits_in_are_digits(cs: Seq<char>)
    ensures
        all_digits(digits_in(cs)),
    decreases cs.len(),
{
    if cs.len() > 0 {
        lemma_digits_in_are_digits(cs.drop_last());
    }
}

// ------------------------------------------------------------------
// Executable functions
// ------------------------------------------------------------------

/// The characters of `s`, in order.
pub fn str_chars(s: &str) -> (v: Vec<char>)
    ensures
        v@ == s@,
{
    let n = s.unicode_len();
    let mut v: Vec<char> = Vec::new();
    let mut i: usize = 0;
    while i < n
        invariant
            n == s@.len(),
            i <= n,
            v@ == s@.subrange(0, i as int),
        decreases n - i,
    {
        let c = s.get_char(i);
        v.push(c);
        i = i + 1;
    }
    assert(v@ =~= s@);
    v
}

/// Whether `c` has the Unicode `White_Space` property.
pub fn char_is_white_space(c: char) -> (r: bool)
    ensures
        r == is_white_space(c),
{
    ('\u{9}' <= c && c <= '\u{d}') || c == ' ' || c == '\u{85}' || c == '\u{a0}' || c
        == '\u{1680}' || ('\u{2000}' <= c && c <= '\u{200a}') || c == '\u{2028}' || c
        == '\u{2029}' || c == '\u{202f}' || c == '\u{205f}' || c == '\u{3000}'
}

/// The bounds `[lo, hi)` of `cs[from..to]` without its surrounding white space.
fn trim_bounds(cs: &Vec<char>, from: usize, to: usize) -> (r: (usize, usize))
    requires
        from <= to <= cs.len(),
    ensures
        from <= r.0 <= r.1 <= to,
        trimmed(cs@.subrange(from as int, to as int)) == cs@.subrange(r.0 as int, r.1 as int),
{
    let ghost t = cs@.subrange(from as int, to as int);
    let mut lo = from;
    while lo < to && char_is_white_space(cs[lo])
        invariant
            from <= lo <= to <= cs.len(),
            t == cs@.subrange(from as int, to as int),
            forall|j: int| from <= j < lo ==> is_white_space(#[trigger] cs@[j]),
        decreases to - lo,
    {
        lo = lo + 1;
    }
    proof {
        assert forall|j: int| 0 <= j < lo - from implies is_white_space(#[trigger] t[j]) by {
            assert(t[j] == cs@[from + j]);
        }
        if lo < to {
            assert(t[lo - from] == cs@[lo as int]);
        }
        lemma_trim_start_at(t, lo - from);
        assert(t.subrange(lo - from, t.len() as int) =~= cs@.subrange(lo as int, to as int));
    }
    let ghost u = cs@.subrange(lo as int, to as int);
    let mut hi = to;
    while hi > lo && char_is_white_space(cs[hi - 1])
        invariant
            from <= lo <= hi <= to <= cs.len(),
            forall|j: int| hi <= j < to ==> is_white_space(#[trigger] cs@[j]),
        decreases hi - lo,
    {
        hi = hi - 1;
    }
    proof {
        assert forall|j: int| hi - lo <= j < u.len() implies is_white_space(#[trigger] u[j]) by {
            assert(u[j] == cs@[lo + j]);
        }
        if hi > lo {
            assert(u[hi - lo - 1] == cs@[hi - 1]);
        }
        lemma_trim_end_at(u, hi - lo);
        assert(u.subrange(0, hi - lo) =~= cs@.subrange(lo as int, hi as int));
    }
    (lo, hi)
}

/// The digits among `cs[from..to]`.
fn collect_digits(cs: &Vec<char>, from: usize, to: usize) -> (r: Vec<u8>)
    requires
        from <= to <= cs.len(),
    ensures
        r@ == digits_in(cs@.subrange(from as int, to as int)),
{
    let mut out: Vec<u8> = Vec::new();
    let mut i = from;
    assert(cs@.subrange(from as int, from as int) =~= Seq::<char>::empty());
    while i < to
        invariant
            from <= i <= to <= cs.len(),
            out@ == digits_in(cs@.subrange(from as int, i as int)),
        decreases to - i,
    {
        let c = cs[i];
        proof {
            let s1 = cs@.subrange(from as int, i + 1);
            assert(s1.drop_last() =~= cs@.subrange(from as int, i as int));
            assert(s1.last() == c);
        }
        if '0' <= c && c <= '9' {
            let d = ((c as u32) - ('0' as u32)) as u8;
            out.push(d);
        }
        i = i + 1;
    }
    out
}

/// The sign, integer digits and fractional digits of a number string.
pub fn parse_number_parts_for_comparison(number_value: &str) -> (r: (bool, Vec<u8>, Vec<u8>))
    ensures
        (r.0, r.1@, r.2@) == parse_parts(number_value@),
        r.1@.len() > 0,
        all_digits(r.1@),
        all_digits(r.2@),
{
    let cs = str_chars(number_value);
    let ghost s = number_value@;
    assert(cs@.subrange(0, cs@.len() as int) =~= s);
    let (lo, hi) = trim_bounds(&cs, 0, cs.len());
    let ghost t = trimmed(s);
    let is_negative = lo < hi && cs[lo] == '-';
    let (mlo, mhi) = if is_negative {
        proof {
            assert(t.drop_first() =~= cs@.subrange(lo + 1, hi as int));
        }
        trim_bounds(&cs, lo + 1, hi)
    } else {
        (lo, hi)
    };
    let ghost m = cs@.subrange(mlo as int, mhi as int);
    let mut d = mlo;
    while d < mhi && cs[d] != '.'
        invariant
            mlo <= d <= mhi <= cs.len(),
            forall|j: int| mlo <= j < d ==> #[trigger] cs@[j] != '.',
        decreases mhi - d,
    {
        d = d + 1;
    }
    proof {
        assert forall|j: int| 0 <= j < d - mlo implies #[trigger] m[j] != '.' by {
            assert(m[j] == cs@[mlo + j]);
        }
        if d < mhi {
            assert(m[d - mlo] == cs@[d as int]);
        }
        lemma_first_dot_at(m, d - mlo);
    }
    let (int_end, frac_start) = if d < mhi {
        (d, d + 1)
    } else {
        (mhi, mhi)
    };
    proof {
        if d < mhi {
            assert(m.subrange(0, d - mlo) =~= cs@.subrange(mlo as int, d as int));
            assert(m.subrange(d - mlo + 1, m.len() as int) =~= cs@.subrange(
                d + 1,
                mhi as int,
            ));
        } else {
            assert(cs@.subrange(mhi as int, mhi as int) =~= Seq::<char>::empty());
        }
    }
    let mut integer_digits = collect_digits(&cs, mlo, int_end);
    if integer_digits.len() == 0 {
        integer_digits.push(0);
        assert(integer_digits@ =~= seq![0u8]);
    }
    let fractional_digits = collect_digits(&cs, frac_start, mhi);
    proof {
        lemma_digits_in_are_digits(cs@.subrange(mlo as int, int_end as int));
        lemma_digits_in_are_digits(cs@.subrange(frac_start as int, mhi as int));
    }
    (is_negative, integer_digits, fractional_digits)
}

/// Whether every digit is zero.
pub fn digits_are_all_zero(digits: &[u8]) -> (r: bool)
    ensures
        r == all_zero(digits@),
{
    let mut i: usize = 0;
    while i < digits.len()
        invariant
            i <= digits.len(),
            forall|j: int| 0 <= j < i ==> #[trigger] digits@[j] == 0,
        decreases digits.len() - i,
    {
        if digits[i] != 0 {
            return false;
        }
        i = i + 1;
    }
    true
}

/// Whether a number string denotes an integer: its fractional digits are all zero.
pub fn normalized_decimal_string_is_integer(number_value: &str) -> (r: bool)
    ensures
        r == all_zero(parse_parts(number_value@).2),
{
    let (_, _integer_digits, fractional_digits) = parse_number_parts_for_comparison(number_value);
    digits_are_all_zero(fractional_digits.as_slice())
}

/// Whether a number string denotes an even integer.
pub fn normalized_decimal_string_is_even_integer(number_value: &str) -> (r: bool)
    ensures
        r == (all_zero(parse_parts(number_value@).2) && digits_value(parse_parts(number_value@).1)
            % 2 == 0),
{
    if !normalized_decimal_string_is_integer(number_value) {
        return false;
    }
    let (_is_negative, integer_digits, _fractional_digits) = parse_number_parts_for_comparison(
        number_value,
    );
    let last_digit = integer_digits[integer_digits.len() - 1];
    proof {
        lemma_digits_value_parity(integer_digits@);
        assert(integer_digits@.last() == last_digit);
    }
    last_digit % 2 == 0
}

/// Index of the first nonzero digit, or of the last digit when all before it are zero.
pub fn first_non_zero_integer_digit_index(integer_digits: &[u8]) -> (r: usize)
    ensures
        integer_digits.len() == 0 ==> r == 0,
        integer_digits.len() > 0 ==> r < integer_digits.len(),
        forall|j: int| 0 <= j < r ==> #[trigger] integer_digits@[j] == 0,
        r + 1 < integer_digits.len() ==> integer_digits@[r as int] != 0,
{
    let mut current_index: usize = 0;
    while current_index + 1 < integer_digits.len() && integer_digits[current_index] == 0
        invariant
            integer_digits.len() == 0 ==> current_index == 0,
            integer_digits.len() > 0 ==> current_index < integer_digits.len(),
            forall|j: int| 0 <= j < current_index ==> #[trigger] integer_digits@[j] == 0,
        decreases integer_digits.len() - current_index,
    {
        current_index = current_index + 1;
    }
    current_index
}

/// The magnitude read from the first significant integer digit on.
pub proof fn lemma_scaled_from_effective_start(int_d: Seq<u8>, frac_d: Seq<u8>, k: nat, st: int)
    requires
        0 <= st <= int_d.len(),
        forall|j: int| 0 <= j < st ==> #[trigger] int_d[j] == 0,
        frac_d.len() <= k,
        all_digits(int_d),
        all_digits(frac_d),
    ensures
        scaled_magnitude(int_d, frac_d, k) == digits_value(
            int_d.subrange(st, int_d.len() as int) + padded(frac_d, k),
        ),
        all_digits(int_d.subrange(st, int_d.len() as int) + padded(frac_d, k)),
        padded(frac_d, k).len() == k,
{
    let lz = int_d.subrange(0, st);
    let e = int_d.subrange(st, int_d.len() as int);
    let pd = padded(frac_d, k);
    let x = e + pd;
    assert(int_d + pd =~= lz + x);
    assert(all_zero(lz)) by {
        assert forall|j: int| 0 <= j < lz.len() implies #[trigger] lz[j] == 0 by {
            assert(lz[j] == int_d[j]);
        }
    }
    lemma_digits_value_leading_zeros(lz, x);
    assert forall|j: int| 0 <= j < x.len() implies #[trigger] x[j] <= 9 by {
        if j < e.len() {
            assert(x[j] == int_d[st + j]);
        } else if j - e.len() < frac_d.len() {
            assert(x[j] == frac_d[j - e.len()]);
        } else {
            assert(x[j] == 0);
        }
    }
}

/// Compare two nonnegative numbers given by their integer and fractional digits.
#[verifier::rlimit(40)]
pub fn compare_non_negative_decimal_parts(
    left_integer_digits: &[u8],
    left_fractional_digits: &[u8],
    right_integer_digits: &[u8],
    right_fractional_digits: &[u8],
) -> (r: NumberCompareResult)
    requires
        left_integer_digits.len() > 0,
        right_integer_digits.len() > 0,
        all_digits(left_integer_digits@),
        all_digits(left_fractional_digits@),
        all_digits(right_integer_digits@),
        all_digits(right_fractional_digits@),
    ensures
        ({
            let k = max_nat(left_fractional_digits@.len(), right_fractional_digits@.len());
            r == int_order(
                scaled_magnitude(left_integer_digits@, left_fractional_digits@, k) as int,
                scaled_magnitude(right_integer_digits@, right_fractional_digits@, k) as int,
            )
        }),
{
    let ghost k = max_nat(left_fractional_digits@.len(), right_fractional_digits@.len());
    let left_integer_start_index = first_non_zero_integer_digit_index(left_integer_digits);
    let right_integer_start_index = first_non_zero_integer_digit_index(right_integer_digits);
    let left_effective_integer_len = left_integer_digits.len() - left_integer_start_index;
    let right_effective_integer_len = right_integer_digits.len() - right_integer_start_index;

    let ghost li = left_integer_digits@;
    let ghost ri = right_integer_digits@;
    let ghost lp = padded(left_fractional_digits@, k);
    let ghost rp = padded(right_fractional_digits@, k);
    let ghost le = li.subrange(left_integer_start_index as int, li.len() as int);
    let ghost re = ri.subrange(right_integer_start_index as int, ri.len() as int);
    let ghost xa = le + lp;
    let ghost xb = re + rp;
    proof {
        lemma_scaled_from_effective_start(li, left_fractional_digits@, k, left_integer_start_index as int);
        lemma_scaled_from_effective_start(ri, right_fractional_digits@, k, right_integer_start_index as int);
    }
    if left_effective_integer_len < right_effective_integer_len {
        proof {
            assert(xb[0] == ri[right_integer_start_index as int]);
            lemma_longer_is_larger(xa, xb);
            assert(digits_value(xa) < digits_value(xb));
            assert(scaled_magnitude(left_integer_digits@, left_fractional_digits@, k) == digits_value(xa));
        }
        return NumberCompareResult::Less;
    }
    if left_effective_integer_len > right_effective_integer_len {
        proof {
            assert(xa[0] == li[left_integer_start_index as int]);
            lemma_longer_is_larger(xb, xa);
        }
        return NumberCompareResult::Greater;
    }
    let mut integer_index: usize = 0;
    while integer_index < left_effective_integer_len
        invariant
            left_effective_integer_len == right_effective_integer_len,
            k == max_nat(left_fractional_digits@.len(), right_fractional_digits@.len()),
            scaled_magnitude(left_integer_digits@, left_fractional_digits@, k) == digits_value(xa),
            scaled_magnitude(right_integer_digits@, right_fractional_digits@, k) == digits_value(xb),
            left_effective_integer_len == le.len(),
            right_effective_integer_len == re.len(),
            left_integer_start_index + left_effective_integer_len == left_integer_digits.len(),
            right_integer_start_index + right_effective_integer_len == right_integer_digits.len(),
            li == left_integer_digits@,
            ri == right_integer_digits@,
            le == li.subrange(left_integer_start_index as int, li.len() as int),
            re == ri.subrange(right_integer_start_index as int, ri.len() as int),
            xa == le + lp,
            xb == re + rp,
            lp.len() == k,
            rp.len() == k,
            all_digits(xa),
            all_digits(xb),
            integer_index <= left_effective_integer_len,
            xa.subrange(0, integer_index as int) == xb.subrange(0, integer_index as int),
        decreases left_effective_integer_len - integer_index,
    {
        let left_digit = left_integer_digits[left_integer_start_index + integer_index];
        let right_digit = right_integer_digits[right_integer_start_index + integer_index];
        proof {
            assert(xa[integer_index as int] == left_digit);
            assert(xb[integer_index as int] == right_digit);
        }
        if left_digit < right_digit {
            proof {
                lemma_first_difference(xa, xb, integer_index as int);
            }
            return NumberCompareResult::Less;
        }
        if left_digit > right_digit {
            proof {
                lemma_first_difference(xb, xa, integer_index as int);
            }
            return NumberCompareResult::Greater;
        }
        proof {
            assert(xa.subrange(0, integer_index + 1) =~= xa.subrange(0, integer_index as int).push(
                left_digit,
            ));
            assert(xb.subrange(0, integer_index + 1) =~= xb.subrange(0, integer_index as int).push(
                right_digit,
            ));
        }
        integer_index = integer_index + 1;
    }

    let fractional_compare_len = if left_fractional_digits.len() > right_fractional_digits.len() {
        left_fractional_digits.len()
    } else {
        right_fractional_digits.len()
    };
    let mut fractional_index: usize = 0;
    while fractional_index < fractional_compare_len
        invariant
            fractional_compare_len == k,
            k == max_nat(left_fractional_digits@.len(), right_fractional_digits@.len()),
            scaled_magnitude(left_integer_digits@, left_fractional_digits@, k) == digits_value(xa),
            scaled_magnitude(right_integer_digits@, right_fractional_digits@, k) == digits_value(xb),
            left_effective_integer_len == le.len(),
            right_effective_integer_len == re.len(),
            left_effective_integer_len == right_effective_integer_len,
            xa == le + lp,
            xb == re + rp,
            lp == padded(left_fractional_digits@, k),
            rp == padded(right_fractional_digits@, k),
            lp.len() == k,
            rp.len() == k,
            all_digits(xa),
            all_digits(xb),
            fractional_index <= fractional_compare_len,
            xa.subrange(0, le.len() + fractional_index) == xb.subrange(
                0,
                le.len() + fractional_index,
            ),
        decreases fractional_compare_len - fractional_index,
    {
        let left_digit = if fractional_index < left_fractional_digits.len() {
            left_fractional_digits[fractional_index]
        } else {
            0
        };
        let right_digit = if fractional_index < right_fractional_digits.len() {
            right_fractional_digits[fractional_index]
        } else {
            0
        };
        let ghost pos = le.len() + fractional_index;
        proof {
            assert(xa[pos] == lp[fractional_index as int]);
            assert(xb[pos] == rp[fractional_index as int]);
            assert(lp[fractional_index as int] == left_digit);
            assert(rp[fractional_index as int] == right_digit);
        }
        if left_digit < right_digit {
            proof {
                lemma_first_difference(xa, xb, pos);
            }
            return NumberCompareResult::Less;
        }
        if left_digit > right_digit {
            proof {
                lemma_first_difference(xb, xa, pos);
            }
            return NumberCompareResult::Greater;
        }
        proof {
            assert(xa.subrange(0, pos + 1) =~= xa.subrange(0, pos).push(left_digit));
            assert(xb.subrange(0, pos + 1) =~= xb.subrange(0, pos).push(right_digit));
        }
        fractional_index = fractional_index + 1;
    }
    proof {
        assert(xa =~= xa.subrange(0, xa.len() as int));
        assert(xb =~= xb.subrange(0, xb.len() as int));
    }
    NumberCompareResult::Equal
}

} // verus!

verus! {

/// The magnitude is zero exactly when every digit is zero.
pub proof fn lemma_magnitude_zero(int_d: Seq<u8>, frac_d: Seq<u8>, k: nat)
    requires
        frac_d.len() <= k,
    ensures
        (scaled_magnitude(int_d, frac_d, k) == 0) == (all_zero(int_d) && all_zero(frac_d)),
{
    let pd = padded(frac_d, k);
    let x = int_d + pd;
    lemma_digits_value_all_zero(x);
    if all_zero(x) {
        assert forall|j: int| 0 <= j < int_d.len() implies #[trigger] int_d[j] == 0 by {
            assert(x[j] == int_d[j]);
        }
        assert forall|j: int| 0 <= j < frac_d.len() implies #[trigger] frac_d[j] == 0 by {
            assert(x[int_d.len() + j] == frac_d[j]);
        }
    }
    if all_zero(int_d) && all_zero(frac_d) {
        assert forall|j: int| 0 <= j < x.len() implies #[trigger] x[j] == 0 by {
            if j < int_d.len() {
                assert(x[j] == int_d[j]);
            } else if j - int_d.len() < frac_d.len() {
                assert(x[j] == frac_d[j - int_d.len()]);
            }
        }
    }
}

/// What the literal `"0"` denotes.
pub proof fn lemma_parse_zero_literal(s: Seq<char>)
    requires
        s == seq!['0'],
    ensures
        parse_parts(s) == (false, seq![0u8], Seq::<u8>::empty()),
        frac_len(s) == 0,
        !is_negative_zero(s),
        !is_negative_nonzero(s),
{
    assert(trim_start(s) == s);
    assert(s.last() == '0');
    assert(trim_end(s) == s);
    assert(s.drop_first() =~= Seq::<char>::empty());
    assert(first_dot(s.drop_first()) == -1);
    assert(first_dot(s) == -1);
    assert(s.drop_last() =~= Seq::<char>::empty());
    assert(digits_in(Seq::<char>::empty()) =~= Seq::<u8>::empty());
    assert(digits_in(s) =~= seq![0u8]);
}

/// Compare the values of two number strings.
pub fn compare_number_strings(left_number_value: &str, right_number_value: &str) -> (r:
    NumberCompareResult)
    ensures
        r == decimal_compare(left_number_value@, right_number_value@),
{
    let (left_is_negative, left_integer_digits, left_fractional_digits) =
        parse_number_parts_for_comparison(left_number_value);
    let (right_is_negative, right_integer_digits, right_fractional_digits) =
        parse_number_parts_for_comparison(right_number_value);
    let ghost k = max_nat(left_fractional_digits@.len(), right_fractional_digits@.len());
    proof {
        lemma_magnitude_zero(left_integer_digits@, left_fractional_digits@, k);
        lemma_magnitude_zero(right_integer_digits@, right_fractional_digits@, k);
    }

    let left_is_zero = digits_are_all_zero(left_integer_digits.as_slice()) && digits_are_all_zero(
        left_fractional_digits.as_slice(),
    );
    let right_is_zero = digits_are_all_zero(right_integer_digits.as_slice())
        && digits_are_all_zero(right_fractional_digits.as_slice());
    if left_is_zero && right_is_zero {
        return NumberCompareResult::Equal;
    }
    if left_is_negative && !left_is_zero && !right_is_negative {
        return NumberCompareResult::Less;
    }
    if right_is_negative && !right_is_zero && !left_is_negative {
        return NumberCompareResult::Greater;
    }
    let non_negative_compare_result = compare_non_negative_decimal_parts(
        left_integer_digits.as_slice(),
        left_fractional_digits.as_slice(),
        right_integer_digits.as_slice(),
        right_fractional_digits.as_slice(),
    );
    if left_is_negative && !left_is_zero && right_is_negative && !right_is_zero {
        return match non_negative_compare_result {
            NumberCompareResult::Less => NumberCompareResult::Greater,
            NumberCompareResult::Equal => NumberCompareResult::Equal,
            NumberCompareResult::Greater => NumberCompareResult::Less,
        };
    }
    non_negative_compare_result
}

/// Compare a number string with zero.
pub fn compare_normalized_number_str_to_zero(number_value: &str) -> (r: NumberCompareResult)
    ensures
        r == decimal_sign(number_value@),
{
    let zero = "0";
    proof {
        reveal_strlit("0");
        assert(zero@ =~= seq!['0']);
        lemma_parse_zero_literal(zero@);
        let k = frac_len(number_value@);
        assert(max_nat(k, 0) == k);
        assert(padded(Seq::<u8>::empty(), k) =~= zeros(k));
        lemma_magnitude_zero(seq![0u8], Seq::<u8>::empty(), k);
        assert(all_zero(seq![0u8]));
    }
    compare_number_strings(number_value, zero)
}

// ------------------------------------------------------------------
// Laws of the comparison
// ------------------------------------------------------------------

/// Appending zeros multiplies a value by a power of ten.
pub proof fn lemma_digits_value_append_zeros(x: Seq<u8>, j: nat)
    ensures
        digits_value(x + zeros(j)) == digits_value(x) * pow10(j),
{
    lemma_digits_value_concat(x, zeros(j));
    lemma_digits_value_all_zero(zeros(j));
}

/// The value of a number string at a larger scale.
pub proof fn lemma_signed_scaled_rescale(s: Seq<char>, k: nat, j: nat)
    requires
        k >= frac_len(s),
    ensures
        signed_scaled(s, k + j) == signed_scaled(s, k) * pow10(j),
{
    let p = parse_parts(s);
    assert(padded(p.2, k + j) =~= padded(p.2, k) + zeros(j));
    assert(p.1 + padded(p.2, k + j) =~= (p.1 + padded(p.2, k)) + zeros(j));
    lemma_digits_value_append_zeros(p.1 + padded(p.2, k), j);
    let m = scaled_magnitude(p.1, p.2, k);
    let q = pow10(j);
    assert(-(m * q) == (-m) * q) by (nonlinear_arith);
}

/// Outside the negative-zero cases, the comparison is the order of the two
/// values at any common scale.
pub proof fn lemma_compare_at_scale(a: Seq<char>, b: Seq<char>, k: nat)
    requires
        k >= frac_len(a),
        k >= frac_len(b),
        !(is_negative_nonzero(a) && is_negative_zero(b)),
        !(is_negative_zero(a) && is_negative_nonzero(b)),
    ensures
        decimal_compare(a, b) == int_order(signed_scaled(a, k), signed_scaled(b, k)),
{
    let k0 = max_nat(frac_len(a), frac_len(b));
    let j = (k - k0) as nat;
    lemma_signed_scaled_rescale(a, k0, j);
    lemma_signed_scaled_rescale(b, k0, j);
    lemma_pow10_positive(j);
    let x = signed_scaled(a, k0);
    let y = signed_scaled(b, k0);
    let q = pow10(j) as int;
    assert(x < y ==> x * q < y * q) by (nonlinear_arith)
        requires
            q >= 1,
    ;
    assert(x > y ==> x * q > y * q) by (nonlinear_arith)
        requires
            q >= 1,
    ;
    assert(k0 + j == k);
}

/// Comparing `a` with `b` gives the reverse of comparing `b` with `a`.
pub proof fn law_decimal_compare_antisymmetric(a: Seq<char>, b: Seq<char>)
    ensures
        decimal_compare(a, b) == reverse_compare(decimal_compare(b, a)),
{
    assert(max_nat(frac_len(a), frac_len(b)) == max_nat(frac_len(b), frac_len(a)));
}

/// Every number string compares equal to itself.
pub proof fn law_decimal_compare_reflexive(a: Seq<char>)
    ensures
        decimal_compare(a, a) == NumberCompareResult::Equal,
{
}

/// Among number strings that are not a negative zero such as `"-0"`, the
/// comparison is transitive: `a <= b <= c` gives `a <= c`, strictly when
/// either step is strict.
pub proof fn law_decimal_compare_transitive(a: Seq<char>, b: Seq<char>, c: Seq<char>)
    requires
        !is_negative_zero(a),
        !is_negative_zero(b),
        !is_negative_zero(c),
    ensures
        decimal_compare(a, b) != NumberCompareResult::Greater && decimal_compare(b, c)
            != NumberCompareResult::Greater ==> decimal_compare(a, c) != NumberCompareResult::Greater,
        decimal_compare(a, b) == NumberCompareResult::Less && decimal_compare(b, c)
            != NumberCompareResult::Greater ==> decimal_compare(a, c) == NumberCompareResult::Less,
        decimal_compare(a, b) != NumberCompareResult::Greater && decimal_compare(b, c)
            == NumberCompareResult::Less ==> decimal_compare(a, c) == NumberCompareResult::Less,
        decimal_compare(a, b) == NumberCompareResult::Equal && decimal_compare(b, c)
            == NumberCompareResult::Equal ==> decimal_compare(a, c) == NumberCompareResult::Equal,
{
    let k = max_nat(frac_len(a), max_nat(frac_len(b), frac_len(c)));
    lemma_compare_at_scale(a, b, k);
    lemma_compare_at_scale(b, c, k);
    lemma_compare_at_scale(a, c, k);
}

/// Comparing with zero gives the sign of the number.
/// `trim_start` leaves no leading white space.
pub proof fn lemma_trim_start_clean(s: Seq<char>)
    ensures
        trim_start(s).len() == 0 || !is_white_space(trim_start(s)[0]),
        trim_start(trim_start(s)) == trim_start(s),
    decreases s.len(),
{
    if s.len() > 0 && is_white_space(s[0]) {
        lemma_trim_start_clean(s.drop_first());
    }
}

/// `trim_end` keeps a prefix and leaves no trailing white space.
pub proof fn lemma_trim_end_prefix(s: Seq<char>)
    ensures
        trim_end(s).len() <= s.len(),
        trim_end(s) == s.subrange(0, trim_end(s).len() as int),
        trim_end(s).len() == 0 || !is_white_space(trim_end(s).last()),
    decreases s.len(),
{
    if s.len() > 0 && is_white_space(s.last()) {
        lemma_trim_end_prefix(s.drop_last());
        assert(s.drop_last().subrange(0, trim_end(s).len() as int) =~= s.subrange(0, trim_end(s).len() as int));
    } else {
        assert(s.subrange(0, s.len() as int) =~= s);
    }
}

/// Trimming twice is trimming once.
pub proof fn lemma_trimmed_idempotent(s: Seq<char>)
    ensures
        trimmed(trimmed(s)) == trimmed(s),
{
    let u = trim_start(s);
    let t = trim_end(u);
    lemma_trim_start_clean(s);
    lemma_trim_end_prefix(u);
    if t.len() > 0 {
        assert(t[0] == u[0]);
    }
    assert(trim_start(t) == t);
    assert(trim_end(t) == t);
}

/// Comparing a string, or the string without its surrounding white space,
/// gives the same result: every comparison reads the trimmed string.
pub proof fn law_decimal_compare_ignores_white_space(a: Seq<char>, b: Seq<char>)
    ensures
        decimal_compare(trimmed(a), b) == decimal_compare(a, b),
        decimal_sign(trimmed(a)) == decimal_sign(a),
{
    lemma_trimmed_idempotent(a);
    assert(parse_parts(trimmed(a)) == parse_parts(a));
}

/// On strings that are not a negative zero (`-0`, `-0.0`, ...), as a
/// normalized number never is, comparison is by value: both numbers scaled
/// to a common number of decimals and compared as integers.
pub proof fn law_decimal_compare_by_value(a: Seq<char>, b: Seq<char>)
    requires
        !is_negative_zero(a),
        !is_negative_zero(b),
    ensures
        decimal_compare(a, b) == int_order(
            signed_scaled(a, max_nat(frac_len(a), frac_len(b))),
            signed_scaled(b, max_nat(frac_len(a), frac_len(b))),
        ),
{
}

pub proof fn law_decimal_sign_is_compare_with_zero(a: Seq<char>)
    ensures
        decimal_sign(a) == decimal_compare(a, seq!['0']),
{
    lemma_parse_zero_literal(seq!['0']);
    let k = frac_len(a);
    assert(max_nat(k, 0) == k);
    assert(padded(Seq::<u8>::empty(), k) =~= zeros(k));
    lemma_magnitude_zero(seq![0u8], Seq::<u8>::empty(), k);
    assert(all_zero(seq![0u8]));
}

} // verus!
