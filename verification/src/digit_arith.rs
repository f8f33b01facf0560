//! Exact arithmetic on decimal digit sequences (most significant digit first).
use vstd::prelude::*;
use crate::decimal::{digits_value, all_digits, all_zero, zeros, pow10, lemma_digits_value_concat,
    lemma_digits_value_single, lemma_digits_value_leading_zeros, lemma_digits_value_append_zeros};

verus! {

/// The value of a suffix is its first digit, scaled, plus the rest.
proof fn lemma_digits_value_split_first(s: Seq<u8>, p: int)
    requires
        0 <= p < s.len(),
    ensures
        digits_value(s.subrange(p, s.len() as int)) == s[p] * pow10((s.len() - p - 1) as nat)
            + digits_value(s.subrange(p + 1, s.len() as int)),
{
    let rest = s.subrange(p + 1, s.len() as int);
    assert(s.subrange(p, s.len() as int) =~= seq![s[p]] + rest);
    lemma_digits_value_concat(seq![s[p]], rest);
    lemma_digits_value_single(s[p]);
}

/// The sum of two digit sequences.
pub fn add_digits(x: &Vec<u8>, y: &Vec<u8>) -> (r: Vec<u8>)
    requires
        all_digits(x@),
        all_digits(y@),
    ensures
        all_digits(r@),
        digits_value(r@) == digits_value(x@) + digits_value(y@),
{
    let lx = x.len();
    let ly = y.len();
    let n = if lx < ly {
        ly
    } else {
        lx
    };
    let ghost xs = zeros((n - lx) as nat) + x@;
    let ghost ys = zeros((n - ly) as nat) + y@;
    let mut res: Vec<u8> = Vec::new();
    let mut t: usize = 0;
    while t < n
        invariant
            t <= n,
            res@ == zeros(t as nat),
        decreases n - t,
    {
        res.push(0);
        t = t + 1;
        assert(res@ =~= zeros(t as nat));
    }
    let mut carry: u8 = 0;
    let mut i: usize = n;
    proof {
        assert(xs.subrange(n as int, n as int) =~= Seq::<u8>::empty());
        assert(ys.subrange(n as int, n as int) =~= Seq::<u8>::empty());
        assert(res@.subrange(n as int, n as int) =~= Seq::<u8>::empty());
    }
    while i > 0
        invariant
            i <= n,
            n == xs.len(),
            n == ys.len(),
            xs == zeros((n - lx) as nat) + x@,
            ys == zeros((n - ly) as nat) + y@,
            lx == x@.len(),
            ly == y@.len(),
            lx <= n,
            ly <= n,
            all_digits(x@),
            all_digits(y@),
            res@.len() == n,
            all_digits(res@),
            carry <= 1,
            digits_value(xs.subrange(i as int, n as int)) + digits_value(ys.subrange(i as int, n as int))
                == digits_value(res@.subrange(i as int, n as int)) + carry * pow10((n - i) as nat),
        decreases i,
    {
        let p = i - 1;
        let xd: u8 = if p >= n - lx {
            x[p - (n - lx)]
        } else {
            0
        };
        let yd: u8 = if p >= n - ly {
            y[p - (n - ly)]
        } else {
            0
        };
        assert(xd == xs[p as int]);
        assert(yd == ys[p as int]);
        let s: u8 = xd + yd + carry;
        let ghost old_res = res@;
        let ghost old_carry = carry;
        res.set(p, s % 10);
        carry = s / 10;
        proof {
            let q = pow10((n - i) as nat);
            lemma_digits_value_split_first(xs, p as int);
            lemma_digits_value_split_first(ys, p as int);
            lemma_digits_value_split_first(res@, p as int);
            assert(res@.subrange(i as int, n as int) =~= old_res.subrange(i as int, n as int));
            assert((n - p - 1) as nat == (n - i) as nat);
            assert(pow10((n - p) as nat) == 10 * q);
            assert(xd * q + yd * q + old_carry * q == (s % 10) * q + (s / 10) * (10 * q)) by (nonlinear_arith)
                requires
                    s == xd + yd + old_carry,
            ;
            assert(all_digits(res@)) by {
                assert forall|j: int| 0 <= j < res@.len() implies #[trigger] res@[j] <= 9 by {
                    if j != p {
                        assert(res@[j] == old_res[j]);
                    }
                }
            }
        }
        i = p;
    }
    proof {
        assert(xs.subrange(0, n as int) =~= xs);
        assert(ys.subrange(0, n as int) =~= ys);
        assert(res@.subrange(0, n as int) =~= res@);
        lemma_digits_value_leading_zeros(zeros((n - lx) as nat), x@);
        lemma_digits_value_leading_zeros(zeros((n - ly) as nat), y@);
    }
    if carry == 0 {
        res
    } else {
        let mut out: Vec<u8> = Vec::new();
        out.push(1);
        let ghost low = res@;
        out.append(&mut res);
        proof {
            assert(out@ =~= seq![1u8] + low);
            lemma_digits_value_concat(seq![1u8], low);
            lemma_digits_value_single(1u8);
            assert(all_digits(out@)) by {
                assert forall|j: int| 0 <= j < out@.len() implies #[trigger] out@[j] <= 9 by {
                    if j > 0 {
                        assert(out@[j] == low[j - 1]);
                    }
                }
            }
        }
        out
    }
}

/// The digits multiplied by a single digit.
pub fn mul_digits_by_digit(x: &Vec<u8>, d: u8) -> (r: Vec<u8>)
    requires
        all_digits(x@),
        d <= 9,
    ensures
        all_digits(r@),
        digits_value(r@) == digits_value(x@) * d,
{
    let mut acc: Vec<u8> = Vec::new();
    let mut t: u8 = 0;
    while t < d
        invariant
            t <= d,
            all_digits(x@),
            all_digits(acc@),
            digits_value(acc@) == digits_value(x@) * t,
        decreases d - t,
    {
        let ghost before = digits_value(acc@);
        acc = add_digits(&acc, x);
        proof {
            let v = digits_value(x@);
            assert(v * t + v == v * (t + 1)) by (nonlinear_arith);
        }
        t = t + 1;
    }
    acc
}

/// The product of two digit sequences.
pub fn mul_digits(x: &Vec<u8>, y: &Vec<u8>) -> (r: Vec<u8>)
    requires
        all_digits(x@),
        all_digits(y@),
    ensures
        all_digits(r@),
        digits_value(r@) == digits_value(x@) * digits_value(y@),
{
    let mut acc: Vec<u8> = Vec::new();
    let mut i: usize = 0;
    proof {
        assert(y@.take(0) =~= Seq::<u8>::empty());
        assert(digits_value(y@.take(0)) == 0);
        assert(digits_value(acc@) == 0);
        assert(digits_value(x@) * 0 == 0);
    }
    while i < y.len()
        invariant
            i <= y.len(),
            all_digits(x@),
            all_digits(y@),
            all_digits(acc@),
            digits_value(acc@) == digits_value(x@) * digits_value(y@.take(i as int)),
        decreases y.len() - i,
    {
        let ghost shifted_from = acc@;
        acc.push(0);
        proof {
            assert(acc@.drop_last() =~= shifted_from);
            assert(digits_value(acc@) == digits_value(shifted_from) * 10);
        }
        let part = mul_digits_by_digit(x, y[i]);
        acc = add_digits(&acc, &part);
        proof {
            let ti = y@.take(i as int);
            assert(y@.take(i + 1).drop_last() =~= ti);
            assert(y@.take(i + 1).last() == y@[i as int]);
            let vx = digits_value(x@);
            let vt = digits_value(ti);
            let dd = y@[i as int];
            assert(vx * vt * 10 + vx * dd == vx * (vt * 10 + dd)) by (nonlinear_arith);
        }
        i = i + 1;
    }
    proof {
        assert(y@.take(y@.len() as int) =~= y@);
    }
    acc
}

/// The digits followed by `j` zeros: the value times `10^j`.
pub fn append_zero_digits(x: &Vec<u8>, j: usize) -> (r: Vec<u8>)
    requires
        all_digits(x@),
    ensures
        all_digits(r@),
        r@ == x@ + zeros(j as nat),
        digits_value(r@) == digits_value(x@) * pow10(j as nat),
{
    let mut out: Vec<u8> = Vec::new();
    let mut i: usize = 0;
    while i < x.len()
        invariant
            i <= x.len(),
            out@ == x@.take(i as int),
        decreases x.len() - i,
    {
        out.push(x[i]);
        i = i + 1;
        assert(out@ =~= x@.take(i as int));
    }
    let mut k: usize = 0;
    assert(x@.take(x@.len() as int) =~= x@);
    assert(out@ =~= x@ + zeros(0));
    while k < j
        invariant
            k <= j,
            out@ == x@ + zeros(k as nat),
        decreases j - k,
    {
        out.push(0);
        k = k + 1;
        assert(out@ =~= x@ + zeros(k as nat));
    }
    proof {
        lemma_digits_value_append_zeros(x@, j as nat);
        assert(all_digits(out@)) by {
            assert forall|t: int| 0 <= t < out@.len() implies #[trigger] out@[t] <= 9 by {
                if t < x@.len() {
                    assert(out@[t] == x@[t]);
                }
            }
        }
    }
    out
}

} // verus!
