//! Number literals read as 128-bit integers, and integers written back as
//! decimal strings.
use vstd::prelude::*;
use crate::decimal::{is_digit_char, digit_value, digits_in, digits_value, str_chars};

verus! {

/// Every character is an ASCII digit.
pub open spec fn all_digit_chars(s: Seq<char>) -> bool {
    forall|i: int| 0 <= i < s.len() ==> is_digit_char(#[trigger] s[i])
}

/// A leading `-` or `+` read off as a sign, and the rest.
pub open spec fn sign_and_body(s: Seq<char>) -> (bool, Seq<char>) {
    if s.len() > 0 && s[0] == '-' {
        (true, s.drop_first())
    } else if s.len() > 0 && s[0] == '+' {
        (false, s.drop_first())
    } else {
        (false, s)
    }
}

/// The value of `s` as a 128-bit integer literal: an optional sign and at
/// least one digit, the value in range; `None` otherwise.
pub closed spec fn i128_literal(s: Seq<char>) -> Option<int> {
    let (neg, body) = sign_and_body(s);
    let mag = digits_value(digits_in(body)) as int;
    let v = if neg {
        -mag
    } else {
        mag
    };
    if body.len() > 0 && all_digit_chars(body) && i128::MIN <= v <= i128::MAX {
        Some(v)
    } else {
        None
    }
}

/// The character of a decimal digit.
pub open spec fn digit_char(d: nat) -> char {
    ((d + '0' as nat) as u32) as char
}

/// The decimal digits of a natural number, without leading zeros.
pub open spec fn nat_string(n: nat) -> Seq<char>
    decreases n,
{
    if n < 10 {
        seq![digit_char(n)]
    } else {
        nat_string(n / 10).push(digit_char(n % 10))
    }
}

/// An integer written in decimal, with a leading `-` when negative.
pub closed spec fn int_string(v: int) -> Seq<char> {
    if v < 0 {
        seq!['-'] + nat_string((-v) as nat)
    } else {
        nat_string(v as nat)
    }
}

/// A literal's value is in the 128-bit range.
pub proof fn lemma_i128_literal_range(s: Seq<char>)
    ensures
        i128_literal(s) matches Some(v) ==> i128::MIN <= v <= i128::MAX,
{
}

/// The character of a digit is a digit character of that value.
proof fn lemma_digit_char(d: nat)
    requires
        d < 10,
    ensures
        is_digit_char(digit_char(d)),
        digit_value(digit_char(d)) == d,
{
}

/// The decimal digits of `n` are digit characters that read back as `n`.
proof fn lemma_nat_string_reads_back(n: nat)
    ensures
        nat_string(n).len() > 0,
        all_digit_chars(nat_string(n)),
        digits_value(digits_in(nat_string(n))) == n,
    decreases n,
{
    if n < 10 {
        lemma_digit_char(n);
        let s = nat_string(n);
        assert(s.drop_last() =~= Seq::<char>::empty());
        assert(digits_in(s) == digits_in(Seq::<char>::empty()).push(digit_value(s.last())));
        assert(digits_in(s) =~= seq![n as u8]);
        assert(seq![n as u8].drop_last() =~= Seq::<u8>::empty());
        assert(digits_value(seq![n as u8]) == digits_value(Seq::<u8>::empty()) * 10 + n);
    } else {
        lemma_nat_string_reads_back(n / 10);
        lemma_digit_char(n % 10);
        let prev = nat_string(n / 10);
        let s = nat_string(n);
        assert(s == prev.push(digit_char(n % 10)));
        assert(s.drop_last() =~= prev);
        let dv = digits_in(prev);
        assert(digits_in(s) == dv.push(digit_value(digit_char(n % 10))));
        assert(dv.push((n % 10) as u8).drop_last() =~= dv);
        assert(digits_in(s) == dv.push((n % 10) as u8));
        assert(digits_value(dv.push((n % 10) as u8)) == digits_value(dv) * 10 + (n % 10));
        assert((n / 10) * 10 + n % 10 == n);
        assert forall|i: int| 0 <= i < s.len() implies is_digit_char(#[trigger] s[i]) by {
            if i < prev.len() {
                assert(s[i] == prev[i]);
            }
        }
    }
}

/// Reading back an integer written in decimal gives the integer.
pub proof fn law_i128_literal_of_int_string(v: int)
    requires
        i128::MIN <= v <= i128::MAX,
    ensures
        i128_literal(int_string(v)) == Some(v),
{
    if v < 0 {
        let body = nat_string((-v) as nat);
        lemma_nat_string_reads_back((-v) as nat);
        let s = seq!['-'] + body;
        assert(s.drop_first() =~= body);
        assert(sign_and_body(s) == (true, body));
    } else {
        let s = nat_string(v as nat);
        lemma_nat_string_reads_back(v as nat);
        assert(is_digit_char(s[0]));
        assert(sign_and_body(s) == (false, s));
    }
}

/// Appending digits never decreases a value.
proof fn lemma_digits_in_prefix_monotone(body: Seq<char>, k: int, n: int)
    requires
        0 <= k <= n <= body.len(),
    ensures
        digits_value(digits_in(body.take(k))) <= digits_value(digits_in(body.take(n))),
    decreases n - k,
{
    if k < n {
        lemma_digits_in_prefix_monotone(body, k, n - 1);
        let t = body.take(n);
        assert(t.drop_last() =~= body.take(n - 1));
        let prev = digits_in(body.take(n - 1));
        if is_digit_char(t.last()) {
            assert(digits_in(t) == prev.push(digit_value(t.last())));
            assert(prev.push(digit_value(t.last())).drop_last() =~= prev);
        }
    }
}

/// Read a literal as a 128-bit integer, as `str::parse::<i128>` does.
pub fn parse_i128_literal(s: &str) -> (r: Option<i128>)
    ensures
        match i128_literal(s@) {
            Some(v) => r == Some(v as i128),
            None => r is None,
        },
{
    let cs = str_chars(s);
    let ghost sb = sign_and_body(s@);
    let mut start: usize = 0;
    let mut neg = false;
    if cs.len() > 0 && cs[0] == '-' {
        start = 1;
        neg = true;
    } else if cs.len() > 0 && cs[0] == '+' {
        start = 1;
    }
    let ghost body = sb.1;
    assert(body =~= cs@.subrange(start as int, cs@.len() as int));
    if start >= cs.len() {
        return None;
    }
    let limit: u128 = 170141183460469231731687303715884105728;
    let mut mag: u128 = 0;
    let mut i: usize = start;
    proof {
        assert(body.take(0) =~= Seq::<char>::empty());
    }
    while i < cs.len()
        invariant
            start <= i <= cs.len(),
            body == cs@.subrange(start as int, cs@.len() as int),
            body == sign_and_body(s@).1,
            neg == sign_and_body(s@).0,
            limit == 170141183460469231731687303715884105728,
            mag <= limit,
            mag == digits_value(digits_in(body.take(i - start))),
            all_digit_chars(body.take(i - start)),
        decreases cs.len() - i,
    {
        let c = cs[i];
        proof {
            assert(body.take(i - start + 1).drop_last() =~= body.take(i - start));
            assert(body.take(i - start + 1).last() == c);
        }
        if !('0' <= c && c <= '9') {
            assert(!all_digit_chars(body)) by {
                assert(body[i - start] == c);
            }
            return None;
        }
        let d: u8 = (c as u32 - '0' as u32) as u8;
        assert(d == digit_value(c));
        proof {
            let prev = digits_in(body.take(i - start));
            assert(digits_in(body.take(i - start + 1)) == prev.push(d));
            assert(prev.push(d).drop_last() =~= prev);
            assert(digits_value(digits_in(body.take(i - start + 1))) == mag * 10 + d);
        }
        if mag > 17014118346046923173168730371588410572 {
            proof {
                lemma_digits_in_prefix_monotone(body, i - start + 1, body.len() as int);
                assert(body.take(body.len() as int) =~= body);
            }
            return None;
        }
        mag = mag * 10 + d as u128;
        i = i + 1;
        proof {
            assert forall|j: int| 0 <= j < body.take(i - start).len() implies is_digit_char(#[trigger] body.take(i - start)[j]) by {
                if j < i - start - 1 {
                    assert(body.take(i - start)[j] == body.take(i - start - 1)[j]);
                }
            }
        }
        if mag > limit {
            proof {
                lemma_digits_in_prefix_monotone(body, i - start, body.len() as int);
                assert(body.take(body.len() as int) =~= body);
            }
            return None;
        }
    }
    proof {
        assert(body.take(i - start) =~= body);
    }
    if neg {
        if mag == limit {
            Some(i128::MIN)
        } else {
            Some(-(mag as i128))
        }
    } else {
        if mag == limit {
            None
        } else {
            Some(mag as i128)
        }
    }
}

/// The one-character string of a decimal digit.
fn digit_str(d: u8) -> (r: &'static str)
    requires
        d <= 9,
    ensures
        r@ == seq![digit_char(d as nat)],
{
    proof {
        reveal_strlit("0");
        reveal_strlit("1");
        reveal_strlit("2");
        reveal_strlit("3");
        reveal_strlit("4");
        reveal_strlit("5");
        reveal_strlit("6");
        reveal_strlit("7");
        reveal_strlit("8");
        reveal_strlit("9");
    }
    match d {
        0 => "0",
        1 => "1",
        2 => "2",
        3 => "3",
        4 => "4",
        5 => "5",
        6 => "6",
        7 => "7",
        8 => "8",
        _ => "9",
    }
}

/// The decimal digits of a natural number, least significant first.
proof fn lemma_nat_string_split(n: nat)
    requires
        n >= 10,
    ensures
        nat_string(n) == nat_string(n / 10).push(digit_char(n % 10)),
{
}

/// Write an integer in decimal.
pub fn i128_to_string(v: i128) -> (r: String)
    ensures
        r@ == int_string(v as int),
{
    let neg = v < 0;
    let mut m: u128 = if neg {
        if v == i128::MIN {
            170141183460469231731687303715884105728
        } else {
            (-v) as u128
        }
    } else {
        v as u128
    };
    let ghost n0: nat = m as nat;
    assert(n0 == (if neg { -(v as int) } else { v as int }));
    // Digits from the least significant one.
    let mut rev: Vec<u8> = Vec::new();
    proof {
        assert(Seq::new(0, |k: int| digit_char(rev@[rev@.len() - 1 - k] as nat)) =~= Seq::<char>::empty());
        assert(nat_string(n0) =~= nat_string(m as nat) + Seq::<char>::empty());
    }
    while m >= 10
        invariant
            nat_string(n0) == nat_string(m as nat) + Seq::new(rev@.len(), |k: int| digit_char(rev@[rev@.len() - 1 - k] as nat)),
            forall|k: int| 0 <= k < rev@.len() ==> rev@[k] <= 9,
        decreases m,
    {
        let d = (m % 10) as u8;
        let ghost old_rev = rev@;
        let ghost old_m: nat = m as nat;
        rev.push(d);
        m = m / 10;
        proof {
            lemma_nat_string_split(old_m);
            let tail_old = Seq::new(old_rev.len(), |k: int| digit_char(old_rev[old_rev.len() - 1 - k] as nat));
            let tail_new = Seq::new(rev@.len(), |k: int| digit_char(rev@[rev@.len() - 1 - k] as nat));
            assert(tail_new =~= seq![digit_char(d as nat)] + tail_old);
            assert(nat_string(old_m) + tail_old =~= nat_string(m as nat) + tail_new);
        }
    }
    let ghost before_last = rev@;
    rev.push(m as u8);
    proof {
        let tail_old = Seq::new(before_last.len(), |k: int| digit_char(before_last[before_last.len() - 1 - k] as nat));
        let tail_new = Seq::new(rev@.len(), |k: int| digit_char(rev@[rev@.len() - 1 - k] as nat));
        assert(nat_string(m as nat) == seq![digit_char(m as nat)]);
        assert(tail_new =~= seq![digit_char(m as nat)] + tail_old);
        assert(nat_string(n0) =~= tail_new);
    }
    let ghost digits = Seq::new(rev@.len(), |k: int| digit_char(rev@[rev@.len() - 1 - k] as nat));
    assert(nat_string(n0) == digits);
    let mut out = String::new();
    proof {
        reveal_strlit("-");
    }
    if neg {
        out.append("-");
    }
    let ghost prefix: Seq<char> = if neg { seq!['-'] } else { Seq::empty() };
    assert(out@ =~= prefix);
    let mut j: usize = rev.len();
    while j > 0
        invariant
            j <= rev@.len(),
            digits.len() == rev@.len(),
            digits == Seq::new(rev@.len(), |k: int| digit_char(rev@[rev@.len() - 1 - k] as nat)),
            forall|k: int| 0 <= k < rev@.len() ==> rev@[k] <= 9,
            out@ == prefix + digits.take(rev@.len() - j),
        decreases j,
    {
        let s = digit_str(rev[j - 1]);
        let ghost before = out@;
        out.append(s);
        j = j - 1;
        proof {
            assert(digits[rev@.len() - 1 - j as int] == digit_char(rev@[j as int] as nat));
            assert(digits.take(rev@.len() - j) =~= digits.take(rev@.len() - j - 1).push(digits[rev@.len() - 1 - j as int]));
            assert(out@ =~= prefix + digits.take(rev@.len() - j));
        }
    }
    assert(digits.take(rev@.len() as int) =~= digits);
    out
}

} // verus!
