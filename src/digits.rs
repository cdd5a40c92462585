//! Natural numbers of any size, held as decimal digits, least significant
//! first. They carry the exact product `initial · multiplier^n` of the
//! backoff, which soon outgrows every machine integer.
use vstd::prelude::*;
use vstd::arithmetic::div_mod::lemma_fundamental_div_mod_converse;

verus! {

/// `b` to the power `e`.
pub open spec fn pow(b: int, e: nat) -> int
    decreases e,
{
    if e == 0 { 1 } else { b * pow(b, (e - 1) as nat) }
}

/// A positive base has positive powers.
pub proof fn lemma_pow_positive(b: int, e: nat)
    requires
        b > 0,
    ensures
        pow(b, e) > 0,
    decreases e,
{
    if e > 0 {
        lemma_pow_positive(b, (e - 1) as nat);
        assert(b * pow(b, (e - 1) as nat) > 0) by (nonlinear_arith)
            requires b > 0, pow(b, (e - 1) as nat) > 0;
    }
}

/// Powers of one base multiply by adding exponents.
pub proof fn lemma_pow_adds(b: int, e1: nat, e2: nat)
    ensures
        pow(b, e1 + e2) == pow(b, e1) * pow(b, e2),
    decreases e2,
{
    if e2 > 0 {
        lemma_pow_adds(b, e1, (e2 - 1) as nat);
        assert((e1 + e2 - 1) as nat == e1 + (e2 - 1) as nat);
        assert(b * (pow(b, e1) * pow(b, (e2 - 1) as nat)) == pow(b, e1) * (b * pow(b, (e2 - 1) as nat))) by (nonlinear_arith);
    }
}

/// The number that decimal digits write, least significant first.
pub open spec fn value(s: Seq<u8>) -> int
    decreases s.len(),
{
    if s.len() == 0 {
        0
    } else {
        value(s.drop_last()) + s.last() * pow(10, (s.len() - 1) as nat)
    }
}

/// Whether every entry is a decimal digit.
pub open spec fn all_digits(s: Seq<u8>) -> bool {
    forall|i: int| 0 <= i < s.len() ==> #[trigger] s[i] < 10
}

/// One more power of ten.
proof fn lemma_pow10_step(e: nat)
    ensures
        pow(10, e + 1) == 10 * pow(10, e),
        pow(10, e) > 0,
{
    assert(pow(10, e + 1) == 10 * pow(10, ((e + 1) - 1) as nat));
    lemma_pow_positive(10, e);
}

/// Appending a digit adds it at the next power of ten.
proof fn lemma_push_digit(s: Seq<u8>, d: u8)
    ensures
        value(s.push(d)) == value(s) + d * pow(10, s.len()),
{
    assert(s.push(d).drop_last() =~= s);
}

/// Splitting off the last decimal digit of `x` at weight `p`.
proof fn lemma_split_digit(p: int, x: int)
    requires
        x >= 0,
    ensures
        p * x == p * (x % 10) + (10 * p) * (x / 10),
{
    assert(x == 10 * (x / 10) + x % 10);
    assert(p * x == p * (x % 10) + (10 * p) * (x / 10)) by (nonlinear_arith)
        requires x == 10 * (x / 10) + x % 10;
}

/// Digits write a number below the next power of ten, and not below zero.
pub proof fn lemma_value_bound(s: Seq<u8>)
    requires
        all_digits(s),
    ensures
        0 <= value(s) < pow(10, s.len()),
    decreases s.len(),
{
    if s.len() > 0 {
        let p = s.drop_last();
        assert(all_digits(p)) by {
            assert forall|i: int| 0 <= i < p.len() implies #[trigger] p[i] < 10 by {
                assert(p[i] == s[i]);
            }
        }
        lemma_value_bound(p);
        lemma_pow10_step(p.len());
        let d = s.last() as int;
        assert(s[s.len() - 1] < 10);
        let q = pow(10, p.len());
        assert(value(p) + d * q < 10 * q) by (nonlinear_arith)
            requires value(p) < q, d <= 9, q > 0;
        assert(d * q >= 0) by (nonlinear_arith)
            requires d >= 0, q > 0;
    } else {
        assert(pow(10, 0) == 1);
    }
}

/// The digits below position `j` and those from it: `value(s)` is
/// `value(take(j)) + 10^j · value(skip(j))`.
pub proof fn lemma_value_split(s: Seq<u8>, j: int)
    requires
        0 <= j <= s.len(),
    ensures
        value(s) == value(s.take(j)) + pow(10, j as nat) * value(s.skip(j)),
    decreases s.len(),
{
    if j == s.len() {
        assert(s.take(j) =~= s);
        assert(s.skip(j).len() == 0);
    } else {
        let p = s.drop_last();
        lemma_value_split(p, j);
        assert(p.take(j) =~= s.take(j));
        let hi = s.skip(j);
        assert(hi.drop_last() =~= p.skip(j));
        assert(hi.last() == s.last());
        let a = pow(10, j as nat);
        let b = pow(10, (hi.len() - 1) as nat);
        lemma_pow_adds(10, j as nat, (hi.len() - 1) as nat);
        assert((j + (hi.len() - 1)) as nat == (s.len() - 1) as nat);
        let l = s.last() as int;
        assert(a * (value(p.skip(j)) + l * b) == a * value(p.skip(j)) + l * (a * b)) by (nonlinear_arith);
    }
}

/// Dropping the `j` lowest digits divides by `10^j`, rounding down.
pub proof fn lemma_value_shift(s: Seq<u8>, j: int)
    requires
        0 <= j <= s.len(),
        all_digits(s),
    ensures
        value(s) / pow(10, j as nat) == value(s.skip(j)),
{
    lemma_value_split(s, j);
    let lo = s.take(j);
    assert(all_digits(lo)) by {
        assert forall|i: int| 0 <= i < lo.len() implies #[trigger] lo[i] < 10 by {
            assert(lo[i] == s[i]);
        }
    }
    lemma_value_bound(lo);
    lemma_pow_positive(10, j as nat);
    let d = pow(10, j as nat);
    let q = value(s.skip(j));
    assert(d * q == q * d) by (nonlinear_arith);
    lemma_fundamental_div_mod_converse(value(s), d, q, value(lo));
}

/// The digits of a number.
pub fn from_u64(n: u64) -> (r: Vec<u8>)
    ensures
        all_digits(r@),
        value(r@) == n,
{
    let mut out: Vec<u8> = Vec::new();
    let mut rest: u64 = n;
    while rest > 0
        invariant
            all_digits(out@),
            value(out@) + pow(10, out@.len()) * rest == n,
        decreases rest,
    {
        let d = (rest % 10) as u8;
        let ghost before = out@;
        proof {
            lemma_pow10_step(before.len());
            lemma_push_digit(before, d);
            lemma_split_digit(pow(10, before.len()), rest as int);
            let p = pow(10, before.len());
            assert((d as int) * p == p * (d as int)) by (nonlinear_arith);
            assert(d as int == rest % 10);
        }
        out.push(d);
        rest = rest / 10;
    }
    out
}

/// The digits of `value(s) · m`.
pub fn mul_small(s: &Vec<u8>, m: u32) -> (r: Vec<u8>)
    requires
        all_digits(s@),
    ensures
        all_digits(r@),
        value(r@) == value(s@) * m,
{
    let mut out: Vec<u8> = Vec::new();
    let mut carry: u64 = 0;
    let mut i: usize = 0;
    while i < s.len()
        invariant
            i <= s@.len(),
            out@.len() == i,
            all_digits(s@),
            all_digits(out@),
            carry < m as u64 || (carry == 0 && m == 0),
            value(out@) + pow(10, i as nat) * carry == value(s@.take(i as int)) * m,
        decreases s@.len() - i,
    {
        assert(s[i as int] < 10);
        assert((s[i as int] as u64) * (m as u64) + carry <= 10 * 0xffff_ffffu64) by (nonlinear_arith)
            requires s[i as int] < 10, m <= 0xffff_ffffu32, carry < m as u64 || carry == 0;
        let t: u64 = s[i] as u64 * m as u64 + carry;
        let d = (t % 10) as u8;
        let ghost before = out@;
        let ghost p = pow(10, i as nat);
        proof {
            lemma_pow10_step(i as nat);
            assert(s@.take(i as int + 1).drop_last() =~= s@.take(i as int));
            assert(s[i as int] < 10);
        }
        proof {
            lemma_push_digit(before, d);
            lemma_split_digit(p, t as int);
        }
        out.push(d);
        assert(p * (t as int) == p * (s[i as int] as int) * (m as int) + p * (carry as int)) by (nonlinear_arith)
            requires t as int == (s[i as int] as int) * (m as int) + carry as int;
        assert((value(s@.take(i as int)) + (s[i as int] as int) * p) * (m as int)
            == value(s@.take(i as int)) * (m as int) + p * (s[i as int] as int) * (m as int)) by (nonlinear_arith);
        assert((t / 10) < m as u64 || (t / 10 == 0 && m == 0)) by (nonlinear_arith)
            requires t as int == (s[i as int] as int) * (m as int) + carry as int, s[i as int] < 10,
                carry < m as u64 || (carry == 0 && m == 0);
        carry = t / 10;
        i = i + 1;
    }
    assert(s@.take(s@.len() as int) =~= s@);
    while carry > 0
        invariant
            all_digits(out@),
            value(out@) + pow(10, out@.len()) * carry == value(s@) * m,
        decreases carry,
    {
        let d = (carry % 10) as u8;
        let ghost before = out@;
        let ghost p = pow(10, before.len());
        proof {
            lemma_pow10_step(before.len());
        }
        proof {
            lemma_pow10_step(before.len());
            lemma_push_digit(before, d);
            lemma_split_digit(p, carry as int);
            assert((d as int) * p == p * (d as int)) by (nonlinear_arith);
            assert(d as int == carry % 10);
        }
        out.push(d);
        carry = carry / 10;
    }
    out
}

/// Two to the power sixty-four, one more than `u64::MAX`.
pub open spec fn cap() -> int {
    0x1_0000_0000_0000_0000
}

/// The smaller of a number and `cap()`.
pub open spec fn capped(x: int) -> int {
    if x < cap() { x } else { cap() }
}

/// The number that the digits from position `j` write, capped at `2^64`:
/// `min(value(s) / 10^j, 2^64)`.
pub fn high_part_capped(s: &Vec<u8>, j: usize) -> (r: u128)
    requires
        all_digits(s@),
    ensures
        j <= s@.len() ==> r == capped(value(s@.skip(j as int))),
        j > s@.len() ==> r == 0,
{
    let n = s.len();
    if j > n {
        return 0;
    }
    let mut v: u128 = 0;
    let mut t: usize = n;
    assert(s@.subrange(n as int, n as int).len() == 0);
    while t > j
        invariant
            j <= t <= n,
            n == s@.len(),
            all_digits(s@),
            v == capped(value(s@.subrange(t as int, n as int))),
        decreases t,
    {
        t = t - 1;
        let d = s[t] as u128;
        proof {
            let u = s@.subrange(t as int, n as int);
            lemma_value_split(u, 1);
            assert(u.skip(1) =~= s@.subrange(t as int + 1, n as int));
            assert(u.take(1) =~= seq![].push(u[0]));
            lemma_push_digit(seq![], u[0]);
            assert(value(Seq::<u8>::empty()) == 0);
            assert(pow(10, 1) == 10 * pow(10, 0));
            assert(s[t as int] < 10);
            let x = value(s@.subrange(t as int + 1, n as int));
            let hi = s@.subrange(t as int + 1, n as int);
            assert forall|i: int| 0 <= i < hi.len() implies #[trigger] hi[i] < 10 by {
                assert(hi[i] == s[t + 1 + i]);
            }
            lemma_value_bound(hi);
            assert(capped(capped(x) * 10 + d) == capped(x * 10 + d)) by (nonlinear_arith)
                requires x >= 0, d >= 0;
            assert(u[0] == s[t as int]);
            assert(value(u) == x * 10 + d) by (nonlinear_arith)
                requires value(u) == (u[0] as int) * 1 + 10 * x, u[0] as int == d;
        }
        let w = v * 10 + d;
        v = if w < 0x1_0000_0000_0000_0000u128 { w } else { 0x1_0000_0000_0000_0000u128 };
    }
    assert(s@.subrange(j as int, n as int) =~= s@.skip(j as int));
    v
}

} // verus!
