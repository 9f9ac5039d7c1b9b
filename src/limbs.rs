//! Little-endian 64-bit limb representation of 256-bit integers.
use vstd::prelude::*;

verus! {

pub open spec fn base() -> int {
    0x1_0000_0000_0000_0000int
}

/// The integer `l[0] + 2^64 * (l[1] + 2^64 * (l[2] + 2^64 * l[3]))`.
pub open spec fn limbs_value(l: [u64; 4]) -> int {
    l@[0] as int + base() * (l@[1] as int + base() * (l@[2] as int + base() * l@[3] as int))
}

/// Splitting off the lowest digit in base 2^64 is unique and keeps the order.
proof fn lemma_digit_split(a0: int, x: int, b0: int, y: int)
    requires
        0 <= a0 < base(),
        0 <= b0 < base(),
    ensures
        (a0 + base() * x == b0 + base() * y) <==> (a0 == b0 && x == y),
        (a0 + base() * x < b0 + base() * y) <==> (x < y || (x == y && a0 < b0)),
{
    let b = base();
    assert((a0 + b * x == b0 + b * y) ==> (a0 == b0 && x == y)) by (nonlinear_arith)
        requires 0 <= a0 < b, 0 <= b0 < b;
    assert((a0 + b * x < b0 + b * y) ==> (x < y || (x == y && a0 < b0))) by (nonlinear_arith)
        requires 0 <= a0 < b, 0 <= b0 < b;
    assert((x < y || (x == y && a0 < b0)) ==> (a0 + b * x < b0 + b * y)) by (nonlinear_arith)
        requires 0 <= a0 < b, 0 <= b0 < b;
}

pub proof fn lemma_limbs_value_bounds(l: [u64; 4])
    ensures
        0 <= limbs_value(l) < base() * base() * base() * base(),
{
    let b = base();
    let (l0, l1, l2, l3) = (l@[0] as int, l@[1] as int, l@[2] as int, l@[3] as int);
    assert(0 <= l0 + b * (l1 + b * (l2 + b * l3)) < b * b * b * b) by (nonlinear_arith)
        requires 0 <= l0 < b, 0 <= l1 < b, 0 <= l2 < b, 0 <= l3 < b;
}

/// Two limb arrays denote the same integer only when they are equal.
pub proof fn lemma_limbs_value_injective(a: [u64; 4], b: [u64; 4])
    requires
        limbs_value(a) == limbs_value(b),
    ensures
        a == b,
{
    let k = base();
    lemma_digit_split(a@[0] as int, a@[1] as int + k * (a@[2] as int + k * a@[3] as int),
        b@[0] as int, b@[1] as int + k * (b@[2] as int + k * b@[3] as int));
    lemma_digit_split(a@[1] as int, a@[2] as int + k * a@[3] as int,
        b@[1] as int, b@[2] as int + k * b@[3] as int);
    lemma_digit_split(a@[2] as int, a@[3] as int, b@[2] as int, b@[3] as int);
    assert(a@ =~= b@);
}

/// Whether the integer that `a` denotes is below the one that `b` denotes.
pub fn limbs_lt(a: &[u64; 4], b: &[u64; 4]) -> (r: bool)
    ensures
        r == (limbs_value(*a) < limbs_value(*b)),
{
    proof {
        let k = base();
        lemma_digit_split(a@[0] as int, a@[1] as int + k * (a@[2] as int + k * a@[3] as int),
            b@[0] as int, b@[1] as int + k * (b@[2] as int + k * b@[3] as int));
        lemma_digit_split(a@[1] as int, a@[2] as int + k * a@[3] as int,
            b@[1] as int, b@[2] as int + k * b@[3] as int);
        lemma_digit_split(a@[2] as int, a@[3] as int, b@[2] as int, b@[3] as int);
    }
    if a[3] != b[3] {
        a[3] < b[3]
    } else if a[2] != b[2] {
        a[2] < b[2]
    } else if a[1] != b[1] {
        a[1] < b[1]
    } else {
        a[0] < b[0]
    }
}

/// Whether two limb arrays denote the same integer.
pub fn limbs_eq(a: &[u64; 4], b: &[u64; 4]) -> (r: bool)
    ensures
        r == (limbs_value(*a) == limbs_value(*b)),
{
    proof {
        if limbs_value(*a) == limbs_value(*b) {
            lemma_limbs_value_injective(*a, *b);
        }
    }
    a[0] == b[0] && a[1] == b[1] && a[2] == b[2] && a[3] == b[3]
}

/// The lowest bit of the denoted integer.
pub fn limbs_is_odd(a: &[u64; 4]) -> (r: bool)
    ensures
        r == (limbs_value(*a) % 2 == 1),
{
    proof {
        let k = base();
        let rest = a@[1] as int + k * (a@[2] as int + k * a@[3] as int);
        let l0 = a@[0] as int;
        assert((l0 + k * rest) % 2 == l0 % 2) by (nonlinear_arith)
            requires k == 0x1_0000_0000_0000_0000int;
    }
    a[0] % 2 == 1
}

} // verus!
