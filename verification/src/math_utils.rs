//! Arithmetic that the hints share.

use crate::types::field_int::{is_mod_inverse, FieldInt};
use crate::types::instruction::option_int;
use crate::vm::errors::vm_errors::{VirtualMachineError, VmErrorView};
use vstd::prelude::*;

verus! {

/// The integer with sign that a field element stands for: itself below half
/// of the modulus, and itself less the modulus from there on.
pub open spec fn as_int_spec(value: int, prime: int) -> int {
    if 2 * value < prime {
        value
    } else {
        value - prime
    }
}

/// The integer with sign that `value` stands for in the field of `prime`.
pub fn as_int(value: &FieldInt, prime: &FieldInt) -> (r: FieldInt)
    ensures
        r@ == as_int_spec(value@, prime@),
{
    if value.plus(value).less_than(prime) {
        value.clone()
    } else {
        value.minus(prime)
    }
}

/// The inverse of `a` in the integers modulo `modulus`, where it has one.
pub open spec fn mod_inverse_spec(a: int, modulus: int) -> Option<int> {
    if exists|x: int| is_mod_inverse(a, x, modulus) {
        Some(choose|x: int| is_mod_inverse(a, x, modulus))
    } else {
        None
    }
}

/// A number has one inverse at most.
pub proof fn lemma_mod_inverse_is_unique(a: int, x: int, y: int, modulus: int)
    requires
        modulus > 1,
        is_mod_inverse(a, x, modulus),
        is_mod_inverse(a, y, modulus),
    ensures
        x == y,
{
    vstd::arithmetic::div_mod::lemma_mul_mod_noop_general(x, a * y, modulus);
    vstd::arithmetic::div_mod::lemma_mul_mod_noop_general(y, a * x, modulus);
    vstd::arithmetic::div_mod::lemma_small_mod(x as nat, modulus as nat);
    vstd::arithmetic::div_mod::lemma_small_mod(y as nat, modulus as nat);
    assert(x * (a * y) == y * (a * x)) by (nonlinear_arith);
    assert(x * 1 == x && y * 1 == y);
}

/// The quotient of `n` by `m` in the field of `p`: `n` times the inverse of
/// `m`. There is none where `m` has no inverse.
pub open spec fn div_mod_spec(n: int, m: int, p: int) -> Option<int> {
    match mod_inverse_spec(m, p) {
        Some(inverse) => Some((n * inverse) % p),
        None => None,
    }
}

/// The quotient of `n` by `m` in the field of `p`.
pub fn div_mod(n: &FieldInt, m: &FieldInt, p: &FieldInt) -> (r: Option<FieldInt>)
    requires
        p@ > 1,
    ensures
        option_int(r) == div_mod_spec(n@, m@, p@),
{
    match m.mod_inverse(p) {
        Some(inverse) => {
            proof {
                lemma_mod_inverse_is_unique(
                    m@,
                    inverse@,
                    choose|x: int| is_mod_inverse(m@, x, p@),
                    p@,
                );
            }
            Some(n.times(&inverse).mod_floor(p))
        },
        None => None,
    }
}

/// Whether `root` is the integer square root of `n`: the largest integer
/// whose square is at most `n`.
pub open spec fn is_isqrt(n: int, root: int) -> bool {
    0 <= root && root * root <= n < (root + 1) * (root + 1)
}

/// The integer square root of `n`, which is not negative.
pub open spec fn isqrt_spec(n: int) -> int {
    choose|root: int| is_isqrt(n, root)
}

/// A number has one integer square root at most.
pub proof fn lemma_isqrt_is_unique(n: int, a: int, b: int)
    requires
        is_isqrt(n, a),
        is_isqrt(n, b),
    ensures
        a == b,
{
    if a < b {
        assert((a + 1) * (a + 1) <= b * b) by (nonlinear_arith)
            requires
                0 <= a + 1 <= b,
        ;
    } else if b < a {
        assert((b + 1) * (b + 1) <= a * a) by (nonlinear_arith)
            requires
                0 <= b + 1 <= a,
        ;
    }
}

/// The integer square root of `n`. A negative number has none.
pub fn isqrt(n: &FieldInt) -> (r: Result<FieldInt, VirtualMachineError>)
    ensures
        match r {
            Ok(root) => n@ >= 0 && is_isqrt(n@, root@) && root@ == isqrt_spec(n@),
            Err(e) => n@ < 0 && e@ == VmErrorView::FailedToGetSqrt(n@),
        },
{
    if n.is_negative() {
        return Err(VirtualMachineError::FailedToGetSqrt(n.clone()));
    }
    let one = FieldInt::one();
    let mut x = n.clone();
    let mut y = x.plus(&one).shr(1);
    proof {
        vstd::arithmetic::power2::lemma2_to64();
        assert(y@ == (n@ + 1) / 2);
        assert((n@ + 1) * (n@ + 1) > n@) by (nonlinear_arith)
            requires
                n@ >= 0,
        ;
    }
    while y.less_than(&x)
        invariant
            n@ >= 0,
            x@ >= 0,
            (x@ + 1) * (x@ + 1) > n@,
            n@ == 0 ==> x@ == 0,
            x@ == 0 ==> y@ == 0,
            x@ > 0 ==> y@ == (x@ + n@ / x@) / 2,
        decreases x@,
    {
        proof {
            lemma_newton_step(n@, x@);
            vstd::arithmetic::power2::lemma2_to64();
        }
        x = y;
        assert(x@ > 0) by (nonlinear_arith)
            requires
                (x@ + 1) * (x@ + 1) > n@,
                n@ >= 1,
                x@ >= 0,
        ;
        y = x.plus(&n.div_floor(&x)).shr(1);
    }
    proof {
        if x@ > 0 {
            lemma_newton_fixpoint(n@, x@);
        } else {
            assert(n@ < 1) by (nonlinear_arith)
                requires
                    (x@ + 1) * (x@ + 1) > n@,
                    x@ == 0,
            ;
        }
        assert(is_isqrt(n@, x@));
        lemma_isqrt_is_unique(n@, x@, isqrt_spec(n@));
    }
    Ok(x)
}

/// One step of Newton's iteration from any `x` ends above the root or at it.
proof fn lemma_newton_step(n: int, x: int)
    requires
        n >= 0,
        x > 0,
    ensures
        ((x + n / x) / 2 + 1) * ((x + n / x) / 2 + 1) > n,
        (x + n / x) / 2 >= 0,
{
    let q = n / x;
    let y = (x + q) / 2;
    assert(q >= 0 && n < x * (q + 1) && x * q <= n) by {
        vstd::arithmetic::div_mod::lemma_fundamental_div_mod(n, x);
        vstd::arithmetic::div_mod::lemma_mod_bound(n, x);
        vstd::arithmetic::div_mod::lemma_div_pos_is_pos(n, x);
        assert(x * (q + 1) == x * q + x) by (nonlinear_arith);
    }
    assert(2 * (y + 1) >= x + q + 1);
    assert((x + q + 1) * (x + q + 1) >= 4 * (x * (q + 1))) by (nonlinear_arith);
    assert(4 * ((y + 1) * (y + 1)) >= (x + q + 1) * (x + q + 1)) by (nonlinear_arith)
        requires
            2 * (y + 1) >= x + q + 1,
            x + q + 1 >= 0,
    ;
}

/// Where Newton's iteration no longer goes down, the square of `x` is at
/// most `n`.
proof fn lemma_newton_fixpoint(n: int, x: int)
    requires
        n >= 0,
        x > 0,
        (x + n / x) / 2 >= x,
    ensures
        x * x <= n,
{
    let q = n / x;
    assert(q >= x);
    assert(x * q <= n) by {
        vstd::arithmetic::div_mod::lemma_fundamental_div_mod(n, x);
        vstd::arithmetic::div_mod::lemma_mod_bound(n, x);
    }
    assert(x * x <= x * q) by (nonlinear_arith)
        requires
            q >= x,
            x > 0,
    ;
}

} // verus!
