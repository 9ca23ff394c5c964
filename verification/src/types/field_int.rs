//! Arbitrary-precision integers.
//!
//! A [`FieldInt`] stores its value as bytes in two's complement, least
//! significant byte first, and hands every computation on it to `num_bigint`.
//!
//! The functions below whose names start with `big_` make these calls, and
//! Verus takes their contracts on trust. Each builds its arguments with
//! `num_bigint::BigInt::from_signed_bytes_le` and takes the bytes of its
//! result with `num_bigint::BigInt::to_signed_bytes_le`, which read and write
//! the same two's complement that the view of a `FieldInt` reads.

use vstd::prelude::*;
use vstd::arithmetic::power::pow;
use vstd::arithmetic::power2::pow2;
use vstd::std_specs::cmp::PartialEqSpecImpl;

verus! {

/// The natural number that `bytes` spell in base 256, least significant byte
/// first.
pub open spec fn le_bytes_value(bytes: Seq<u8>) -> nat
    decreases bytes.len(),
{
    if bytes.len() == 0 {
        0
    } else {
        bytes[0] as nat + 256 * le_bytes_value(bytes.drop_first())
    }
}

/// The integer that `bytes` spell in two's complement, least significant byte
/// first. The empty sequence spells zero.
pub open spec fn signed_le_bytes_value(bytes: Seq<u8>) -> int {
    if bytes.len() > 0 && bytes.last() >= 0x80 {
        le_bytes_value(bytes) - pow(256, bytes.len())
    } else {
        le_bytes_value(bytes) as int
    }
}

/// Quotient of `a` by `b`, rounded towards negative infinity (`b != 0`).
pub open spec fn floor_div(a: int, b: int) -> int {
    if b > 0 {
        a / b
    } else {
        (-a) / (-b)
    }
}

/// Remainder of `a` by `b` that goes with [`floor_div`]; it is zero or has the
/// sign of `b` (`b != 0`).
pub open spec fn floor_mod(a: int, b: int) -> int {
    if b > 0 {
        a % b
    } else {
        -((-a) % (-b))
    }
}

/// Bitwise "and" of two integers in two's complement of unbounded width.
pub open spec fn int_bitand(a: int, b: int) -> int
    decreases (if a < 0 { -a } else { a }),
{
    if a == 0 {
        0
    } else if a == -1 {
        b
    } else {
        2 * int_bitand(a / 2, b / 2) + (if a % 2 == 1 && b % 2 == 1 { 1int } else { 0int })
    }
}

/// The character of the decimal digit `d`.
pub open spec fn digit_char(d: int) -> char {
    if d == 0 {
        '0'
    } else if d == 1 {
        '1'
    } else if d == 2 {
        '2'
    } else if d == 3 {
        '3'
    } else if d == 4 {
        '4'
    } else if d == 5 {
        '5'
    } else if d == 6 {
        '6'
    } else if d == 7 {
        '7'
    } else if d == 8 {
        '8'
    } else {
        '9'
    }
}

/// The decimal digits of `n`, without leading zeros.
pub open spec fn decimal_of_nat(n: nat) -> Seq<char>
    decreases n,
{
    if n < 10 {
        seq![digit_char(n as int)]
    } else {
        decimal_of_nat(n / 10).push(digit_char((n % 10) as int))
    }
}

/// The decimal form of `v`: its digits, after a minus sign where it is
/// negative.
pub open spec fn decimal_of_int(v: int) -> Seq<char> {
    if v < 0 {
        seq!['-'] + decimal_of_nat((-v) as nat)
    } else {
        decimal_of_nat(v as nat)
    }
}

/// An integer of any size, with sign. The elements of the field of a machine
/// are the integers that are at least zero and below its modulus.
#[derive(Debug)]
pub struct FieldInt {
    bytes: Vec<u8>,
}

impl View for FieldInt {
    type V = int;

    closed spec fn view(&self) -> int {
        signed_le_bytes_value(self.bytes@)
    }
}

/// `num_bigint::BigInt::from` on an `i64`: the big integer equal to `v`.
#[verifier::external_body]
fn big_from_i64(v: i64) -> (r: FieldInt)
    ensures
        r@ == v,
{
    FieldInt { bytes: num_bigint::BigInt::from(v).to_signed_bytes_le() }
}

/// `num_bigint::BigInt::from` on a `u64`: the big integer equal to `v`.
#[verifier::external_body]
fn big_from_u64(v: u64) -> (r: FieldInt)
    ensures
        r@ == v,
{
    FieldInt { bytes: num_bigint::BigInt::from(v).to_signed_bytes_le() }
}

/// `num_traits::ToPrimitive::to_usize` on a `num_bigint::BigInt`: the value as
/// a `usize` where it is one, and nothing where it is negative or too large.
#[verifier::external_body]
fn big_to_usize(a: &FieldInt) -> (r: Option<usize>)
    ensures
        r == (if 0 <= a@ <= usize::MAX { Some(a@ as usize) } else { None }),
{
    num_traits::ToPrimitive::to_usize(&num_bigint::BigInt::from_signed_bytes_le(&a.bytes))
}

/// `num_traits::ToPrimitive::to_i64` on a `num_bigint::BigInt`: the value as
/// an `i64` where it is one, and nothing where it is not.
#[verifier::external_body]
fn big_to_i64(a: &FieldInt) -> (r: Option<i64>)
    ensures
        r == (if i64::MIN <= a@ <= i64::MAX { Some(a@ as i64) } else { None }),
{
    num_traits::ToPrimitive::to_i64(&num_bigint::BigInt::from_signed_bytes_le(&a.bytes))
}

/// `+` of `num_bigint::BigInt`: the sum.
#[verifier::external_body]
fn big_add(a: &FieldInt, b: &FieldInt) -> (r: FieldInt)
    ensures
        r@ == a@ + b@,
{
    let x = num_bigint::BigInt::from_signed_bytes_le(&a.bytes);
    let y = num_bigint::BigInt::from_signed_bytes_le(&b.bytes);
    FieldInt { bytes: (x + y).to_signed_bytes_le() }
}

/// `-` of `num_bigint::BigInt`: the difference.
#[verifier::external_body]
fn big_sub(a: &FieldInt, b: &FieldInt) -> (r: FieldInt)
    ensures
        r@ == a@ - b@,
{
    let x = num_bigint::BigInt::from_signed_bytes_le(&a.bytes);
    let y = num_bigint::BigInt::from_signed_bytes_le(&b.bytes);
    FieldInt { bytes: (x - y).to_signed_bytes_le() }
}

/// `*` of `num_bigint::BigInt`: the product.
#[verifier::external_body]
fn big_mul(a: &FieldInt, b: &FieldInt) -> (r: FieldInt)
    ensures
        r@ == a@ * b@,
{
    let x = num_bigint::BigInt::from_signed_bytes_le(&a.bytes);
    let y = num_bigint::BigInt::from_signed_bytes_le(&b.bytes);
    FieldInt { bytes: (x * y).to_signed_bytes_le() }
}

/// `num_integer::Integer::div_mod_floor` on `num_bigint::BigInt`: quotient
/// rounded towards negative infinity, and the remainder that goes with it. It
/// panics on a zero divisor, which `requires` leaves out.
#[verifier::external_body]
fn big_div_mod_floor(a: &FieldInt, b: &FieldInt) -> (r: (FieldInt, FieldInt))
    requires
        b@ != 0,
    ensures
        r.0@ == floor_div(a@, b@),
        r.1@ == floor_mod(a@, b@),
{
    let x = num_bigint::BigInt::from_signed_bytes_le(&a.bytes);
    let y = num_bigint::BigInt::from_signed_bytes_le(&b.bytes);
    let (q, m) = num_integer::Integer::div_mod_floor(&x, &y);
    (FieldInt { bytes: q.to_signed_bytes_le() }, FieldInt { bytes: m.to_signed_bytes_le() })
}

/// Whether `x` is the inverse of `a` in the integers modulo `modulus`, which
/// is greater than 1: the one at least zero and below the modulus.
pub open spec fn is_mod_inverse(a: int, x: int, modulus: int) -> bool {
    0 <= x < modulus && (a * x) % modulus == 1
}

/// `num_bigint::BigInt::modinv`: the inverse of `a` modulo `modulus`, at
/// least zero and below the modulus, where `a` has one, and nothing where it
/// has none. A zero modulus makes it panic, and for the modulus 1 its result
/// lies outside that range where `a` is negative; `requires` leaves both
/// out.
#[verifier::external_body]
fn big_modinv(a: &FieldInt, modulus: &FieldInt) -> (r: Option<FieldInt>)
    requires
        modulus@ > 1,
    ensures
        match r {
            Some(x) => is_mod_inverse(a@, x@, modulus@),
            None => forall|x: int| !is_mod_inverse(a@, x, modulus@),
        },
{
    let x = num_bigint::BigInt::from_signed_bytes_le(&a.bytes);
    let m = num_bigint::BigInt::from_signed_bytes_le(&modulus.bytes);
    match x.modinv(&m) {
        Some(inverse) => Some(FieldInt { bytes: inverse.to_signed_bytes_le() }),
        None => None,
    }
}

/// `<<` of `num_bigint::BigInt` by a `u8`: the value times two to the `n`.
#[verifier::external_body]
fn big_shl(a: &FieldInt, n: u8) -> (r: FieldInt)
    ensures
        r@ == a@ * pow2(n as nat),
{
    let x = num_bigint::BigInt::from_signed_bytes_le(&a.bytes);
    FieldInt { bytes: (x << n).to_signed_bytes_le() }
}

/// `>>` of `num_bigint::BigInt` by a `u8`: the value divided by two to the
/// `n`, rounded towards negative infinity.
#[verifier::external_body]
fn big_shr(a: &FieldInt, n: u8) -> (r: FieldInt)
    ensures
        r@ == a@ / (pow2(n as nat) as int),
{
    let x = num_bigint::BigInt::from_signed_bytes_le(&a.bytes);
    FieldInt { bytes: (x >> n).to_signed_bytes_le() }
}

/// `&` of `num_bigint::BigInt`: bitwise "and" in two's complement.
#[verifier::external_body]
fn big_bitand(a: &FieldInt, b: &FieldInt) -> (r: FieldInt)
    ensures
        r@ == int_bitand(a@, b@),
{
    let x = num_bigint::BigInt::from_signed_bytes_le(&a.bytes);
    let y = num_bigint::BigInt::from_signed_bytes_le(&b.bytes);
    FieldInt { bytes: (x & y).to_signed_bytes_le() }
}

/// `<` of `num_bigint::BigInt`: whether `a` is the smaller integer.
#[verifier::external_body]
fn big_lt(a: &FieldInt, b: &FieldInt) -> (r: bool)
    ensures
        r == (a@ < b@),
{
    let x = num_bigint::BigInt::from_signed_bytes_le(&a.bytes);
    let y = num_bigint::BigInt::from_signed_bytes_le(&b.bytes);
    x < y
}

/// `==` of `num_bigint::BigInt`: whether the two integers are equal.
#[verifier::external_body]
fn big_eq(a: &FieldInt, b: &FieldInt) -> (r: bool)
    ensures
        r == (a@ == b@),
{
    let x = num_bigint::BigInt::from_signed_bytes_le(&a.bytes);
    let y = num_bigint::BigInt::from_signed_bytes_le(&b.bytes);
    x == y
}

/// `num_bigint::BigInt::to_str_radix` with radix 10: the decimal digits of
/// the value, after a minus sign where it is negative.
#[verifier::external_body]
fn big_to_decimal(a: &FieldInt) -> (r: String)
    ensures
        r@ == decimal_of_int(a@),
{
    num_bigint::BigInt::from_signed_bytes_le(&a.bytes).to_str_radix(10)
}

impl FieldInt {
    /// The value in decimal.
    pub fn to_string(&self) -> (r: String)
        ensures
            r@ == decimal_of_int(self@),
    {
        big_to_decimal(self)
    }

    /// The integer that `bytes` spell in two's complement, least significant
    /// byte first.
    pub fn from_signed_bytes_le(bytes: Vec<u8>) -> (r: FieldInt)
        ensures
            r@ == signed_le_bytes_value(bytes@),
    {
        FieldInt { bytes }
    }

    /// Bytes that spell the value in two's complement, least significant byte
    /// first.
    pub fn to_signed_bytes_le(&self) -> (r: Vec<u8>)
        ensures
            signed_le_bytes_value(r@) == self@,
    {
        self.bytes.clone()
    }

    /// The integer equal to `v`.
    pub fn from_i64(v: i64) -> (r: FieldInt)
        ensures
            r@ == v,
    {
        big_from_i64(v)
    }

    /// The integer equal to `v`.
    pub fn from_u64(v: u64) -> (r: FieldInt)
        ensures
            r@ == v,
    {
        big_from_u64(v)
    }

    /// The integer equal to `v`.
    pub fn from_usize(v: usize) -> (r: FieldInt)
        ensures
            r@ == v,
    {
        big_from_u64(v as u64)
    }

    /// Zero.
    pub fn zero() -> (r: FieldInt)
        ensures
            r@ == 0,
    {
        big_from_i64(0)
    }

    /// One.
    pub fn one() -> (r: FieldInt)
        ensures
            r@ == 1,
    {
        big_from_i64(1)
    }

    /// The value as a `usize`, where it is one.
    pub fn to_usize(&self) -> (r: Option<usize>)
        ensures
            r == (if 0 <= self@ <= usize::MAX { Some(self@ as usize) } else { None }),
    {
        big_to_usize(self)
    }

    /// The value as an `i64`, where it is one.
    pub fn to_i64(&self) -> (r: Option<i64>)
        ensures
            r == (if i64::MIN <= self@ <= i64::MAX { Some(self@ as i64) } else { None }),
    {
        big_to_i64(self)
    }

    /// `self + other`.
    pub fn plus(&self, other: &FieldInt) -> (r: FieldInt)
        ensures
            r@ == self@ + other@,
    {
        big_add(self, other)
    }

    /// `self - other`.
    pub fn minus(&self, other: &FieldInt) -> (r: FieldInt)
        ensures
            r@ == self@ - other@,
    {
        big_sub(self, other)
    }

    /// `self * other`.
    pub fn times(&self, other: &FieldInt) -> (r: FieldInt)
        ensures
            r@ == self@ * other@,
    {
        big_mul(self, other)
    }

    /// `-self`.
    pub fn negated(&self) -> (r: FieldInt)
        ensures
            r@ == -self@,
    {
        big_sub(&FieldInt::zero(), self)
    }

    /// The absolute value.
    pub fn abs(&self) -> (r: FieldInt)
        ensures
            r@ == (if self@ < 0 { -self@ } else { self@ }),
    {
        if self.is_negative() {
            self.negated()
        } else {
            self.clone()
        }
    }

    /// Quotient and remainder of a division that rounds the quotient towards
    /// negative infinity.
    pub fn div_mod_floor(&self, other: &FieldInt) -> (r: (FieldInt, FieldInt))
        requires
            other@ != 0,
        ensures
            r.0@ == floor_div(self@, other@),
            r.1@ == floor_mod(self@, other@),
    {
        big_div_mod_floor(self, other)
    }

    /// Quotient rounded towards negative infinity.
    pub fn div_floor(&self, other: &FieldInt) -> (r: FieldInt)
        requires
            other@ != 0,
        ensures
            r@ == floor_div(self@, other@),
    {
        big_div_mod_floor(self, other).0
    }

    /// Remainder of the division that rounds towards negative infinity. For a
    /// positive `other` it lies in `[0, other)`.
    pub fn mod_floor(&self, other: &FieldInt) -> (r: FieldInt)
        requires
            other@ != 0,
        ensures
            r@ == floor_mod(self@, other@),
    {
        big_div_mod_floor(self, other).1
    }

    /// Whether `self` is a multiple of `other`.
    pub fn is_multiple_of(&self, other: &FieldInt) -> (r: bool)
        requires
            other@ != 0,
        ensures
            r == (floor_mod(self@, other@) == 0),
    {
        self.mod_floor(other).is_zero()
    }

    /// The inverse of `self` modulo `modulus`, at least zero and below the
    /// modulus, where there is one.
    pub fn mod_inverse(&self, modulus: &FieldInt) -> (r: Option<FieldInt>)
        requires
            modulus@ > 1,
        ensures
            match r {
                Some(x) => is_mod_inverse(self@, x@, modulus@),
                None => forall|x: int| !is_mod_inverse(self@, x, modulus@),
            },
    {
        big_modinv(self, modulus)
    }

    /// `self` times two to the `n`.
    pub fn shl(&self, n: u8) -> (r: FieldInt)
        ensures
            r@ == self@ * pow2(n as nat),
    {
        big_shl(self, n)
    }

    /// `self` divided by two to the `n`, rounded towards negative infinity.
    pub fn shr(&self, n: u8) -> (r: FieldInt)
        ensures
            r@ == self@ / (pow2(n as nat) as int),
    {
        big_shr(self, n)
    }

    /// Bitwise "and" in two's complement.
    pub fn bitand(&self, other: &FieldInt) -> (r: FieldInt)
        ensures
            r@ == int_bitand(self@, other@),
    {
        big_bitand(self, other)
    }

    /// Whether `self < other`.
    pub fn less_than(&self, other: &FieldInt) -> (r: bool)
        ensures
            r == (self@ < other@),
    {
        big_lt(self, other)
    }

    /// Whether `self <= other`.
    pub fn at_most(&self, other: &FieldInt) -> (r: bool)
        ensures
            r == (self@ <= other@),
    {
        !big_lt(other, self)
    }

    /// Whether the two are the same integer.
    pub fn equals(&self, other: &FieldInt) -> (r: bool)
        ensures
            r == (self@ == other@),
    {
        big_eq(self, other)
    }

    /// Whether the value is zero.
    pub fn is_zero(&self) -> (r: bool)
        ensures
            r == (self@ == 0),
    {
        big_eq(self, &FieldInt::zero())
    }

    /// Whether the value is greater than zero.
    pub fn is_positive(&self) -> (r: bool)
        ensures
            r == (self@ > 0),
    {
        big_lt(&FieldInt::zero(), self)
    }

    /// Whether the value is less than zero.
    pub fn is_negative(&self) -> (r: bool)
        ensures
            r == (self@ < 0),
    {
        big_lt(self, &FieldInt::zero())
    }
}

impl Clone for FieldInt {
    fn clone(&self) -> (r: FieldInt)
        ensures
            r@ == self@,
    {
        FieldInt { bytes: self.bytes.clone() }
    }
}

impl PartialEq for FieldInt {
    fn eq(&self, other: &FieldInt) -> (r: bool) {
        big_eq(self, other)
    }
}

impl Eq for FieldInt {}

impl PartialEqSpecImpl for FieldInt {
    open spec fn obeys_eq_spec() -> bool {
        true
    }

    open spec fn eq_spec(&self, other: &FieldInt) -> bool {
        self@ == other@
    }
}

/// Quotient and remainder by a divisor greater than zero give the dividend
/// back, and the remainder is at least zero and below the divisor.
pub proof fn lemma_floor_div_mod(a: int, d: int)
    requires
        d > 0,
    ensures
        a == floor_div(a, d) * d + floor_mod(a, d),
        0 <= floor_mod(a, d) < d,
{
    vstd::arithmetic::div_mod::lemma_fundamental_div_mod(a, d);
    vstd::arithmetic::div_mod::lemma_mod_bound(a, d);
    assert(d * (a / d) == (a / d) * d) by (nonlinear_arith);
}

/// No bit of zero is set.
pub proof fn lemma_bitand_with_zero(a: int)
    ensures
        int_bitand(a, 0) == 0,
    decreases (if a < 0 { -a } else { a }),
{
    if a != 0 && a != -1 {
        lemma_bitand_with_zero(a / 2);
    }
}

/// The lowest `k` bits of an integer are what is left of it by two to the
/// `k`.
pub proof fn lemma_bitand_low_bits(a: int, k: nat)
    ensures
        int_bitand(a, pow2(k) - 1) == a % (pow2(k) as int),
        pow2(k) > 0,
    decreases k,
{
    vstd::arithmetic::power2::lemma_pow2_pos(k);
    if k == 0 {
        vstd::arithmetic::power2::lemma2_to64();
        lemma_bitand_with_zero(a);
        assert(pow2(0) == 1);
        assert(a % 1 == 0);
    } else {
        let half = pow2((k - 1) as nat) as int;
        let whole = pow2(k) as int;
        vstd::arithmetic::power2::lemma_pow2_pos((k - 1) as nat);
        vstd::arithmetic::power2::lemma_pow2_unfold(k);
        assert(whole == 2 * half);
        let mask = whole - 1;
        assert(mask / 2 == half - 1 && mask % 2 == 1);
        if a == 0 {
            assert(int_bitand(a, mask) == 0);
            assert(0int % whole == 0);
        } else if a == -1 {
            assert(int_bitand(a, mask) == mask);
            vstd::arithmetic::div_mod::lemma_fundamental_div_mod_converse(-1, whole, -1, mask);
        } else {
            assert(int_bitand(a, mask) == 2 * int_bitand(a / 2, mask / 2) + (if a % 2 == 1
                && mask % 2 == 1 {
                1int
            } else {
                0int
            }));
            assert(a % 2 == 0 || a % 2 == 1);
            lemma_bitand_low_bits(a / 2, (k - 1) as nat);
            let q = (a / 2) / half;
            let r = (a / 2) % half;
            vstd::arithmetic::div_mod::lemma_fundamental_div_mod(a / 2, half);
            vstd::arithmetic::div_mod::lemma_mod_bound(a / 2, half);
            assert(a == 2 * (a / 2) + a % 2);
            assert(a == q * whole + (2 * r + a % 2)) by (nonlinear_arith)
                requires
                    a == 2 * (a / 2) + a % 2,
                    a / 2 == half * q + r,
                    whole == 2 * half,
            ;
            vstd::arithmetic::div_mod::lemma_fundamental_div_mod_converse(
                a,
                whole,
                q,
                2 * r + a % 2,
            );
            assert(int_bitand(a / 2, half - 1) == r);
            assert(int_bitand(a, mask) == 2 * r + a % 2);
        }
    }
}

/// An integer is its lowest `k` bits and, above them, what is left once they
/// are shifted out.
pub proof fn lemma_low_and_high_bits(a: int, k: nat)
    ensures
        a == (a / (pow2(k) as int)) * pow2(k) + int_bitand(a, pow2(k) - 1),
        0 <= int_bitand(a, pow2(k) - 1) < pow2(k),
{
    lemma_bitand_low_bits(a, k);
    vstd::arithmetic::div_mod::lemma_fundamental_div_mod(a, pow2(k) as int);
    vstd::arithmetic::div_mod::lemma_mod_bound(a, pow2(k) as int);
    assert((pow2(k) as int) * (a / (pow2(k) as int)) == (a / (pow2(k) as int)) * pow2(k))
        by (nonlinear_arith);
}

} // verus!
