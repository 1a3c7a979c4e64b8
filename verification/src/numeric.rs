//! The numeric capability that balances, nonces and block numbers share:
//! zero and one identities and checked addition and subtraction, each stated
//! over the natural number that a value stands for.

use vstd::prelude::*;

verus! {

/// An unsigned machine number with a zero, a one, and checked arithmetic.
///
/// `value` is the natural number that a value stands for, and `limit` is the
/// largest number the type can hold. Checked operations report failure instead
/// of wrapping or saturating.
pub trait Numeric: Copy + Sized {
    /// The natural number this value stands for.
    spec fn value(self) -> nat;

    /// The largest natural number that the type can hold.
    spec fn limit() -> nat;

    /// Every value is within the type's limit.
    proof fn lemma_value_within_limit(self)
        ensures
            self.value() <= Self::limit(),
    ;

    /// The additive identity.
    fn zero() -> (r: Self)
        ensures
            r.value() == 0,
    ;

    /// The multiplicative identity.
    fn one() -> (r: Self)
        ensures
            r.value() == 1,
    ;

    /// The sum, or `None` exactly when it exceeds the type's limit.
    fn checked_add(self, rhs: Self) -> (r: Option<Self>)
        ensures
            r is Some <==> self.value() + rhs.value() <= Self::limit(),
            r is Some ==> r->0.value() == self.value() + rhs.value(),
    ;

    /// The difference, or `None` exactly when `rhs` is the larger.
    fn checked_sub(self, rhs: Self) -> (r: Option<Self>)
        ensures
            r is Some <==> rhs.value() <= self.value(),
            r is Some ==> r->0.value() == self.value() - rhs.value(),
    ;

    /// Whether the two values stand for the same number.
    fn same(self, rhs: Self) -> (r: bool)
        ensures
            r == (self.value() == rhs.value()),
    ;
}

/// `<u8 as num::traits::Zero>::zero`, which returns the literal 0.
#[verifier::external_body]
fn zero_u8() -> (r: u8)
    ensures
        r == 0,
{
    <u8 as num::traits::Zero>::zero()
}

/// `<u8 as num::traits::One>::one`, which returns the literal 1.
#[verifier::external_body]
fn one_u8() -> (r: u8)
    ensures
        r == 1,
{
    <u8 as num::traits::One>::one()
}

/// `<u8 as num::traits::CheckedAdd>::checked_add`, which forwards to
/// `u8::checked_add`: the sum when it fits in a `u8`, else `None`.
#[verifier::external_body]
fn checked_add_u8(a: u8, b: u8) -> (r: Option<u8>)
    ensures
        r == (if a + b <= u8::MAX {
            Some((a + b) as u8)
        } else {
            None
        }),
{
    num::traits::CheckedAdd::checked_add(&a, &b)
}

/// `<u8 as num::traits::CheckedSub>::checked_sub`, which forwards to
/// `u8::checked_sub`: the difference when it is not negative, else `None`.
#[verifier::external_body]
fn checked_sub_u8(a: u8, b: u8) -> (r: Option<u8>)
    ensures
        r == (if b <= a {
            Some((a - b) as u8)
        } else {
            None
        }),
{
    num::traits::CheckedSub::checked_sub(&a, &b)
}

impl Numeric for u8 {
    open spec fn value(self) -> nat {
        self as nat
    }

    open spec fn limit() -> nat {
        u8::MAX as nat
    }

    proof fn lemma_value_within_limit(self) {
    }

    fn zero() -> (r: Self) {
        zero_u8()
    }

    fn one() -> (r: Self) {
        one_u8()
    }

    fn checked_add(self, rhs: Self) -> (r: Option<Self>) {
        checked_add_u8(self, rhs)
    }

    fn checked_sub(self, rhs: Self) -> (r: Option<Self>) {
        checked_sub_u8(self, rhs)
    }

    fn same(self, rhs: Self) -> (r: bool) {
        self == rhs
    }
}

/// `<u16 as num::traits::Zero>::zero`, which returns the literal 0.
#[verifier::external_body]
fn zero_u16() -> (r: u16)
    ensures
        r == 0,
{
    <u16 as num::traits::Zero>::zero()
}

/// `<u16 as num::traits::One>::one`, which returns the literal 1.
#[verifier::external_body]
fn one_u16() -> (r: u16)
    ensures
        r == 1,
{
    <u16 as num::traits::One>::one()
}

/// `<u16 as num::traits::CheckedAdd>::checked_add`, which forwards to
/// `u16::checked_add`: the sum when it fits in a `u16`, else `None`.
#[verifier::external_body]
fn checked_add_u16(a: u16, b: u16) -> (r: Option<u16>)
    ensures
        r == (if a + b <= u16::MAX {
            Some((a + b) as u16)
        } else {
            None
        }),
{
    num::traits::CheckedAdd::checked_add(&a, &b)
}

/// `<u16 as num::traits::CheckedSub>::checked_sub`, which forwards to
/// `u16::checked_sub`: the difference when it is not negative, else `None`.
#[verifier::external_body]
fn checked_sub_u16(a: u16, b: u16) -> (r: Option<u16>)
    ensures
        r == (if b <= a {
            Some((a - b) as u16)
        } else {
            None
        }),
{
    num::traits::CheckedSub::checked_sub(&a, &b)
}

impl Numeric for u16 {
    open spec fn value(self) -> nat {
        self as nat
    }

    open spec fn limit() -> nat {
        u16::MAX as nat
    }

    proof fn lemma_value_within_limit(self) {
    }

    fn zero() -> (r: Self) {
        zero_u16()
    }

    fn one() -> (r: Self) {
        one_u16()
    }

    fn checked_add(self, rhs: Self) -> (r: Option<Self>) {
        checked_add_u16(self, rhs)
    }

    fn checked_sub(self, rhs: Self) -> (r: Option<Self>) {
        checked_sub_u16(self, rhs)
    }

    fn same(self, rhs: Self) -> (r: bool) {
        self == rhs
    }
}

/// `<u32 as num::traits::Zero>::zero`, which returns the literal 0.
#[verifier::external_body]
fn zero_u32() -> (r: u32)
    ensures
        r == 0,
{
    <u32 as num::traits::Zero>::zero()
}

/// `<u32 as num::traits::One>::one`, which returns the literal 1.
#[verifier::external_body]
fn one_u32() -> (r: u32)
    ensures
        r == 1,
{
    <u32 as num::traits::One>::one()
}

/// `<u32 as num::traits::CheckedAdd>::checked_add`, which forwards to
/// `u32::checked_add`: the sum when it fits in a `u32`, else `None`.
#[verifier::external_body]
fn checked_add_u32(a: u32, b: u32) -> (r: Option<u32>)
    ensures
        r == (if a + b <= u32::MAX {
            Some((a + b) as u32)
        } else {
            None
        }),
{
    num::traits::CheckedAdd::checked_add(&a, &b)
}

/// `<u32 as num::traits::CheckedSub>::checked_sub`, which forwards to
/// `u32::checked_sub`: the difference when it is not negative, else `None`.
#[verifier::external_body]
fn checked_sub_u32(a: u32, b: u32) -> (r: Option<u32>)
    ensures
        r == (if b <= a {
            Some((a - b) as u32)
        } else {
            None
        }),
{
    num::traits::CheckedSub::checked_sub(&a, &b)
}

impl Numeric for u32 {
    open spec fn value(self) -> nat {
        self as nat
    }

    open spec fn limit() -> nat {
        u32::MAX as nat
    }

    proof fn lemma_value_within_limit(self) {
    }

    fn zero() -> (r: Self) {
        zero_u32()
    }

    fn one() -> (r: Self) {
        one_u32()
    }

    fn checked_add(self, rhs: Self) -> (r: Option<Self>) {
        checked_add_u32(self, rhs)
    }

    fn checked_sub(self, rhs: Self) -> (r: Option<Self>) {
        checked_sub_u32(self, rhs)
    }

    fn same(self, rhs: Self) -> (r: bool) {
        self == rhs
    }
}

/// `<u64 as num::traits::Zero>::zero`, which returns the literal 0.
#[verifier::external_body]
fn zero_u64() -> (r: u64)
    ensures
        r == 0,
{
    <u64 as num::traits::Zero>::zero()
}

/// `<u64 as num::traits::One>::one`, which returns the literal 1.
#[verifier::external_body]
fn one_u64() -> (r: u64)
    ensures
        r == 1,
{
    <u64 as num::traits::One>::one()
}

/// `<u64 as num::traits::CheckedAdd>::checked_add`, which forwards to
/// `u64::checked_add`: the sum when it fits in a `u64`, else `None`.
#[verifier::external_body]
fn checked_add_u64(a: u64, b: u64) -> (r: Option<u64>)
    ensures
        r == (if a + b <= u64::MAX {
            Some((a + b) as u64)
        } else {
            None
        }),
{
    num::traits::CheckedAdd::checked_add(&a, &b)
}

/// `<u64 as num::traits::CheckedSub>::checked_sub`, which forwards to
/// `u64::checked_sub`: the difference when it is not negative, else `None`.
#[verifier::external_body]
fn checked_sub_u64(a: u64, b: u64) -> (r: Option<u64>)
    ensures
        r == (if b <= a {
            Some((a - b) as u64)
        } else {
            None
        }),
{
    num::traits::CheckedSub::checked_sub(&a, &b)
}

impl Numeric for u64 {
    open spec fn value(self) -> nat {
        self as nat
    }

    open spec fn limit() -> nat {
        u64::MAX as nat
    }

    proof fn lemma_value_within_limit(self) {
    }

    fn zero() -> (r: Self) {
        zero_u64()
    }

    fn one() -> (r: Self) {
        one_u64()
    }

    fn checked_add(self, rhs: Self) -> (r: Option<Self>) {
        checked_add_u64(self, rhs)
    }

    fn checked_sub(self, rhs: Self) -> (r: Option<Self>) {
        checked_sub_u64(self, rhs)
    }

    fn same(self, rhs: Self) -> (r: bool) {
        self == rhs
    }
}

/// `<u128 as num::traits::Zero>::zero`, which returns the literal 0.
#[verifier::external_body]
fn zero_u128() -> (r: u128)
    ensures
        r == 0,
{
    <u128 as num::traits::Zero>::zero()
}

/// `<u128 as num::traits::One>::one`, which returns the literal 1.
#[verifier::external_body]
fn one_u128() -> (r: u128)
    ensures
        r == 1,
{
    <u128 as num::traits::One>::one()
}

/// `<u128 as num::traits::CheckedAdd>::checked_add`, which forwards to
/// `u128::checked_add`: the sum when it fits in a `u128`, else `None`.
#[verifier::external_body]
fn checked_add_u128(a: u128, b: u128) -> (r: Option<u128>)
    ensures
        r == (if a + b <= u128::MAX {
            Some((a + b) as u128)
        } else {
            None
        }),
{
    num::traits::CheckedAdd::checked_add(&a, &b)
}

/// `<u128 as num::traits::CheckedSub>::checked_sub`, which forwards to
/// `u128::checked_sub`: the difference when it is not negative, else `None`.
#[verifier::external_body]
fn checked_sub_u128(a: u128, b: u128) -> (r: Option<u128>)
    ensures
        r == (if b <= a {
            Some((a - b) as u128)
        } else {
            None
        }),
{
    num::traits::CheckedSub::checked_sub(&a, &b)
}

impl Numeric for u128 {
    open spec fn value(self) -> nat {
        self as nat
    }

    open spec fn limit() -> nat {
        u128::MAX as nat
    }

    proof fn lemma_value_within_limit(self) {
    }

    fn zero() -> (r: Self) {
        zero_u128()
    }

    fn one() -> (r: Self) {
        one_u128()
    }

    fn checked_add(self, rhs: Self) -> (r: Option<Self>) {
        checked_add_u128(self, rhs)
    }

    fn checked_sub(self, rhs: Self) -> (r: Option<Self>) {
        checked_sub_u128(self, rhs)
    }

    fn same(self, rhs: Self) -> (r: bool) {
        self == rhs
    }
}

} // verus!
