use vstd::prelude::*;

verus! {

/// The capabilities a scalar type needs to be carried by the graph: a default
/// value that is the additive identity, and addition and multiplication that
/// either produce a result or report that it cannot be represented.
pub trait ValueTypeTraits: Copy + Sized {
    /// The default value, used as the initial gradient of every node.
    spec fn zero() -> Self;

    /// The multiplicative identity, used to seed the root of a backward pass.
    spec fn one() -> Self;

    /// Whether `a + b` can be represented.
    spec fn add_defined(a: Self, b: Self) -> bool;

    /// The value of `a + b`, where it is defined.
    spec fn sum(a: Self, b: Self) -> Self;

    /// Whether `a * b` can be represented.
    spec fn mul_defined(a: Self, b: Self) -> bool;

    /// The value of `a * b`, where it is defined.
    spec fn product(a: Self, b: Self) -> Self;

    fn zero_value() -> (r: Self)
        ensures
            r == Self::zero(),
    ;

    fn one_value() -> (r: Self)
        ensures
            r == Self::one(),
    ;

    fn checked_sum(a: Self, b: Self) -> (r: Option<Self>)
        ensures
            r == (if Self::add_defined(a, b) {
                Some(Self::sum(a, b))
            } else {
                None
            }),
    ;

    fn checked_product(a: Self, b: Self) -> (r: Option<Self>)
        ensures
            r == (if Self::mul_defined(a, b) {
                Some(Self::product(a, b))
            } else {
                None
            }),
    ;
}

impl ValueTypeTraits for i32 {
    open spec fn zero() -> i32 {
        0
    }

    open spec fn one() -> i32 {
        1
    }

    open spec fn add_defined(a: i32, b: i32) -> bool {
        i32::MIN <= a + b <= i32::MAX
    }

    open spec fn sum(a: i32, b: i32) -> i32 {
        (a + b) as i32
    }

    open spec fn mul_defined(a: i32, b: i32) -> bool {
        i32::MIN <= a * b <= i32::MAX
    }

    open spec fn product(a: i32, b: i32) -> i32 {
        (a * b) as i32
    }

    fn zero_value() -> (r: i32) {
        0
    }

    fn one_value() -> (r: i32) {
        1
    }

    fn checked_sum(a: i32, b: i32) -> (r: Option<i32>) {
        a.checked_add(b)
    }

    fn checked_product(a: i32, b: i32) -> (r: Option<i32>) {
        a.checked_mul(b)
    }
}

impl ValueTypeTraits for i64 {
    open spec fn zero() -> i64 {
        0
    }

    open spec fn one() -> i64 {
        1
    }

    open spec fn add_defined(a: i64, b: i64) -> bool {
        i64::MIN <= a + b <= i64::MAX
    }

    open spec fn sum(a: i64, b: i64) -> i64 {
        (a + b) as i64
    }

    open spec fn mul_defined(a: i64, b: i64) -> bool {
        i64::MIN <= a * b <= i64::MAX
    }

    open spec fn product(a: i64, b: i64) -> i64 {
        (a * b) as i64
    }

    fn zero_value() -> (r: i64) {
        0
    }

    fn one_value() -> (r: i64) {
        1
    }

    fn checked_sum(a: i64, b: i64) -> (r: Option<i64>) {
        a.checked_add(b)
    }

    fn checked_product(a: i64, b: i64) -> (r: Option<i64>) {
        a.checked_mul(b)
    }
}

impl ValueTypeTraits for u32 {
    open spec fn zero() -> u32 {
        0
    }

    open spec fn one() -> u32 {
        1
    }

    open spec fn add_defined(a: u32, b: u32) -> bool {
        a + b <= u32::MAX
    }

    open spec fn sum(a: u32, b: u32) -> u32 {
        (a + b) as u32
    }

    open spec fn mul_defined(a: u32, b: u32) -> bool {
        a * b <= u32::MAX
    }

    open spec fn product(a: u32, b: u32) -> u32 {
        (a * b) as u32
    }

    fn zero_value() -> (r: u32) {
        0
    }

    fn one_value() -> (r: u32) {
        1
    }

    fn checked_sum(a: u32, b: u32) -> (r: Option<u32>) {
        a.checked_add(b)
    }

    fn checked_product(a: u32, b: u32) -> (r: Option<u32>) {
        a.checked_mul(b)
    }
}

impl ValueTypeTraits for u64 {
    open spec fn zero() -> u64 {
        0
    }

    open spec fn one() -> u64 {
        1
    }

    open spec fn add_defined(a: u64, b: u64) -> bool {
        a + b <= u64::MAX
    }

    open spec fn sum(a: u64, b: u64) -> u64 {
        (a + b) as u64
    }

    open spec fn mul_defined(a: u64, b: u64) -> bool {
        a * b <= u64::MAX
    }

    open spec fn product(a: u64, b: u64) -> u64 {
        (a * b) as u64
    }

    fn zero_value() -> (r: u64) {
        0
    }

    fn one_value() -> (r: u64) {
        1
    }

    fn checked_sum(a: u64, b: u64) -> (r: Option<u64>) {
        a.checked_add(b)
    }

    fn checked_product(a: u64, b: u64) -> (r: Option<u64>) {
        a.checked_mul(b)
    }
}

} // verus!
