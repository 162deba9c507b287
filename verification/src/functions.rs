//! Small arithmetic and classification functions.
use vstd::prelude::*;
use vstd::string::StringExecFns;

verus! {

/// Sum of two numbers.
pub fn add(x: i32, y: i32) -> (r: i32)
    requires
        i32::MIN <= x + y <= i32::MAX,
    ensures
        r == x + y,
{
    x + y
}

/// Product and difference of two numbers, as a pair.
pub fn calculate(a: i32, b: i32) -> (r: (i32, i32))
    requires
        i32::MIN <= a * b <= i32::MAX,
        i32::MIN <= a - b <= i32::MAX,
    ensures
        r.0 == a * b,
        r.1 == a - b,
{
    (a * b, a - b)
}

/// Classifies a number as positive, negative or zero.
pub fn check_number(n: i32) -> (r: String)
    ensures
        n > 0 ==> r@ == "正数"@,
        n < 0 ==> r@ == "负数"@,
        n == 0 ==> r@ == "零"@,
{
    if n > 0 {
        return String::from_str("正数");
    } else if n < 0 {
        return String::from_str("负数");
    } else {
        return String::from_str("零");
    }
}

/// Mathematical factorial.
pub open spec fn spec_factorial(n: nat) -> nat
    decreases n,
{
    if n <= 1 {
        1
    } else {
        n * spec_factorial((n - 1) as nat)
    }
}

/// The factorial never shrinks as its argument grows.
proof fn lemma_factorial_monotonic(m: nat, n: nat)
    requires
        m <= n,
    ensures
        spec_factorial(m) <= spec_factorial(n),
    decreases n,
{
    if m < n {
        lemma_factorial_monotonic(m, (n - 1) as nat);
        if n == 1 {
            assert(spec_factorial(0) == 1);
            assert(spec_factorial(1) == 1);
        } else {
            assert(spec_factorial(n) == n * spec_factorial((n - 1) as nat));
            assert(spec_factorial((n - 1) as nat) <= n * spec_factorial((n - 1) as nat))
                by (nonlinear_arith)
                requires n >= 1;
        }
    }
}

/// Factorial by recursion; every argument up to 12 fits in 32 bits.
pub fn factorial(n: u32) -> (r: u32)
    requires
        n <= 12,
    ensures
        r == spec_factorial(n as nat),
    decreases n,
{
    if n <= 1 {
        1
    } else {
        let rest = factorial(n - 1);
        proof {
            lemma_factorial_monotonic(n as nat, 12);
            assert(spec_factorial(12) == 479001600) by {
                reveal_with_fuel(spec_factorial, 13);
            }
        }
        n * rest
    }
}

} // verus!
