//! Function demonstrations: a predicate helper and the sum of squared
//! odd numbers below a bound, computed imperatively.
use vstd::prelude::*;

verus! {

/// Whether a number is odd.
pub fn is_odd(number: u32) -> (r: bool)
    ensures
        r == (number % 2 == 1),
{
    number % 2 == 1
}

/// The contribution of `j` to the running sum: its square, when that
/// square is odd and below one thousand.
pub open spec fn odd_square_term(j: nat) -> nat {
    if j * j < 1000 && (j * j) % 2 == 1 {
        j * j
    } else {
        0
    }
}

/// The sum of the contributions of all numbers below `k`.
pub open spec fn sum_odd_squares(k: nat) -> nat
    decreases k,
{
    if k == 0 {
        0
    } else {
        sum_odd_squares((k - 1) as nat) + odd_square_term((k - 1) as nat)
    }
}

/// Sums all squared odd numbers under one thousand. Thirty-two is the
/// first number whose square reaches the bound, so the walk stops there.
pub fn display_high_order_function() -> (acc: u32)
    ensures
        acc == sum_odd_squares(32),
{
    let upper: u32 = 1000;
    let mut acc: u32 = 0;
    let mut number: u32 = 0;
    loop
        invariant_except_break
            upper == 1000,
            number <= 32,
            acc == sum_odd_squares(number as nat),
            acc <= 1000 * number,
        ensures
            acc == sum_odd_squares(32),
        decreases 32 - number,
    {
        proof {
            assert(number * number <= 1024) by (nonlinear_arith)
                requires
                    number <= 32,
            ;
        }
        let number_squared = number * number;
        if number_squared >= upper {
            proof {
                assert(number == 32) by (nonlinear_arith)
                    requires
                        number <= 32,
                        number_squared >= 1000,
                        number_squared == number * number,
                ;
            }
            break ;
        } else if is_odd(number_squared) {
            acc = acc + number_squared;
        }
        proof {
            assert(number < 32) by (nonlinear_arith)
                requires
                    number_squared < 1000,
                    number_squared == number * number,
            ;
        }
        number = number + 1;
    }
    acc
}

} // verus!
