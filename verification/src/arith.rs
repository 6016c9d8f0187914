use vstd::prelude::*;

verus! {

/// Floor division by a positive divisor.
pub fn floor_div(a: i128, b: i128) -> (q: i128)
    requires
        b > 0,
    ensures
        q == a / b,
{
    if a >= 0 {
        a / b
    } else {
        let m: i128 = -(a + 1);
        let t: i128 = m / b;
        proof {
            assert(a / b == -(m / b) - 1) by (nonlinear_arith)
                requires
                    b > 0,
                    a < 0,
                    m == -(a + 1),
            ;
        }
        -t - 1
    }
}

} // verus!
