use vstd::prelude::*;

verus! {

/// Returns the argument together with its square.
pub fn square(x: i32) -> (r: (i32, i32))
    requires
        x * x <= i32::MAX,
    ensures
        r.0 == x,
        r.1 == x * x,
{
    proof {
        assert(x * x >= 0) by (nonlinear_arith);
    }
    (x, x * x)
}

} // verus!
