//! Small demonstration routines: the kind of plain exported function a
//! binding subject offers, kept here so the extraction pipeline has a
//! concrete API surface to exercise.

use vstd::prelude::*;

use crate::DivModResult;

verus! {

/// Truncating integer division, the way the `/` operator rounds: toward
/// zero.
pub open spec fn div_trunc(a: int, b: int) -> int {
    if a >= 0 {
        a / b
    } else {
        -((-a) / b)
    }
}

/// The remainder that pairs with truncating division: it takes the
/// dividend's sign.
pub open spec fn rem_trunc(a: int, b: int) -> int {
    if a >= 0 {
        a % b
    } else {
        -((-a) % b)
    }
}

/// Divides `n` by `d`, returning the quotient and the remainder together.
pub fn divmod_example(n: i32, d: i32) -> (r: DivModResult)
    requires
        d != 0,
        !(n == i32::MIN && d == -1),
    ensures
        r.d == div_trunc(n as int, d as int),
        r.m == rem_trunc(n as int, d as int),
{
    proof {
        let a = n as int;
        let b = d as int;
        if a >= 0 {
            assert(-a <= a / b && a / b <= a) by (nonlinear_arith)
                requires
                    a >= 0,
                    b != 0,
            ;
        } else {
            let c = -a;
            assert(-c <= c / b && c / b <= c) by (nonlinear_arith)
                requires
                    c > 0,
                    b != 0,
            ;
            if n == i32::MIN {
                assert(c / b != -c) by (nonlinear_arith)
                    requires
                        c > 0,
                        b != 0,
                        b != -1,
                ;
            }
        }
    }
    DivModResult { d: n / d, m: n % d }
}

/// Relies on `std::time::Instant::now` and its debug formatting: nothing is
/// promised of the result, which depends on the clock.
#[verifier::external_body]
pub fn when_is_now() -> String {
    format!("{:?}", std::time::Instant::now())
}

} // verus!
