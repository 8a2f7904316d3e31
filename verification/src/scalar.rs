//! The arithmetic of the entries.
//!
//! The kernel is written once for every entry type that has `+` and `*`.
//! Nothing is assumed of what the two operators compute: an entry type may
//! round, saturate or wrap. What a value is, is therefore said by relations
//! between the operands and every result that the operator may give. For a
//! type whose operators are exact these relations name one value each.

use core::ops::Add;
use core::ops::Mul;
use vstd::prelude::*;
use vstd::std_specs::ops::AddSpec;
use vstd::std_specs::ops::MulSpec;

verus! {

/// `s` is a value that `x + y` may give.
pub open spec fn sum_of<T: Add<Output = T>>(x: T, y: T, s: T) -> bool {
    call_ensures(<T as Add>::add, (x, y), s)
}

/// `p` is a value that `x * y` may give.
pub open spec fn product_of<T: Mul<Output = T>>(x: T, y: T, p: T) -> bool {
    call_ensures(<T as Mul>::mul, (x, y), p)
}

/// The entry type accepts the operands of `x + y`.
pub open spec fn sum_accepted<T: Add<Output = T>>(x: T, y: T) -> bool {
    call_requires(<T as Add>::add, (x, y))
}

/// The entry type accepts the operands of `x * y`.
pub open spec fn product_accepted<T: Mul<Output = T>>(x: T, y: T) -> bool {
    call_requires(<T as Mul>::mul, (x, y))
}

/// `+` and `*` accept every pair of operands: no sum and no product fails.
/// This holds of arithmetic that answers an overflow with a value, be it an
/// infinity, a bound or a remainder; it does not hold of arithmetic that
/// stops on overflow.
pub open spec fn total_arithmetic<T: Add<Output = T> + Mul<Output = T>>() -> bool {
    &&& forall|x: T, y: T| #[trigger] sum_accepted(x, y)
    &&& forall|x: T, y: T| #[trigger] product_accepted(x, y)
}

/// `d` is a value that `(x0 * y0 + x1 * y1) + x2 * y2` may give, the
/// products taken first and the sums from left to right.
pub open spec fn dot3_of<T: Add<Output = T> + Mul<Output = T>>(
    x0: T,
    x1: T,
    x2: T,
    y0: T,
    y1: T,
    y2: T,
    d: T,
) -> bool {
    exists|pa: T, pb: T, pc: T, s: T|
        #![trigger product_of(x0, y0, pa), product_of(x1, y1, pb), product_of(x2, y2, pc), sum_of(pa, pb, s)]
        {
            &&& product_of(x0, y0, pa)
            &&& product_of(x1, y1, pb)
            &&& product_of(x2, y2, pc)
            &&& sum_of(pa, pb, s)
            &&& sum_of(s, pc, d)
        }
}

/// The entry type accepts each step of `(x0 * y0 + x1 * y1) + x2 * y2`,
/// whatever the steps before it give.
pub open spec fn dot3_accepted<T: Add<Output = T> + Mul<Output = T>>(
    x0: T,
    x1: T,
    x2: T,
    y0: T,
    y1: T,
    y2: T,
) -> bool {
    &&& product_accepted(x0, y0)
    &&& product_accepted(x1, y1)
    &&& product_accepted(x2, y2)
    &&& forall|pa: T, pb: T|
        #![trigger product_of(x0, y0, pa), product_of(x1, y1, pb)]
        product_of(x0, y0, pa) && product_of(x1, y1, pb) ==> sum_accepted(pa, pb)
    &&& forall|pa: T, pb: T, pc: T, s: T|
        #![trigger product_of(x0, y0, pa), product_of(x1, y1, pb), product_of(x2, y2, pc), sum_of(pa, pb, s)]
        product_of(x0, y0, pa) && product_of(x1, y1, pb) && product_of(x2, y2, pc) && sum_of(
            pa,
            pb,
            s,
        ) ==> sum_accepted(s, pc)
}

/// The inner product of two triples.
pub fn dot3<T: Copy + Add<Output = T> + Mul<Output = T>>(
    x0: T,
    x1: T,
    x2: T,
    y0: T,
    y1: T,
    y2: T,
) -> (d: T)
    requires
        dot3_accepted(x0, x1, x2, y0, y1, y2),
    ensures
        dot3_of(x0, x1, x2, y0, y1, y2, d),
{
    let pa = x0 * y0;
    let pb = x1 * y1;
    let pc = x2 * y2;
    assert(product_of(x0, y0, pa) && product_of(x1, y1, pb) && product_of(x2, y2, pc));
    let s = pa + pb;
    assert(sum_of(pa, pb, s));
    let d = s + pc;
    assert(sum_of(s, pc, d));
    d
}

/// `+` and `*` on `T` are functions of their operands, and the functions are
/// `add_spec` and `mul_spec`.
pub open spec fn exact_arithmetic<T: Add<Output = T> + Mul<Output = T>>() -> bool {
    T::obeys_add_spec() && T::obeys_mul_spec()
}

/// The value of `(x0 * y0 + x1 * y1) + x2 * y2` in exact arithmetic.
pub open spec fn dot3_exact<T: Add<Output = T> + Mul<Output = T>>(
    x0: T,
    x1: T,
    x2: T,
    y0: T,
    y1: T,
    y2: T,
) -> T {
    x0.mul_spec(y0).add_spec(x1.mul_spec(y1)).add_spec(x2.mul_spec(y2))
}

/// The entry type accepts each step of `(x0 * y0 + x1 * y1) + x2 * y2` at
/// the value that the step has in exact arithmetic.
pub open spec fn dot3_exact_accepted<T: Add<Output = T> + Mul<Output = T>>(
    x0: T,
    x1: T,
    x2: T,
    y0: T,
    y1: T,
    y2: T,
) -> bool {
    &&& product_accepted(x0, y0)
    &&& product_accepted(x1, y1)
    &&& product_accepted(x2, y2)
    &&& sum_accepted(x0.mul_spec(y0), x1.mul_spec(y1))
    &&& sum_accepted(x0.mul_spec(y0).add_spec(x1.mul_spec(y1)), x2.mul_spec(y2))
}

/// In exact arithmetic an inner product is accepted where each of its steps
/// is accepted at the one value it has.
pub proof fn dot3_exact_is_accepted<T: Add<Output = T> + Mul<Output = T>>(
    x0: T,
    x1: T,
    x2: T,
    y0: T,
    y1: T,
    y2: T,
)
    requires
        exact_arithmetic::<T>(),
        dot3_exact_accepted(x0, x1, x2, y0, y1, y2),
    ensures
        dot3_accepted(x0, x1, x2, y0, y1, y2),
{
}

/// In exact arithmetic an inner product has one value.
pub proof fn dot3_of_is_exact<T: Add<Output = T> + Mul<Output = T>>(
    x0: T,
    x1: T,
    x2: T,
    y0: T,
    y1: T,
    y2: T,
    d: T,
)
    requires
        exact_arithmetic::<T>(),
        dot3_of(x0, x1, x2, y0, y1, y2, d),
    ensures
        d == dot3_exact(x0, x1, x2, y0, y1, y2),
{
}

} // verus!
