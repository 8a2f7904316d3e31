//! What the kernel computes where the arithmetic of the entries is exact,
//! and the laws that hold of it there.
//!
//! Exact means that `+` and `*` are the functions `add_spec` and `mul_spec`
//! of their operands. The integer types are exact in this sense; a type that
//! rounds need not be.

use crate::kernel::accumulated;
use crate::kernel::accumulation_accepted;
use crate::kernel::blocks_accepted;
use crate::kernel::blocks_accumulated;
use crate::kernel::contracted;
use crate::kernel::contraction_accepted;
use crate::kernel::pair_entry_of;
use crate::kernel::shape_matches;
use crate::kernel::transformed;
use crate::kernel::transpose_transformed;
use crate::matrix::DenseMatrix;
use crate::matrix::Matrix3;
use crate::scalar::dot3_exact;
use crate::scalar::dot3_exact_accepted;
use crate::scalar::dot3_exact_is_accepted;
use crate::scalar::dot3_of_is_exact;
use crate::scalar::exact_arithmetic;
use crate::scalar::sum_accepted;
use crate::scalar::sum_of;
use core::ops::Add;
use core::ops::Mul;
use vstd::prelude::*;
use vstd::std_specs::ops::AddSpec;
use vstd::std_specs::ops::MulSpec;

verus! {

/// Entry `r` of the product of `f` with the column `x`.
pub open spec fn image_entry<T: Copy + Add<Output = T> + Mul<Output = T>>(
    f: Matrix3<T>,
    x: [T; 3],
    r: int,
) -> T {
    dot3_exact(f.at(r, 0), f.at(r, 1), f.at(r, 2), x[0], x[1], x[2])
}

/// Entry `r` of the product of the transpose of `f` with the column `x`.
pub open spec fn transpose_image_entry<T: Copy + Add<Output = T> + Mul<Output = T>>(
    f: Matrix3<T>,
    x: [T; 3],
    r: int,
) -> T {
    dot3_exact(f.at(0, r), f.at(1, r), f.at(2, r), x[0], x[1], x[2])
}

/// Entry (`r`, `c`) of what one contraction adds to block (`i`, `j`):
/// `(u_i[r] * u_j[c] + v_i[r] * v_j[c]) + v_j[r] * v_i[c]`, where `u_k` is
/// the product of `f` and `v_k` that of its transpose with node `k`.
pub open spec fn contribution<T: Copy + Add<Output = T> + Mul<Output = T>>(
    f: Matrix3<T>,
    a: Seq<[T; 3]>,
    i: int,
    j: int,
    r: int,
    c: int,
) -> T {
    dot3_exact(
        image_entry(f, a[i], r),
        transpose_image_entry(f, a[i], r),
        transpose_image_entry(f, a[j], r),
        image_entry(f, a[j], c),
        transpose_image_entry(f, a[j], c),
        transpose_image_entry(f, a[i], c),
    )
}

/// The entry type accepts each step of entry `r` of the product of `f`, and
/// of the product of its transpose, with the column `x`, at the value that
/// the step has in exact arithmetic.
pub open spec fn images_accepted<T: Copy + Add<Output = T> + Mul<Output = T>>(
    f: Matrix3<T>,
    x: [T; 3],
    r: int,
) -> bool {
    &&& dot3_exact_accepted(f.at(r, 0), f.at(r, 1), f.at(r, 2), x[0], x[1], x[2])
    &&& dot3_exact_accepted(f.at(0, r), f.at(1, r), f.at(2, r), x[0], x[1], x[2])
}

/// The entry type accepts each step of entry (`r`, `c`) of the contribution
/// to block (`i`, `j`), and the sum of `before` with that entry, at the
/// value that the step has in exact arithmetic.
pub open spec fn contribution_accepted<T: Copy + Add<Output = T> + Mul<Output = T>>(
    before: T,
    f: Matrix3<T>,
    a: Seq<[T; 3]>,
    i: int,
    j: int,
    r: int,
    c: int,
) -> bool {
    &&& dot3_exact_accepted(
        image_entry(f, a[i], r),
        transpose_image_entry(f, a[i], r),
        transpose_image_entry(f, a[j], r),
        image_entry(f, a[j], c),
        transpose_image_entry(f, a[j], c),
        transpose_image_entry(f, a[i], c),
    )
    &&& sum_accepted(before, contribution(f, a, i, j, r, c))
}

/// The entry type accepts each step of one contraction of `f` with the
/// nodes `a` into `before`, at the value that the step has in exact
/// arithmetic.
pub open spec fn exact_contraction_accepted<T: Copy + Add<Output = T> + Mul<Output = T>>(
    before: DenseMatrix<T>,
    f: Matrix3<T>,
    a: Seq<[T; 3]>,
) -> bool {
    &&& forall|i: int, r: int|
        0 <= i < a.len() && 0 <= r < 3 ==> #[trigger] images_accepted(f, a[i], r)
    &&& forall|i: int, j: int, r: int, c: int|
        0 <= i < a.len() && 0 <= j < a.len() && 0 <= r < 3 && 0 <= c < 3 ==> contribution_accepted(
            #[trigger] before.block_entry(i, j, r, c),
            f,
            a,
            i,
            j,
            r,
            c,
        )
}

/// `x * y` and `y * x` are the same value.
pub open spec fn commutative_product<T: Mul<Output = T>>() -> bool {
    forall|x: T, y: T| #[trigger] x.mul_spec(y) == y.mul_spec(x)
}

/// Adding to `zero` changes nothing.
pub open spec fn additive_identity<T: Add<Output = T>>(zero: T) -> bool {
    forall|x: T| #[trigger] zero.add_spec(x) == x
}

/// In exact arithmetic, the columns of every `u` and `v` that the two
/// products with the nodes may give hold the entries that the products have.
proof fn lemma_transforms_are_exact<T: Copy + Add<Output = T> + Mul<Output = T>>(
    f: Matrix3<T>,
    a: Seq<[T; 3]>,
    u: Seq<[T; 3]>,
    v: Seq<[T; 3]>,
)
    requires
        exact_arithmetic::<T>(),
        transformed(f, a, u),
        transpose_transformed(f, a, v),
    ensures
        forall|k: int, r: int|
            0 <= k < a.len() && 0 <= r < 3 ==> #[trigger] u[k][r] == image_entry(f, a[k], r),
        forall|k: int, r: int|
            0 <= k < a.len() && 0 <= r < 3 ==> #[trigger] v[k][r] == transpose_image_entry(
                f,
                a[k],
                r,
            ),
{
    assert forall|k: int, r: int| 0 <= k < a.len() && 0 <= r < 3 implies u[k][r] == image_entry(
        f,
        a[k],
        r,
    ) && v[k][r] == transpose_image_entry(f, a[k], r) by {
        assert(f.maps(a[k], u[k]));
        assert(f.transpose_maps(a[k], v[k]));
        dot3_of_is_exact(f.at(r, 0), f.at(r, 1), f.at(r, 2), a[k][0], a[k][1], a[k][2], u[k][r]);
        dot3_of_is_exact(f.at(0, r), f.at(1, r), f.at(2, r), a[k][0], a[k][1], a[k][2], v[k][r]);
    }
}

/// In exact arithmetic a contraction is accepted where each of its steps is
/// accepted at the one value it has.
pub proof fn exact_arithmetic_accepts_contraction<T: Copy + Add<Output = T> + Mul<Output = T>>(
    before: DenseMatrix<T>,
    f: Matrix3<T>,
    a: Seq<[T; 3]>,
)
    requires
        exact_arithmetic::<T>(),
        exact_contraction_accepted(before, f, a),
    ensures
        contraction_accepted(before, f, a),
{
    assert forall|i: int| 0 <= i < a.len() implies #[trigger] f.accepts(a[i]) by {
        assert(images_accepted(f, a[i], 0));
        assert(images_accepted(f, a[i], 1));
        assert(images_accepted(f, a[i], 2));
        dot3_exact_is_accepted(f.at(0, 0), f.at(0, 1), f.at(0, 2), a[i][0], a[i][1], a[i][2]);
        dot3_exact_is_accepted(f.at(1, 0), f.at(1, 1), f.at(1, 2), a[i][0], a[i][1], a[i][2]);
        dot3_exact_is_accepted(f.at(2, 0), f.at(2, 1), f.at(2, 2), a[i][0], a[i][1], a[i][2]);
    }
    assert forall|i: int| 0 <= i < a.len() implies #[trigger] f.transpose_accepts(a[i]) by {
        assert(images_accepted(f, a[i], 0));
        assert(images_accepted(f, a[i], 1));
        assert(images_accepted(f, a[i], 2));
        dot3_exact_is_accepted(f.at(0, 0), f.at(1, 0), f.at(2, 0), a[i][0], a[i][1], a[i][2]);
        dot3_exact_is_accepted(f.at(0, 1), f.at(1, 1), f.at(2, 1), a[i][0], a[i][1], a[i][2]);
        dot3_exact_is_accepted(f.at(0, 2), f.at(1, 2), f.at(2, 2), a[i][0], a[i][1], a[i][2]);
    }
    assert forall|u: Seq<[T; 3]>, v: Seq<[T; 3]>|
        transformed(f, a, u) && transpose_transformed(f, a, v) implies #[trigger] blocks_accepted(
        before,
        u,
        v,
    ) by {
        lemma_transforms_are_exact(f, a, u, v);
        assert forall|i: int, j: int, r: int, c: int|
            0 <= i < u.len() && 0 <= j < u.len() && 0 <= r < 3 && 0 <= c < 3 implies accumulation_accepted(
            #[trigger] before.block_entry(i, j, r, c),
            u[i],
            u[j],
            v[i],
            v[j],
            r,
            c,
        ) by {
            assert(contribution_accepted(before.block_entry(i, j, r, c), f, a, i, j, r, c));
            assert(u[i][r] == image_entry(f, a[i], r) && u[j][c] == image_entry(f, a[j], c));
            assert(v[i][r] == transpose_image_entry(f, a[i], r) && v[j][c]
                == transpose_image_entry(f, a[j], c));
            assert(v[j][r] == transpose_image_entry(f, a[j], r) && v[i][c]
                == transpose_image_entry(f, a[i], c));
            dot3_exact_is_accepted(u[i][r], v[i][r], v[j][r], u[j][c], v[j][c], v[i][c]);
            assert forall|t: T| #[trigger]
                pair_entry_of(u[i], u[j], v[i], v[j], r, c, t) implies sum_accepted(
                before.block_entry(i, j, r, c),
                t,
            ) by {
                dot3_of_is_exact(u[i][r], v[i][r], v[j][r], u[j][c], v[j][c], v[i][c], t);
            }
        }
    }
}

/// In exact arithmetic one contraction adds to each entry of each block its
/// contribution, and the result is that one value.
pub proof fn contraction_is_exact<T: Copy + Add<Output = T> + Mul<Output = T>>(
    before: DenseMatrix<T>,
    f: Matrix3<T>,
    a: Seq<[T; 3]>,
    after: DenseMatrix<T>,
)
    requires
        exact_arithmetic::<T>(),
        contracted(before, f, a, after),
    ensures
        after.rows() == before.rows(),
        after.cols() == before.cols(),
        forall|i: int, j: int, r: int, c: int|
            0 <= i < a.len() && 0 <= j < a.len() && 0 <= r < 3 && 0 <= c < 3
                ==> #[trigger] after.block_entry(i, j, r, c) == before.block_entry(
                i,
                j,
                r,
                c,
            ).add_spec(contribution(f, a, i, j, r, c)),
{
    let (u, v) = choose|u: Seq<[T; 3]>, v: Seq<[T; 3]>|
        {
            &&& transformed(f, a, u)
            &&& transpose_transformed(f, a, v)
            &&& #[trigger] blocks_accumulated(before, u, v, after)
        };
    lemma_transforms_are_exact(f, a, u, v);
    assert forall|i: int, j: int, r: int, c: int|
        0 <= i < a.len() && 0 <= j < a.len() && 0 <= r < 3 && 0 <= c < 3 implies #[trigger] after.block_entry(
        i,
        j,
        r,
        c,
    ) == before.block_entry(i, j, r, c).add_spec(contribution(f, a, i, j, r, c)) by {
        assert(accumulated(
            before.block_entry(i, j, r, c),
            u[i],
            u[j],
            v[i],
            v[j],
            r,
            c,
            after.block_entry(i, j, r, c),
        ));
        let t = choose|t: T| #[trigger]
            pair_entry_of(u[i], u[j], v[i], v[j], r, c, t) && sum_of(
                before.block_entry(i, j, r, c),
                t,
                after.block_entry(i, j, r, c),
            );
        dot3_of_is_exact(u[i][r], v[i][r], v[j][r], u[j][c], v[j][c], v[i][c], t);
    }
}

/// Symmetry: where the product of two entries does not depend on their
/// order, entry (`r`, `c`) of the contribution to block (`i`, `j`) is entry
/// (`c`, `r`) of the contribution to block (`j`, `i`). The contribution to
/// one block is the transpose of the contribution to the mirrored block.
pub proof fn contribution_is_symmetric<T: Copy + Add<Output = T> + Mul<Output = T>>(
    f: Matrix3<T>,
    a: Seq<[T; 3]>,
    i: int,
    j: int,
    r: int,
    c: int,
)
    requires
        commutative_product::<T>(),
    ensures
        contribution(f, a, i, j, r, c) == contribution(f, a, j, i, c, r),
{
    let u_ir = image_entry(f, a[i], r);
    let u_jc = image_entry(f, a[j], c);
    let v_ir = transpose_image_entry(f, a[i], r);
    let v_jc = transpose_image_entry(f, a[j], c);
    let v_jr = transpose_image_entry(f, a[j], r);
    let v_ic = transpose_image_entry(f, a[i], c);
    assert(u_ir.mul_spec(u_jc) == u_jc.mul_spec(u_ir));
    assert(v_ir.mul_spec(v_jc) == v_jc.mul_spec(v_ir));
    assert(v_jr.mul_spec(v_ic) == v_ic.mul_spec(v_jr));
}

/// Additivity: in exact arithmetic, two contractions into an output that
/// held the additive identity everywhere leave in each entry the sum of two
/// copies of what one contraction leaves there.
pub proof fn two_contractions_double<T: Copy + Add<Output = T> + Mul<Output = T>>(
    zeroed: DenseMatrix<T>,
    f: Matrix3<T>,
    a: Seq<[T; 3]>,
    once: DenseMatrix<T>,
    twice: DenseMatrix<T>,
    zero: T,
)
    requires
        exact_arithmetic::<T>(),
        additive_identity(zero),
        shape_matches(a.len(), zeroed.rows(), zeroed.cols()),
        forall|row: int, col: int|
            0 <= row < zeroed.rows() && 0 <= col < zeroed.cols() ==> #[trigger] zeroed.at(row, col)
                == zero,
        contracted(zeroed, f, a, once),
        contracted(once, f, a, twice),
    ensures
        forall|i: int, j: int, r: int, c: int|
            0 <= i < a.len() && 0 <= j < a.len() && 0 <= r < 3 && 0 <= c < 3
                ==> #[trigger] twice.block_entry(i, j, r, c) == once.block_entry(
                i,
                j,
                r,
                c,
            ).add_spec(once.block_entry(i, j, r, c)),
{
    contraction_is_exact(zeroed, f, a, once);
    contraction_is_exact(once, f, a, twice);
    assert forall|i: int, j: int, r: int, c: int|
        0 <= i < a.len() && 0 <= j < a.len() && 0 <= r < 3 && 0 <= c < 3 implies #[trigger] twice.block_entry(
        i,
        j,
        r,
        c,
    ) == once.block_entry(i, j, r, c).add_spec(once.block_entry(i, j, r, c)) by {
        assert(zeroed.block_entry(i, j, r, c) == zeroed.at(3 * i + r, 3 * j + c));
        assert(zeroed.block_entry(i, j, r, c) == zero);
        assert(once.block_entry(i, j, r, c) == zero.add_spec(contribution(f, a, i, j, r, c)));
    }
}

/// Diagonal blocks: entry (`r`, `c`) of the contribution to block (`i`, `i`)
/// is `(u[r] * u[c] + v[r] * v[c]) + v[r] * v[c]`, with `u` the product of
/// `f` and `v` that of its transpose with node `i`.
pub proof fn diagonal_contribution<T: Copy + Add<Output = T> + Mul<Output = T>>(
    f: Matrix3<T>,
    a: Seq<[T; 3]>,
    i: int,
    r: int,
    c: int,
)
    ensures
        contribution(f, a, i, i, r, c) == image_entry(f, a[i], r).mul_spec(
            image_entry(f, a[i], c),
        ).add_spec(
            transpose_image_entry(f, a[i], r).mul_spec(transpose_image_entry(f, a[i], c)),
        ).add_spec(transpose_image_entry(f, a[i], r).mul_spec(transpose_image_entry(f, a[i], c))),
{
}

/// Diagonal blocks, doubled form: where `u[r] * u[c]` is the additive
/// identity, entry (`r`, `c`) of the contribution to block (`i`, `i`) is
/// `(u[r] * u[c] + u[r] * u[c]) + (v[r] * v[c] + v[r] * v[c])`. Where
/// `u[r] * u[c]` is anything else the doubled form counts it once too often.
pub proof fn diagonal_contribution_doubled<T: Copy + Add<Output = T> + Mul<Output = T>>(
    f: Matrix3<T>,
    a: Seq<[T; 3]>,
    i: int,
    r: int,
    c: int,
    zero: T,
)
    requires
        additive_identity(zero),
        image_entry(f, a[i], r).mul_spec(image_entry(f, a[i], c)) == zero,
    ensures
        contribution(f, a, i, i, r, c) == ({
            let uu = image_entry(f, a[i], r).mul_spec(image_entry(f, a[i], c));
            let vv = transpose_image_entry(f, a[i], r).mul_spec(
                transpose_image_entry(f, a[i], c),
            );
            uu.add_spec(uu).add_spec(vv.add_spec(vv))
        }),
{
    let vv = transpose_image_entry(f, a[i], r).mul_spec(transpose_image_entry(f, a[i], c));
    assert(zero.add_spec(vv) == vv);
    assert(zero.add_spec(zero) == zero);
    assert(zero.add_spec(vv.add_spec(vv)) == vv.add_spec(vv));
}

} // verus!
