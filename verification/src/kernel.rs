//! The contraction kernel.
//!
//! For a 3x3 matrix `F` and `N` node vectors, the columns of `A`, the kernel
//! forms `U = F A` and `V = Fᵗ A` and adds to the 3x3 block (`i`, `j`) of the
//! output the matrix `u_i u_jᵗ + v_i v_jᵗ + v_j v_iᵗ`, for every pair of
//! nodes.

use crate::matrix::DenseMatrix;
use crate::matrix::Matrix3;
use crate::scalar::dot3;
use crate::scalar::dot3_accepted;
use crate::scalar::dot3_of;
use crate::scalar::sum_accepted;
use crate::scalar::sum_of;
use crate::scalar::total_arithmetic;
use core::ops::Add;
use core::ops::Mul;
use vstd::prelude::*;

verus! {

/// The output does not have three rows and three columns for each node.
#[derive(Clone, Copy, Debug, PartialEq, Eq)]
pub struct ShapeMismatch {
    /// The number of nodes.
    pub nodes: usize,
    /// The number of rows of the output.
    pub nrows: usize,
    /// The number of columns of the output.
    pub ncols: usize,
}

/// An output of `rows` x `cols` entries has one 3x3 block for each pair of
/// `nodes` nodes.
pub open spec fn shape_matches(nodes: nat, rows: nat, cols: nat) -> bool {
    rows == 3 * nodes && cols == 3 * nodes
}

/// Column `i` of `u` is a value that the product of `f` with column `i` of
/// `a` may give.
pub open spec fn transformed<T: Copy + Add<Output = T> + Mul<Output = T>>(
    f: Matrix3<T>,
    a: Seq<[T; 3]>,
    u: Seq<[T; 3]>,
) -> bool {
    &&& u.len() == a.len()
    &&& forall|i: int| 0 <= i < a.len() ==> #[trigger] f.maps(a[i], u[i])
}

/// Column `i` of `v` is a value that the product of the transpose of `f`
/// with column `i` of `a` may give.
pub open spec fn transpose_transformed<T: Copy + Add<Output = T> + Mul<Output = T>>(
    f: Matrix3<T>,
    a: Seq<[T; 3]>,
    v: Seq<[T; 3]>,
) -> bool {
    &&& v.len() == a.len()
    &&& forall|i: int| 0 <= i < a.len() ==> #[trigger] f.transpose_maps(a[i], v[i])
}

/// `t` is a value that entry (`r`, `c`) of `u_i u_jᵗ + v_i v_jᵗ + v_j v_iᵗ`
/// may take: `(u_i[r] * u_j[c] + v_i[r] * v_j[c]) + v_j[r] * v_i[c]`.
pub open spec fn pair_entry_of<T: Copy + Add<Output = T> + Mul<Output = T>>(
    u_i: [T; 3],
    u_j: [T; 3],
    v_i: [T; 3],
    v_j: [T; 3],
    r: int,
    c: int,
    t: T,
) -> bool {
    dot3_of(u_i[r], v_i[r], v_j[r], u_j[c], v_j[c], v_i[c], t)
}

/// `block` is a value that `u_i u_jᵗ + v_i v_jᵗ + v_j v_iᵗ` may take.
pub open spec fn pair_block_of<T: Copy + Add<Output = T> + Mul<Output = T>>(
    u_i: [T; 3],
    u_j: [T; 3],
    v_i: [T; 3],
    v_j: [T; 3],
    block: Matrix3<T>,
) -> bool {
    forall|r: int, c: int|
        0 <= r < 3 && 0 <= c < 3 ==> pair_entry_of(u_i, u_j, v_i, v_j, r, c, #[trigger] block.at(r, c))
}

/// `after` is a value that `before` may take when entry (`r`, `c`) of
/// `u_i u_jᵗ + v_i v_jᵗ + v_j v_iᵗ` is added to it.
pub open spec fn accumulated<T: Copy + Add<Output = T> + Mul<Output = T>>(
    before: T,
    u_i: [T; 3],
    u_j: [T; 3],
    v_i: [T; 3],
    v_j: [T; 3],
    r: int,
    c: int,
    after: T,
) -> bool {
    exists|t: T| #[trigger] pair_entry_of(u_i, u_j, v_i, v_j, r, c, t) && sum_of(before, t, after)
}

/// `after` has the shape of `before`, and each entry of each of its blocks
/// is the entry of `before` with the contribution of that pair of columns of
/// `u` and `v` added.
pub open spec fn blocks_accumulated<T: Copy + Add<Output = T> + Mul<Output = T>>(
    before: DenseMatrix<T>,
    u: Seq<[T; 3]>,
    v: Seq<[T; 3]>,
    after: DenseMatrix<T>,
) -> bool {
    &&& after.rows() == before.rows()
    &&& after.cols() == before.cols()
    &&& forall|i: int, j: int, r: int, c: int|
        0 <= i < u.len() && 0 <= j < u.len() && 0 <= r < 3 && 0 <= c < 3 ==> accumulated(
            before.block_entry(i, j, r, c),
            u[i],
            u[j],
            v[i],
            v[j],
            r,
            c,
            #[trigger] after.block_entry(i, j, r, c),
        )
}

/// `after` is a value that `before` may take in one contraction of `f` with
/// the nodes `a`.
pub open spec fn contracted<T: Copy + Add<Output = T> + Mul<Output = T>>(
    before: DenseMatrix<T>,
    f: Matrix3<T>,
    a: Seq<[T; 3]>,
    after: DenseMatrix<T>,
) -> bool {
    exists|u: Seq<[T; 3]>, v: Seq<[T; 3]>|
        {
            &&& transformed(f, a, u)
            &&& transpose_transformed(f, a, v)
            &&& #[trigger] blocks_accumulated(before, u, v, after)
        }
}

/// The entry type accepts each step of the product of `f` with each column
/// of `a`.
pub open spec fn transform_accepted<T: Copy + Add<Output = T> + Mul<Output = T>>(
    f: Matrix3<T>,
    a: Seq<[T; 3]>,
) -> bool {
    forall|i: int| 0 <= i < a.len() ==> #[trigger] f.accepts(a[i])
}

/// The entry type accepts each step of the product of the transpose of `f`
/// with each column of `a`.
pub open spec fn transpose_transform_accepted<T: Copy + Add<Output = T> + Mul<Output = T>>(
    f: Matrix3<T>,
    a: Seq<[T; 3]>,
) -> bool {
    forall|i: int| 0 <= i < a.len() ==> #[trigger] f.transpose_accepts(a[i])
}

/// The entry type accepts each step of entry (`r`, `c`) of
/// `u_i u_jᵗ + v_i v_jᵗ + v_j v_iᵗ`.
pub open spec fn pair_entry_accepted<T: Copy + Add<Output = T> + Mul<Output = T>>(
    u_i: [T; 3],
    u_j: [T; 3],
    v_i: [T; 3],
    v_j: [T; 3],
    r: int,
    c: int,
) -> bool {
    dot3_accepted(u_i[r], v_i[r], v_j[r], u_j[c], v_j[c], v_i[c])
}

/// The entry type accepts each step of entry (`r`, `c`) of
/// `u_i u_jᵗ + v_i v_jᵗ + v_j v_iᵗ` and the sum of `before` with whatever
/// that entry is.
pub open spec fn accumulation_accepted<T: Copy + Add<Output = T> + Mul<Output = T>>(
    before: T,
    u_i: [T; 3],
    u_j: [T; 3],
    v_i: [T; 3],
    v_j: [T; 3],
    r: int,
    c: int,
) -> bool {
    &&& pair_entry_accepted(u_i, u_j, v_i, v_j, r, c)
    &&& forall|t: T| #[trigger] pair_entry_of(u_i, u_j, v_i, v_j, r, c, t) ==> sum_accepted(before, t)
}

/// The entry type accepts each step of adding to each block of `before` the
/// contribution of that pair of columns of `u` and `v`.
pub open spec fn blocks_accepted<T: Copy + Add<Output = T> + Mul<Output = T>>(
    before: DenseMatrix<T>,
    u: Seq<[T; 3]>,
    v: Seq<[T; 3]>,
) -> bool {
    forall|i: int, j: int, r: int, c: int|
        0 <= i < u.len() && 0 <= j < u.len() && 0 <= r < 3 && 0 <= c < 3 ==> accumulation_accepted(
            #[trigger] before.block_entry(i, j, r, c),
            u[i],
            u[j],
            v[i],
            v[j],
            r,
            c,
        )
}

/// The entry type accepts each step of one contraction of `f` with the
/// nodes `a` into `before`: no sum and no product on the way fails.
pub open spec fn contraction_accepted<T: Copy + Add<Output = T> + Mul<Output = T>>(
    before: DenseMatrix<T>,
    f: Matrix3<T>,
    a: Seq<[T; 3]>,
) -> bool {
    &&& transform_accepted(f, a)
    &&& transpose_transform_accepted(f, a)
    &&& forall|u: Seq<[T; 3]>, v: Seq<[T; 3]>|
        transformed(f, a, u) && transpose_transformed(f, a, v) ==> #[trigger] blocks_accepted(
            before,
            u,
            v,
        )
}

/// An entry type that accepts every pair of operands accepts every
/// contraction.
pub proof fn total_arithmetic_accepts_contraction<T: Copy + Add<Output = T> + Mul<Output = T>>(
    before: DenseMatrix<T>,
    f: Matrix3<T>,
    a: Seq<[T; 3]>,
)
    requires
        total_arithmetic::<T>(),
    ensures
        contraction_accepted(before, f, a),
{
}

/// The product of `f` with each column of `a`.
pub fn transform<T: Copy + Add<Output = T> + Mul<Output = T>>(f: &Matrix3<T>, a: &[[T; 3]]) -> (u:
    Vec<[T; 3]>)
    requires
        transform_accepted(*f, a@),
    ensures
        transformed(*f, a@, u@),
{
    let n: usize = a.len();
    let mut u: Vec<[T; 3]> = Vec::with_capacity(n);
    let mut i: usize = 0;
    while i < n
        invariant
            transform_accepted(*f, a@),
            n == a@.len(),
            i <= n,
            u@.len() == i,
            forall|k: int| 0 <= k < i ==> #[trigger] f.maps(a@[k], u@[k]),
        decreases n - i,
    {
        let column = f.apply(&a[i]);
        u.push(column);
        i += 1;
    }
    u
}

/// Entry (`r`, `c`) of `u_i u_jᵗ + v_i v_jᵗ + v_j v_iᵗ`.
pub fn pair_entry<T: Copy + Add<Output = T> + Mul<Output = T>>(
    u_i: &[T; 3],
    u_j: &[T; 3],
    v_i: &[T; 3],
    v_j: &[T; 3],
    r: usize,
    c: usize,
) -> (t: T)
    requires
        r < 3,
        c < 3,
        pair_entry_accepted(*u_i, *u_j, *v_i, *v_j, r as int, c as int),
    ensures
        pair_entry_of(*u_i, *u_j, *v_i, *v_j, r as int, c as int, t),
{
    dot3(u_i[r], v_i[r], v_j[r], u_j[c], v_j[c], v_i[c])
}

/// The 3x3 matrix `u_i u_jᵗ + v_i v_jᵗ + v_j v_iᵗ`.
pub fn pair_block<T: Copy + Add<Output = T> + Mul<Output = T>>(
    u_i: &[T; 3],
    u_j: &[T; 3],
    v_i: &[T; 3],
    v_j: &[T; 3],
) -> (block: Matrix3<T>)
    requires
        forall|r: int, c: int|
            0 <= r < 3 && 0 <= c < 3 ==> #[trigger] pair_entry_accepted(
                *u_i,
                *u_j,
                *v_i,
                *v_j,
                r,
                c,
            ),
    ensures
        pair_block_of(*u_i, *u_j, *v_i, *v_j, block),
{
    Matrix3 {
        rows: [
            [
                pair_entry(u_i, u_j, v_i, v_j, 0, 0),
                pair_entry(u_i, u_j, v_i, v_j, 0, 1),
                pair_entry(u_i, u_j, v_i, v_j, 0, 2),
            ],
            [
                pair_entry(u_i, u_j, v_i, v_j, 1, 0),
                pair_entry(u_i, u_j, v_i, v_j, 1, 1),
                pair_entry(u_i, u_j, v_i, v_j, 1, 2),
            ],
            [
                pair_entry(u_i, u_j, v_i, v_j, 2, 0),
                pair_entry(u_i, u_j, v_i, v_j, 2, 1),
                pair_entry(u_i, u_j, v_i, v_j, 2, 2),
            ],
        ],
    }
}

/// Adds to each block (`i`, `j`) of the output the contribution of columns
/// `i` and `j` of `u` and `v`. The blocks are visited column by column, as
/// the buffer of the output holds them.
pub fn accumulate_blocks<T: Copy + Add<Output = T> + Mul<Output = T>>(
    output: &mut DenseMatrix<T>,
    u: &[[T; 3]],
    v: &[[T; 3]],
)
    requires
        v@.len() == u@.len(),
        shape_matches(u@.len(), old(output).rows(), old(output).cols()),
        blocks_accepted(*old(output), u@, v@),
    ensures
        blocks_accumulated(*old(output), u@, v@, *final(output)),
        u@.len() == 0 ==> *final(output) == *old(output),
{
    let ghost before = *output;
    let n: usize = u.len();
    let mut j: usize = 0;
    while j < n
        invariant
            blocks_accepted(before, u@, v@),
            n == u@.len(),
            n == v@.len(),
            j <= n,
            shape_matches(n as nat, before.rows(), before.cols()),
            output.rows() == before.rows(),
            output.cols() == before.cols(),
            n == 0 ==> *output == before,
            forall|i2: int, j2: int, r: int, c: int|
                0 <= i2 < n && 0 <= j2 < j && 0 <= r < 3 && 0 <= c < 3 ==> accumulated(
                    before.block_entry(i2, j2, r, c),
                    u@[i2],
                    u@[j2],
                    v@[i2],
                    v@[j2],
                    r,
                    c,
                    #[trigger] output.block_entry(i2, j2, r, c),
                ),
            forall|i2: int, j2: int, r: int, c: int|
                0 <= i2 < n && j <= j2 < n && 0 <= r < 3 && 0 <= c < 3
                    ==> #[trigger] output.block_entry(i2, j2, r, c) == before.block_entry(
                    i2,
                    j2,
                    r,
                    c,
                ),
        decreases n - j,
    {
        let mut i: usize = 0;
        while i < n
            invariant
                blocks_accepted(before, u@, v@),
                n == u@.len(),
                n == v@.len(),
                j < n,
                i <= n,
                shape_matches(n as nat, before.rows(), before.cols()),
                output.rows() == before.rows(),
                output.cols() == before.cols(),
                forall|i2: int, j2: int, r: int, c: int|
                    0 <= i2 < n && 0 <= j2 < n && 0 <= r < 3 && 0 <= c < 3 && (j2 < j || (j2 == j
                        && i2 < i)) ==> accumulated(
                        before.block_entry(i2, j2, r, c),
                        u@[i2],
                        u@[j2],
                        v@[i2],
                        v@[j2],
                        r,
                        c,
                        #[trigger] output.block_entry(i2, j2, r, c),
                    ),
                forall|i2: int, j2: int, r: int, c: int|
                    0 <= i2 < n && 0 <= j2 < n && 0 <= r < 3 && 0 <= c < 3 && !(j2 < j || (j2 == j
                        && i2 < i)) ==> #[trigger] output.block_entry(i2, j2, r, c)
                        == before.block_entry(i2, j2, r, c),
            decreases n - i,
        {
            proof {
                assert forall|r: int, c: int| 0 <= r < 3 && 0 <= c < 3 implies #[trigger] pair_entry_accepted(
                    u@[i as int],
                    u@[j as int],
                    v@[i as int],
                    v@[j as int],
                    r,
                    c,
                ) by {
                    assert(accumulation_accepted(
                        before.block_entry(i as int, j as int, r, c),
                        u@[i as int],
                        u@[j as int],
                        v@[i as int],
                        v@[j as int],
                        r,
                        c,
                    ));
                }
            }
            let block = pair_block(&u[i], &u[j], &v[i], &v[j]);
            let ghost earlier = *output;
            proof {
                assert forall|r: int, c: int| 0 <= r < 3 && 0 <= c < 3 implies sum_accepted(
                    #[trigger] earlier.block_entry(i as int, j as int, r, c),
                    block.at(r, c),
                ) by {
                    assert(earlier.block_entry(i as int, j as int, r, c) == before.block_entry(
                        i as int,
                        j as int,
                        r,
                        c,
                    ));
                    assert(accumulation_accepted(
                        before.block_entry(i as int, j as int, r, c),
                        u@[i as int],
                        u@[j as int],
                        v@[i as int],
                        v@[j as int],
                        r,
                        c,
                    ));
                    assert(pair_entry_of(
                        u@[i as int],
                        u@[j as int],
                        v@[i as int],
                        v@[j as int],
                        r,
                        c,
                        block.at(r, c),
                    ));
                }
            }
            output.add_block(i, j, &block);
            proof {
                assert forall|i2: int, j2: int, r: int, c: int|
                    0 <= i2 < n && 0 <= j2 < n && 0 <= r < 3 && 0 <= c < 3 implies (i2 == i && j2
                    == j) || #[trigger] output.block_entry(i2, j2, r, c) == earlier.block_entry(
                    i2,
                    j2,
                    r,
                    c,
                ) by {
                    assert(earlier.block_entry(i2, j2, r, c) == earlier.at(
                        3 * i2 + r,
                        3 * j2 + c,
                    ));
                }
                assert forall|r: int, c: int| 0 <= r < 3 && 0 <= c < 3 implies accumulated(
                    before.block_entry(i as int, j as int, r, c),
                    u@[i as int],
                    u@[j as int],
                    v@[i as int],
                    v@[j as int],
                    r,
                    c,
                    #[trigger] output.block_entry(i as int, j as int, r, c),
                ) by {
                    assert(earlier.block_entry(i as int, j as int, r, c) == before.block_entry(
                        i as int,
                        j as int,
                        r,
                        c,
                    ));
                    assert(pair_entry_of(
                        u@[i as int],
                        u@[j as int],
                        v@[i as int],
                        v@[j as int],
                        r,
                        c,
                        block.at(r, c),
                    ));
                }
            }
            i += 1;
        }
        j += 1;
    }
}

/// One contraction into an output whose shape is known to fit the nodes.
pub fn contract_unchecked<T: Copy + Add<Output = T> + Mul<Output = T>>(
    output: &mut DenseMatrix<T>,
    f: &Matrix3<T>,
    a: &[[T; 3]],
)
    requires
        shape_matches(a@.len(), old(output).rows(), old(output).cols()),
        contraction_accepted(*old(output), *f, a@),
    ensures
        contracted(*old(output), *f, a@, *final(output)),
        a@.len() == 0 ==> *final(output) == *old(output),
{
    let u = transform(f, a);
    let f_transposed = f.transpose();
    proof {
        assert forall|i: int| 0 <= i < a@.len() implies #[trigger] f_transposed.accepts(
            a@[i],
        ) by {
            assert(f.transpose_accepts(a@[i]));
        }
    }
    let v = transform(&f_transposed, a);
    proof {
        assert forall|i: int| 0 <= i < a@.len() implies #[trigger] f.transpose_maps(
            a@[i],
            v@[i],
        ) by {
            assert(f_transposed.maps(a@[i], v@[i]));
        }
        assert(blocks_accepted(*output, u@, v@));
    }
    accumulate_blocks(output, u.as_slice(), v.as_slice());
    proof {
        assert(blocks_accumulated(*old(output), u@, v@, *output));
    }
}

/// Adds to each 3x3 block (`i`, `j`) of the output the contribution of the
/// nodes `i` and `j` under the map `f`. An output that does not have three
/// rows and three columns for each node is refused and left as it was.
///
/// Where the shape fits, the entry type has to accept each sum and product
/// on the way. An entry type that accepts all operands does so for every
/// input (`total_arithmetic_accepts_contraction`); for one that is exact the
/// steps can be checked at their values
/// (`exact_arithmetic_accepts_contraction`).
pub fn contract<T: Copy + Add<Output = T> + Mul<Output = T>>(
    output: &mut DenseMatrix<T>,
    f: &Matrix3<T>,
    a: &[[T; 3]],
) -> (result: Result<(), ShapeMismatch>)
    requires
        shape_matches(a@.len(), old(output).rows(), old(output).cols()) ==> contraction_accepted(
            *old(output),
            *f,
            a@,
        ),
    ensures
        result is Ok <==> shape_matches(a@.len(), old(output).rows(), old(output).cols()),
        result is Ok ==> contracted(*old(output), *f, a@, *final(output)),
        result is Ok && a@.len() == 0 ==> *final(output) == *old(output),
        result is Err ==> *final(output) == *old(output),
        result matches Err(mismatch) ==> mismatch == (ShapeMismatch {
            nodes: a@.len() as usize,
            nrows: old(output).rows() as usize,
            ncols: old(output).cols() as usize,
        }),
{
    let nodes: usize = a.len();
    let nrows: usize = output.nrows();
    let ncols: usize = output.ncols();
    let fits = match nodes.checked_mul(3) {
        Some(dim) => nrows == dim && ncols == dim,
        None => false,
    };
    if !fits {
        return Err(ShapeMismatch { nodes, nrows, ncols });
    }
    contract_unchecked(output, f, a);
    Ok(())
}

} // verus!
