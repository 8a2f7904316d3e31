//! The two matrix types of the kernel: a 3x3 matrix held by value and a
//! dense matrix of any shape held in one buffer, column after column.

use crate::scalar::dot3;
use crate::scalar::dot3_accepted;
use crate::scalar::dot3_of;
use crate::scalar::sum_accepted;
use crate::scalar::sum_of;
use core::ops::Add;
use core::ops::Mul;
use vstd::prelude::*;

verus! {

/// The place of entry (`row`, `col`) in a column-major buffer whose columns
/// hold `nrows` entries each.
pub open spec fn offset_of(nrows: int, row: int, col: int) -> int {
    col * nrows + row
}

/// Every entry of a `nrows` x `ncols` matrix has a place inside the buffer.
pub proof fn lemma_offset_in_bounds(nrows: int, ncols: int, row: int, col: int)
    by (nonlinear_arith)
    requires
        0 <= row < nrows,
        0 <= col < ncols,
    ensures
        0 <= offset_of(nrows, row, col) < nrows * ncols,
{
}

/// Two entries share a place only if they are the same entry.
pub proof fn lemma_offset_injective(nrows: int, row1: int, col1: int, row2: int, col2: int)
    by (nonlinear_arith)
    requires
        0 <= row1 < nrows,
        0 <= row2 < nrows,
        offset_of(nrows, row1, col1) == offset_of(nrows, row2, col2),
    ensures
        row1 == row2,
        col1 == col2,
{
}

/// A 3x3 matrix, given row by row.
#[derive(Debug, PartialEq)]
pub struct Matrix3<T> {
    pub rows: [[T; 3]; 3],
}

impl<T: Copy> Matrix3<T> {
    /// The entry in row `r` and column `c`.
    pub open spec fn at(self, r: int, c: int) -> T {
        self.rows[r][c]
    }

    /// The matrix with rows and columns exchanged.
    pub fn transpose(&self) -> (t: Self)
        ensures
            forall|r: int, c: int| 0 <= r < 3 && 0 <= c < 3 ==> t.at(r, c) == self.at(c, r),
    {
        let m = &self.rows;
        Matrix3 {
            rows: [
                [m[0][0], m[1][0], m[2][0]],
                [m[0][1], m[1][1], m[2][1]],
                [m[0][2], m[1][2], m[2][2]],
            ],
        }
    }
}

impl<T: Copy + Add<Output = T> + Mul<Output = T>> Matrix3<T> {
    /// `y` is a value that the product of this matrix with the column `x`
    /// may give: entry `r` of `y` is the inner product of row `r` with `x`.
    pub open spec fn maps(self, x: [T; 3], y: [T; 3]) -> bool {
        &&& dot3_of(self.at(0, 0), self.at(0, 1), self.at(0, 2), x[0], x[1], x[2], y[0])
        &&& dot3_of(self.at(1, 0), self.at(1, 1), self.at(1, 2), x[0], x[1], x[2], y[1])
        &&& dot3_of(self.at(2, 0), self.at(2, 1), self.at(2, 2), x[0], x[1], x[2], y[2])
    }

    /// `y` is a value that the product of the transpose of this matrix with
    /// the column `x` may give: entry `r` of `y` is the inner product of
    /// column `r` with `x`.
    pub open spec fn transpose_maps(self, x: [T; 3], y: [T; 3]) -> bool {
        &&& dot3_of(self.at(0, 0), self.at(1, 0), self.at(2, 0), x[0], x[1], x[2], y[0])
        &&& dot3_of(self.at(0, 1), self.at(1, 1), self.at(2, 1), x[0], x[1], x[2], y[1])
        &&& dot3_of(self.at(0, 2), self.at(1, 2), self.at(2, 2), x[0], x[1], x[2], y[2])
    }

    /// The entry type accepts each step of the product of this matrix with
    /// the column `x`.
    pub open spec fn accepts(self, x: [T; 3]) -> bool {
        &&& dot3_accepted(self.at(0, 0), self.at(0, 1), self.at(0, 2), x[0], x[1], x[2])
        &&& dot3_accepted(self.at(1, 0), self.at(1, 1), self.at(1, 2), x[0], x[1], x[2])
        &&& dot3_accepted(self.at(2, 0), self.at(2, 1), self.at(2, 2), x[0], x[1], x[2])
    }

    /// The entry type accepts each step of the product of the transpose of
    /// this matrix with the column `x`.
    pub open spec fn transpose_accepts(self, x: [T; 3]) -> bool {
        &&& dot3_accepted(self.at(0, 0), self.at(1, 0), self.at(2, 0), x[0], x[1], x[2])
        &&& dot3_accepted(self.at(0, 1), self.at(1, 1), self.at(2, 1), x[0], x[1], x[2])
        &&& dot3_accepted(self.at(0, 2), self.at(1, 2), self.at(2, 2), x[0], x[1], x[2])
    }

    /// The product of this matrix with the column `x`.
    pub fn apply(&self, x: &[T; 3]) -> (y: [T; 3])
        requires
            self.accepts(*x),
        ensures
            self.maps(*x, y),
    {
        let m = &self.rows;
        [
            dot3(m[0][0], m[0][1], m[0][2], x[0], x[1], x[2]),
            dot3(m[1][0], m[1][1], m[1][2], x[0], x[1], x[2]),
            dot3(m[2][0], m[2][1], m[2][2], x[0], x[1], x[2]),
        ]
    }
}

/// A dense matrix with `nrows` rows and `ncols` columns. The buffer holds
/// column 0 first, then column 1, and so on.
#[derive(Debug)]
pub struct DenseMatrix<T> {
    nrows: usize,
    ncols: usize,
    data: Vec<T>,
}

/// What a dense matrix is: its shape and its entries, column after column.
pub struct Grid<T> {
    pub nrows: nat,
    pub ncols: nat,
    pub entries: Seq<T>,
}

impl<T> View for DenseMatrix<T> {
    type V = Grid<T>;

    closed spec fn view(&self) -> Grid<T> {
        Grid { nrows: self.nrows as nat, ncols: self.ncols as nat, entries: self.data@ }
    }
}

impl<T> DenseMatrix<T> {
    #[verifier::type_invariant]
    spec fn well_formed(self) -> bool {
        self.data.len() == self.nrows * self.ncols
    }
}

impl<T: Copy> DenseMatrix<T> {
    /// The number of rows.
    pub open spec fn rows(self) -> nat {
        self@.nrows
    }

    /// The number of columns.
    pub open spec fn cols(self) -> nat {
        self@.ncols
    }

    /// The entry in row `row` and column `col`.
    pub open spec fn at(self, row: int, col: int) -> T {
        self@.entries[offset_of(self@.nrows as int, row, col)]
    }

    /// Entry (`r`, `c`) of the 3x3 block in block row `i` and block column
    /// `j`: the block takes rows `3i` to `3i + 2` and columns `3j` to
    /// `3j + 2`.
    pub open spec fn block_entry(self, i: int, j: int, r: int, c: int) -> T {
        self.at(3 * i + r, 3 * j + c)
    }

    /// A matrix of the given shape over a column-major buffer, if the buffer
    /// has one entry for each place.
    pub fn from_column_major(nrows: usize, ncols: usize, data: Vec<T>) -> (m: Option<Self>)
        ensures
            m is Some <==> data.len() == nrows * ncols,
            m matches Some(m) ==> m@ == (Grid {
                nrows: nrows as nat,
                ncols: ncols as nat,
                entries: data@,
            }),
    {
        match nrows.checked_mul(ncols) {
            Some(len) => {
                if data.len() == len {
                    Some(DenseMatrix { nrows, ncols, data })
                } else {
                    None
                }
            },
            None => None,
        }
    }

    /// The number of rows.
    pub fn nrows(&self) -> (n: usize)
        ensures
            n == self.rows(),
    {
        self.nrows
    }

    /// The number of columns.
    pub fn ncols(&self) -> (n: usize)
        ensures
            n == self.cols(),
    {
        self.ncols
    }

    /// The entry in row `row` and column `col`, if the matrix has one there.
    pub fn get(&self, row: usize, col: usize) -> (entry: Option<T>)
        ensures
            entry == if row < self.rows() && col < self.cols() {
                Some(self.at(row as int, col as int))
            } else {
                None
            },
    {
        if row < self.nrows && col < self.ncols {
            proof {
                use_type_invariant(self);
                lemma_offset_in_bounds(
                    self.nrows as int,
                    self.ncols as int,
                    row as int,
                    col as int,
                );
            }
            Some(self.data[col * self.nrows + row])
        } else {
            None
        }
    }

    /// The buffer of the matrix, column after column.
    pub fn into_column_major(self) -> (data: Vec<T>)
        ensures
            data@ == self@.entries,
            data.len() == self.rows() * self.cols(),
    {
        proof {
            use_type_invariant(&self);
        }
        self.data
    }
}

impl<T: Copy + Add<Output = T> + Mul<Output = T>> DenseMatrix<T> {
    /// Adds `term` to the entry in row `row` and column `col`.
    pub fn add_entry(&mut self, row: usize, col: usize, term: T)
        requires
            row < old(self).rows(),
            col < old(self).cols(),
            sum_accepted(old(self).at(row as int, col as int), term),
        ensures
            final(self).rows() == old(self).rows(),
            final(self).cols() == old(self).cols(),
            sum_of(
                old(self).at(row as int, col as int),
                term,
                final(self).at(row as int, col as int),
            ),
            forall|row2: int, col2: int|
                0 <= row2 < old(self).rows() && 0 <= col2 < old(self).cols() && (row2 != row
                    || col2 != col) ==> #[trigger] final(self).at(row2, col2) == old(self).at(
                    row2,
                    col2,
                ),
    {
        proof {
            use_type_invariant(&*self);
            lemma_offset_in_bounds(self.nrows as int, self.ncols as int, row as int, col as int);
        }
        let place: usize = col * self.nrows + row;
        let sum = self.data[place] + term;
        self.data[place] = sum;
        proof {
            assert forall|row2: int, col2: int|
                0 <= row2 < old(self).rows() && 0 <= col2 < old(self).cols() && (row2 != row
                    || col2 != col) implies #[trigger] self.at(row2, col2) == old(self).at(
                row2,
                col2,
            ) by {
                lemma_offset_in_bounds(self.nrows as int, self.ncols as int, row2, col2);
                if offset_of(self.nrows as int, row2, col2) == place {
                    lemma_offset_injective(self.nrows as int, row2, col2, row as int, col as int);
                }
            }
        }
    }
}

impl<T: Copy + Add<Output = T> + Mul<Output = T>> DenseMatrix<T> {
    /// Adds `block` to the 3x3 block in block row `i` and block column `j`,
    /// entry by entry, and leaves every entry outside that block as it is.
    pub fn add_block(&mut self, i: usize, j: usize, block: &Matrix3<T>)
        requires
            3 * i + 3 <= old(self).rows(),
            3 * j + 3 <= old(self).cols(),
            forall|r: int, c: int|
                0 <= r < 3 && 0 <= c < 3 ==> sum_accepted(
                    #[trigger] old(self).block_entry(i as int, j as int, r, c),
                    block.at(r, c),
                ),
        ensures
            final(self).rows() == old(self).rows(),
            final(self).cols() == old(self).cols(),
            forall|r: int, c: int|
                0 <= r < 3 && 0 <= c < 3 ==> sum_of(
                    old(self).block_entry(i as int, j as int, r, c),
                    block.at(r, c),
                    #[trigger] final(self).block_entry(i as int, j as int, r, c),
                ),
            forall|row: int, col: int|
                0 <= row < old(self).rows() && 0 <= col < old(self).cols() && !(3 * i <= row < 3
                    * i + 3 && 3 * j <= col < 3 * j + 3) ==> #[trigger] final(self).at(row, col)
                    == old(self).at(row, col),
    {
        let ghost before = *self;
        let mut c: usize = 0;
        while c < 3
            invariant
                c <= 3,
                forall|r2: int, c2: int|
                    0 <= r2 < 3 && 0 <= c2 < 3 ==> sum_accepted(
                        #[trigger] before.block_entry(i as int, j as int, r2, c2),
                        block.at(r2, c2),
                    ),
                3 * i + 3 <= before.rows(),
                3 * j + 3 <= before.cols(),
                self.rows() == before.rows(),
                self.cols() == before.cols(),
                forall|r2: int, c2: int|
                    0 <= r2 < 3 && 0 <= c2 < c ==> sum_of(
                        before.block_entry(i as int, j as int, r2, c2),
                        block.at(r2, c2),
                        #[trigger] self.block_entry(i as int, j as int, r2, c2),
                    ),
                forall|r2: int, c2: int|
                    0 <= r2 < 3 && c <= c2 < 3 ==> #[trigger] self.block_entry(
                        i as int,
                        j as int,
                        r2,
                        c2,
                    ) == before.block_entry(i as int, j as int, r2, c2),
                forall|row: int, col: int|
                    0 <= row < before.rows() && 0 <= col < before.cols() && !(3 * i <= row < 3 * i
                        + 3 && 3 * j <= col < 3 * j + 3) ==> #[trigger] self.at(row, col)
                        == before.at(row, col),
            decreases 3 - c,
        {
            let mut r: usize = 0;
            while r < 3
                invariant
                    r <= 3,
                    c < 3,
                    forall|r2: int, c2: int|
                        0 <= r2 < 3 && 0 <= c2 < 3 ==> sum_accepted(
                            #[trigger] before.block_entry(i as int, j as int, r2, c2),
                            block.at(r2, c2),
                        ),
                    3 * i + 3 <= before.rows(),
                    3 * j + 3 <= before.cols(),
                    self.rows() == before.rows(),
                    self.cols() == before.cols(),
                    forall|r2: int, c2: int|
                        0 <= r2 < 3 && 0 <= c2 < 3 && (c2 < c || (c2 == c && r2 < r)) ==> sum_of(
                            before.block_entry(i as int, j as int, r2, c2),
                            block.at(r2, c2),
                            #[trigger] self.block_entry(i as int, j as int, r2, c2),
                        ),
                    forall|r2: int, c2: int|
                        0 <= r2 < 3 && 0 <= c2 < 3 && !(c2 < c || (c2 == c && r2 < r))
                            ==> #[trigger] self.block_entry(i as int, j as int, r2, c2)
                            == before.block_entry(i as int, j as int, r2, c2),
                    forall|row: int, col: int|
                        0 <= row < before.rows() && 0 <= col < before.cols() && !(3 * i <= row < 3
                            * i + 3 && 3 * j <= col < 3 * j + 3) ==> #[trigger] self.at(row, col)
                            == before.at(row, col),
                decreases 3 - r,
            {
                let ghost earlier = *self;
                proof {
                    assert(earlier.block_entry(i as int, j as int, r as int, c as int)
                        == before.block_entry(i as int, j as int, r as int, c as int));
                }
                self.add_entry(3 * i + r, 3 * j + c, block.rows[r][c]);
                proof {
                    assert(sum_of(
                        before.block_entry(i as int, j as int, r as int, c as int),
                        block.at(r as int, c as int),
                        self.block_entry(i as int, j as int, r as int, c as int),
                    ));
                    assert forall|r2: int, c2: int| 0 <= r2 < 3 && 0 <= c2 < 3 implies (r2 == r
                        && c2 == c) || #[trigger] self.block_entry(i as int, j as int, r2, c2)
                        == earlier.block_entry(i as int, j as int, r2, c2) by {
                        assert(earlier.block_entry(i as int, j as int, r2, c2) == earlier.at(
                            3 * i + r2,
                            3 * j + c2,
                        ));
                    }
                }
                r += 1;
            }
            c += 1;
        }
    }
}

} // verus!
