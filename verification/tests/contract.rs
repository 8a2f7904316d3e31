use contraction::kernel::accumulate_blocks;
use contraction::kernel::contract;
use contraction::kernel::contract_unchecked;
use contraction::kernel::pair_block;
use contraction::kernel::pair_entry;
use contraction::kernel::transform;
use contraction::kernel::ShapeMismatch;
use contraction::matrix::DenseMatrix;
use contraction::matrix::Matrix3;
use std::num::Wrapping;

fn identity() -> Matrix3<f64> {
    Matrix3 { rows: [[1.0, 0.0, 0.0], [0.0, 1.0, 0.0], [0.0, 0.0, 1.0]] }
}

fn zeros(dim: usize) -> DenseMatrix<f64> {
    DenseMatrix::from_column_major(dim, dim, vec![0.0; dim * dim]).unwrap()
}

fn sample_map() -> Matrix3<f64> {
    Matrix3 { rows: [[1.0, 2.0, 3.0], [4.0, 5.0, 6.0], [7.0, 8.0, 10.0]] }
}

fn sample_nodes() -> Vec<[f64; 3]> {
    vec![[1.0, 0.0, 2.0], [0.0, 3.0, 1.0], [2.0, 1.0, 0.0]]
}

fn times(f: &Matrix3<f64>, x: &[f64; 3]) -> [f64; 3] {
    let m = &f.rows;
    [
        m[0][0] * x[0] + m[0][1] * x[1] + m[0][2] * x[2],
        m[1][0] * x[0] + m[1][1] * x[1] + m[1][2] * x[2],
        m[2][0] * x[0] + m[2][1] * x[1] + m[2][2] * x[2],
    ]
}

fn transpose_times(f: &Matrix3<f64>, x: &[f64; 3]) -> [f64; 3] {
    let m = &f.rows;
    [
        m[0][0] * x[0] + m[1][0] * x[1] + m[2][0] * x[2],
        m[0][1] * x[0] + m[1][1] * x[1] + m[2][1] * x[2],
        m[0][2] * x[0] + m[1][2] * x[1] + m[2][2] * x[2],
    ]
}

#[test]
fn reference_scenario_identity_single_node() {
    let mut output = zeros(3);
    let result = contract(&mut output, &identity(), &[[1.0, 0.0, 0.0]]);
    assert_eq!(result, Ok(()));
    assert_eq!(
        output.into_column_major(),
        vec![3.0, 0.0, 0.0, 0.0, 0.0, 0.0, 0.0, 0.0, 0.0]
    );
}

#[test]
fn shape_mismatch_too_small_leaves_output() {
    let data = vec![1.0, 2.0, 3.0, 4.0];
    let mut output = DenseMatrix::from_column_major(2, 2, data.clone()).unwrap();
    let result = contract(&mut output, &identity(), &[[1.0, 0.0, 0.0]]);
    assert_eq!(result, Err(ShapeMismatch { nodes: 1, nrows: 2, ncols: 2 }));
    assert_eq!(output.into_column_major(), data);
}

#[test]
fn shape_mismatch_wrong_rows_only() {
    let data = vec![5.0; 18];
    let mut output = DenseMatrix::from_column_major(6, 3, data.clone()).unwrap();
    let result = contract(&mut output, &identity(), &[[1.0, 0.0, 0.0]]);
    assert_eq!(result, Err(ShapeMismatch { nodes: 1, nrows: 6, ncols: 3 }));
    assert_eq!(output.into_column_major(), data);
}

#[test]
fn shape_mismatch_wrong_columns_only() {
    let data = vec![5.0; 18];
    let mut output = DenseMatrix::from_column_major(3, 6, data.clone()).unwrap();
    let result = contract(&mut output, &identity(), &[[1.0, 0.0, 0.0]]);
    assert_eq!(result, Err(ShapeMismatch { nodes: 1, nrows: 3, ncols: 6 }));
    assert_eq!(output.into_column_major(), data);
}

#[test]
fn shape_mismatch_too_large_leaves_output() {
    let data = vec![7.0; 81];
    let mut output = DenseMatrix::from_column_major(9, 9, data.clone()).unwrap();
    let nodes = [[1.0, 2.0, 3.0], [4.0, 5.0, 6.0]];
    let result = contract(&mut output, &sample_map(), &nodes);
    assert_eq!(result, Err(ShapeMismatch { nodes: 2, nrows: 9, ncols: 9 }));
    assert_eq!(output.into_column_major(), data);
}

#[test]
fn shape_mismatch_nodes_without_output() {
    let mut output = zeros(0);
    let result = contract(&mut output, &identity(), &[[1.0, 0.0, 0.0]]);
    assert_eq!(result, Err(ShapeMismatch { nodes: 1, nrows: 0, ncols: 0 }));
}

#[test]
fn shape_mismatch_output_without_nodes() {
    let mut output = zeros(3);
    let none: [[f64; 3]; 0] = [];
    let result = contract(&mut output, &identity(), &none);
    assert_eq!(result, Err(ShapeMismatch { nodes: 0, nrows: 3, ncols: 3 }));
}

#[test]
fn zero_nodes_succeed_and_change_nothing() {
    let mut output = zeros(0);
    let none: [[f64; 3]; 0] = [];
    let result = contract(&mut output, &sample_map(), &none);
    assert_eq!(result, Ok(()));
    assert_eq!(output.nrows(), 0);
    assert_eq!(output.ncols(), 0);
    assert_eq!(output.into_column_major(), Vec::<f64>::new());
}

#[test]
fn every_block_matches_the_formula() {
    let f = sample_map();
    let a = sample_nodes();
    let n = a.len();
    let mut output = zeros(3 * n);
    assert_eq!(contract(&mut output, &f, &a), Ok(()));
    for j in 0..n {
        for i in 0..n {
            let (u_i, u_j) = (times(&f, &a[i]), times(&f, &a[j]));
            let (v_i, v_j) = (transpose_times(&f, &a[i]), transpose_times(&f, &a[j]));
            for c in 0..3 {
                for r in 0..3 {
                    let expected = u_i[r] * u_j[c] + v_i[r] * v_j[c] + v_j[r] * v_i[c];
                    assert_eq!(output.get(3 * i + r, 3 * j + c), Some(expected));
                }
            }
        }
    }
}

#[test]
fn exact_value_of_one_off_diagonal_entry() {
    // u_0 = F a_0 = [7, 16, 27], u_1 = F a_1 = [9, 21, 34],
    // v_0 = Fᵗ a_0 = [15, 18, 23], v_1 = Fᵗ a_1 = [19, 23, 28].
    // Entry (1, 2) of block (0, 1): 16 * 34 + 18 * 28 + 23 * 23 = 1577.
    let f = sample_map();
    let a = sample_nodes();
    let mut output = zeros(9);
    assert_eq!(contract(&mut output, &f, &a), Ok(()));
    assert_eq!(output.get(1, 5), Some(1577.0));
}

#[test]
fn blocks_are_mirrored_transposes() {
    let f = sample_map();
    let a = sample_nodes();
    let n = a.len();
    let mut output = zeros(3 * n);
    assert_eq!(contract(&mut output, &f, &a), Ok(()));
    for i in 0..n {
        for j in 0..n {
            for r in 0..3 {
                for c in 0..3 {
                    assert_eq!(
                        output.get(3 * i + r, 3 * j + c),
                        output.get(3 * j + c, 3 * i + r)
                    );
                }
            }
        }
    }
}

#[test]
fn two_calls_double_a_zeroed_output() {
    let f = sample_map();
    let a = sample_nodes();
    let mut once = zeros(9);
    assert_eq!(contract(&mut once, &f, &a), Ok(()));
    let mut twice = zeros(9);
    assert_eq!(contract(&mut twice, &f, &a), Ok(()));
    assert_eq!(contract(&mut twice, &f, &a), Ok(()));
    let once = once.into_column_major();
    let twice = twice.into_column_major();
    assert_eq!(once.len(), 81);
    for k in 0..81 {
        assert_eq!(twice[k], 2.0 * once[k]);
    }
}

#[test]
fn contract_adds_to_what_the_output_holds() {
    let start: Vec<f64> = (0..9).map(|k| 10.0 * k as f64).collect();
    let mut output = DenseMatrix::from_column_major(3, 3, start.clone()).unwrap();
    assert_eq!(contract(&mut output, &identity(), &[[1.0, 2.0, 0.0]]), Ok(()));
    // u = v = [1, 2, 0]: the block is 3 * u uᵗ.
    let block = [3.0, 6.0, 0.0, 6.0, 12.0, 0.0, 0.0, 0.0, 0.0];
    let data = output.into_column_major();
    for k in 0..9 {
        assert_eq!(data[k], start[k] + block[k]);
    }
}

#[test]
fn diagonal_block_counts_u_once_and_v_twice() {
    let f = sample_map();
    let a = sample_nodes();
    let mut output = zeros(9);
    assert_eq!(contract(&mut output, &f, &a), Ok(()));
    for i in 0..3 {
        let u = times(&f, &a[i]);
        let v = transpose_times(&f, &a[i]);
        for r in 0..3 {
            for c in 0..3 {
                let expected = u[r] * u[c] + 2.0 * (v[r] * v[c]);
                assert_eq!(output.get(3 * i + r, 3 * i + c), Some(expected));
            }
        }
    }
}

#[test]
fn diagonal_block_doubled_form_where_u_vanishes() {
    // F sends the node to zero; its transpose sends it to [0, 1, 0].
    let f = Matrix3 { rows: [[0.0, 1.0, 0.0], [0.0, 0.0, 0.0], [0.0, 0.0, 0.0]] };
    let a = [[1.0, 0.0, 0.0]];
    let u = times(&f, &a[0]);
    let v = transpose_times(&f, &a[0]);
    assert_eq!(u, [0.0, 0.0, 0.0]);
    assert_eq!(v, [0.0, 1.0, 0.0]);
    let mut output = zeros(3);
    assert_eq!(contract(&mut output, &f, &a), Ok(()));
    for r in 0..3 {
        for c in 0..3 {
            let doubled = 2.0 * (u[r] * u[c]) + 2.0 * (v[r] * v[c]);
            assert_eq!(output.get(r, c), Some(doubled));
        }
    }
    assert_eq!(output.get(1, 1), Some(2.0));
}

#[test]
fn diagonal_block_doubled_form_fails_where_u_does_not_vanish() {
    let mut output = zeros(3);
    assert_eq!(contract(&mut output, &identity(), &[[1.0, 0.0, 0.0]]), Ok(()));
    // u = v = e_0: the entry is 1 + 2, not 2 + 2.
    assert_eq!(output.get(0, 0), Some(3.0));
    assert_ne!(output.get(0, 0), Some(4.0));
}

#[test]
fn unchecked_contraction_agrees_with_checked() {
    let f = sample_map();
    let a = sample_nodes();
    let mut checked = zeros(9);
    assert_eq!(contract(&mut checked, &f, &a), Ok(()));
    let mut unchecked = zeros(9);
    contract_unchecked(&mut unchecked, &f, &a);
    assert_eq!(checked.into_column_major(), unchecked.into_column_major());
}

#[test]
fn transform_multiplies_each_column() {
    let u = transform(&sample_map(), &sample_nodes());
    assert_eq!(u, vec![[7.0, 16.0, 27.0], [9.0, 21.0, 34.0], [4.0, 13.0, 22.0]]);
    let v = transform(&sample_map().transpose(), &sample_nodes());
    assert_eq!(v, vec![[15.0, 18.0, 23.0], [19.0, 23.0, 28.0], [6.0, 9.0, 12.0]]);
}

#[test]
fn transform_of_no_columns_is_empty() {
    let none: [[f64; 3]; 0] = [];
    assert_eq!(transform(&sample_map(), &none), Vec::<[f64; 3]>::new());
}

#[test]
fn pair_entry_uses_each_operand_in_its_place() {
    let u_i = [1.0, 2.0, 3.0];
    let u_j = [5.0, 7.0, 11.0];
    let v_i = [13.0, 17.0, 19.0];
    let v_j = [23.0, 29.0, 31.0];
    // u_i[1] * u_j[2] + v_i[1] * v_j[2] + v_j[1] * v_i[2]
    assert_eq!(pair_entry(&u_i, &u_j, &v_i, &v_j, 1, 2), 2.0 * 11.0 + 17.0 * 31.0 + 29.0 * 19.0);
    // u_i[2] * u_j[0] + v_i[2] * v_j[0] + v_j[2] * v_i[0]
    assert_eq!(pair_entry(&u_i, &u_j, &v_i, &v_j, 2, 0), 3.0 * 5.0 + 19.0 * 23.0 + 31.0 * 13.0);
}

#[test]
fn pair_block_holds_the_nine_entries() {
    let u_i = [1.0, 2.0, 3.0];
    let u_j = [5.0, 7.0, 11.0];
    let v_i = [13.0, 17.0, 19.0];
    let v_j = [23.0, 29.0, 31.0];
    let block = pair_block(&u_i, &u_j, &v_i, &v_j);
    for r in 0..3 {
        for c in 0..3 {
            assert_eq!(block.rows[r][c], u_i[r] * u_j[c] + v_i[r] * v_j[c] + v_j[r] * v_i[c]);
        }
    }
}

#[test]
fn accumulate_blocks_visits_every_pair() {
    let u = [[1.0, 0.0, 0.0], [0.0, 1.0, 0.0]];
    let v = [[0.0, 0.0, 1.0], [1.0, 1.0, 0.0]];
    let mut output = zeros(6);
    accumulate_blocks(&mut output, &u, &v);
    for i in 0..2 {
        for j in 0..2 {
            for r in 0..3 {
                for c in 0..3 {
                    let expected = u[i][r] * u[j][c] + v[i][r] * v[j][c] + v[j][r] * v[i][c];
                    assert_eq!(output.get(3 * i + r, 3 * j + c), Some(expected));
                }
            }
        }
    }
}

#[test]
fn wrapping_integers_follow_the_same_formula() {
    let w = |x: i64| Wrapping(x);
    let f = Matrix3 {
        rows: [[w(1), w(-2), w(3)], [w(4), w(5), w(-6)], [w(i64::MAX), w(8), w(9)]],
    };
    let a = [[w(3), w(1), w(2)], [w(-1), w(i64::MIN), w(7)]];
    let mut output =
        DenseMatrix::from_column_major(6, 6, vec![w(1); 36]).unwrap();
    assert_eq!(contract(&mut output, &f, &a), Ok(()));
    let u = transform(&f, &a);
    let v = transform(&f.transpose(), &a);
    for i in 0..2 {
        for j in 0..2 {
            for r in 0..3 {
                for c in 0..3 {
                    let term = u[i][r] * u[j][c] + v[i][r] * v[j][c] + v[j][r] * v[i][c];
                    assert_eq!(output.get(3 * i + r, 3 * j + c), Some(w(1) + term));
                    assert_eq!(
                        output.get(3 * i + r, 3 * j + c),
                        output.get(3 * j + c, 3 * i + r)
                    );
                }
            }
        }
    }
}

#[test]
fn not_a_number_spreads_through_its_row_and_column_of_blocks() {
    let a = [[f64::NAN, 0.0, 0.0], [1.0, 0.0, 0.0]];
    let mut output = zeros(6);
    assert_eq!(contract(&mut output, &identity(), &a), Ok(()));
    assert!(output.get(0, 0).unwrap().is_nan());
    assert!(output.get(0, 3).unwrap().is_nan());
    assert_eq!(output.get(3, 3), Some(3.0));
}

#[test]
fn whole_numbers_within_range_follow_the_same_formula() {
    let f: Matrix3<i64> = Matrix3 { rows: [[1, -2, 3], [4, 5, -6], [7, 8, 9]] };
    let a: [[i64; 3]; 2] = [[3, 1, 2], [-1, 0, 7]];
    let mut output = DenseMatrix::from_column_major(6, 6, vec![10i64; 36]).unwrap();
    assert_eq!(contract(&mut output, &f, &a), Ok(()));
    // u_0 = [7, 5, 47], u_1 = [20, -46, 56], v_0 = [21, 15, 21], v_1 = [48, 58, 60].
    assert_eq!(transform(&f, &a), vec![[7, 5, 47], [20, -46, 56]]);
    assert_eq!(transform(&f.transpose(), &a), vec![[21, 15, 21], [48, 58, 60]]);
    // Entry (0, 1) of block (0, 1): 7 * -46 + 21 * 58 + 48 * 15 = 1616.
    assert_eq!(output.get(0, 4), Some(10 + 1616));
    // Entry (2, 2) of block (1, 1): 56 * 56 + 2 * 60 * 60 = 10336.
    assert_eq!(output.get(5, 5), Some(10 + 10336));
}

#[test]
fn reference_scenario_in_whole_numbers() {
    let f: Matrix3<i32> = Matrix3 { rows: [[1, 0, 0], [0, 1, 0], [0, 0, 1]] };
    let mut output = DenseMatrix::from_column_major(3, 3, vec![0i32; 9]).unwrap();
    assert_eq!(contract(&mut output, &f, &[[1, 0, 0]]), Ok(()));
    assert_eq!(output.into_column_major(), vec![3, 0, 0, 0, 0, 0, 0, 0, 0]);
}
