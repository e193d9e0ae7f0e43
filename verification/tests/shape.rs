use transformer_rs::domain::entity::shape::{
    check_tensor, checked_shape_size, fuse_qkv, gather_rows, matmul_dims, split_qkv,
    transpose_data, transpose_dims,
};
use transformer_rs::domain::entity::TransformerError;

fn tensor_message(r: Result<(), TransformerError>) -> String {
    match r {
        Err(TransformerError::InvalidTensor(m)) => m,
        Err(e) => panic!("unexpected error {}", e.message()),
        Ok(()) => panic!("accepted"),
    }
}

#[test]
fn checked_size_multiplies_the_dimensions() {
    assert_eq!(checked_shape_size(&[]), Some(1));
    assert_eq!(checked_shape_size(&[2, 3, 4]), Some(24));
    assert_eq!(checked_shape_size(&[usize::MAX, 2]), None);
    assert_eq!(checked_shape_size(&[usize::MAX, 2, 0]), None);
    assert_eq!(checked_shape_size(&[0, usize::MAX, 2]), Some(0));
}

#[test]
fn tensor_data_must_fill_its_shape_with_finite_values() {
    assert!(check_tensor(&[2, 3], 6, true).is_ok());
    assert_eq!(tensor_message(check_tensor(&[usize::MAX, 3], 6, true)), "shape overflow");
    assert_eq!(
        tensor_message(check_tensor(&[2, 3], 5, true)),
        "shape size 6 does not match data length 5"
    );
    assert_eq!(tensor_message(check_tensor(&[2, 3], 6, false)), "non-finite value");
    assert_eq!(
        tensor_message(check_tensor(&[4, 5], 7, false)),
        "shape size 20 does not match data length 7"
    );
}

#[test]
fn rows_are_gathered_in_id_order() {
    let table = vec![0, 1, 2, 10, 11, 12, 20, 21, 22];
    assert_eq!(
        gather_rows(&table, &[2, 0, 2], 3, 3).unwrap(),
        vec![20, 21, 22, 0, 1, 2, 20, 21, 22]
    );
    assert_eq!(gather_rows(&table, &[], 3, 3).unwrap(), Vec::<i32>::new());
    match gather_rows(&table, &[1, 3], 3, 3) {
        Err(TransformerError::InvalidData(m)) => assert_eq!(m, "token outside vocabulary"),
        _ => panic!("an id outside the table was accepted"),
    }
}

#[test]
fn fused_projection_splits_into_query_key_and_value() {
    let qkv = vec![1, 2, 3, 4, 5, 6, 7, 8, 9, 10, 11, 12];
    let (q, k, v) = split_qkv(&qkv, 2, 2);
    assert_eq!(q, vec![1, 2, 7, 8]);
    assert_eq!(k, vec![3, 4, 9, 10]);
    assert_eq!(v, vec![5, 6, 11, 12]);
}

#[test]
fn split_undoes_fuse() {
    let q = vec![1.0f32, 2.0, 3.0];
    let k = vec![4.0f32, 5.0, 6.0];
    let v = vec![7.0f32, 8.0, 9.0];
    let fused = fuse_qkv(&q, &k, &v, 3, 1);
    assert_eq!(fused, vec![1.0, 4.0, 7.0, 2.0, 5.0, 8.0, 3.0, 6.0, 9.0]);
    assert_eq!(split_qkv(&fused, 3, 1), (q, k, v));
}

#[test]
fn matmul_needs_matching_inner_dimensions() {
    assert_eq!(matmul_dims(&[2, 3], &[3, 4]).unwrap(), (2, 3, 4));
    for (lhs, rhs) in [(vec![2, 3], vec![4, 3]), (vec![2], vec![2, 3]), (vec![2, 3], vec![3, 4, 1])] {
        match matmul_dims(&lhs, &rhs) {
            Err(TransformerError::InvalidTensor(m)) => assert_eq!(m, "matmul dimension mismatch"),
            _ => panic!("mismatched dimensions were accepted"),
        }
    }
}

#[test]
fn transpose_swaps_rows_and_columns() {
    assert_eq!(transpose_dims(&[2, 3]).unwrap(), (2, 3));
    match transpose_dims(&[2, 3, 4]) {
        Err(TransformerError::InvalidTensor(m)) => assert_eq!(m, "transpose expects rank 2"),
        _ => panic!("rank 3 was accepted"),
    }
    let data = vec![1, 2, 3, 4, 5, 6];
    let t = transpose_data(&data, 2, 3);
    assert_eq!(t, vec![1, 4, 2, 5, 3, 6]);
    assert_eq!(transpose_data(&t, 3, 2), data);
}
