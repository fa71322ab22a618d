use plm_local::coords::coordinate_pairs;
use plm_local::pipeline::flatten_table;
use plm_local::table::{column_names, ContactTable};

#[test]
fn coordinate_columns_for_side_three() {
    let (index_1, index_2) = coordinate_pairs(3);
    assert_eq!(index_1, vec![1, 2, 3, 1, 2, 3, 1, 2, 3]);
    assert_eq!(index_2, vec![1, 1, 1, 2, 2, 2, 3, 3, 3]);
}

#[test]
fn coordinate_columns_for_side_zero() {
    let (index_1, index_2) = coordinate_pairs(0);
    assert_eq!(index_1.len(), 0);
    assert_eq!(index_2.len(), 0);
}

#[test]
fn coordinate_pairs_cover_every_pair_once() {
    let l = 4;
    let (index_1, index_2) = coordinate_pairs(l);
    assert_eq!(index_1.len(), l * l);
    assert_eq!(index_2.len(), l * l);
    let mut seen = vec![false; l * l];
    for k in 0..l * l {
        let i = index_1[k];
        let j = index_2[k];
        assert!(1 <= i && i as usize <= l);
        assert!(1 <= j && j as usize <= l);
        let slot = (j as usize - 1) * l + (i as usize - 1);
        assert!(!seen[slot], "pair ({i}, {j}) appears twice");
        seen[slot] = true;
    }
    assert!(seen.iter().all(|&s| s));
}

#[test]
fn flatten_table_pairs_values_with_coordinates() {
    let values: Vec<u32> = [0.9f32, 0.6, 0.7, 0.8].iter().map(|v| v.to_bits()).collect();
    let table = flatten_table(2, values).unwrap();
    assert_eq!(table.n_rows(), 4);
    let expected = [(1, 1, 0.9f32), (2, 1, 0.6), (1, 2, 0.7), (2, 2, 0.8)];
    for (k, &(i, j, v)) in expected.iter().enumerate() {
        let record = table.record(k);
        assert_eq!(record.index_1, i);
        assert_eq!(record.index_2, j);
        assert_eq!(f32::from_bits(record.value_bits), v);
    }
}

#[test]
fn flatten_table_rejects_wrong_value_count() {
    let values: Vec<u32> = vec![0, 1, 2];
    let err = flatten_table(2, values).unwrap_err();
    assert!(err.is_length_mismatch());
    assert!(!err.is_shape());
    assert!(!err.is_tensor_failure());
}

#[test]
fn flatten_table_of_side_zero_is_empty() {
    let table = flatten_table(0, Vec::new()).unwrap();
    assert_eq!(table.n_rows(), 0);
}

#[test]
fn assemble_rejects_mismatched_columns() {
    let err = ContactTable::assemble(vec![1, 2], vec![1, 1], vec![7]).unwrap_err();
    assert!(err.is_length_mismatch());
}

#[test]
fn assemble_keeps_columns_in_order() {
    let table = ContactTable::assemble(vec![1, 2], vec![1, 1], vec![7, 8]).unwrap();
    assert_eq!(table.index_1_column(), &vec![1, 2]);
    assert_eq!(table.index_2_column(), &vec![1, 1]);
    assert_eq!(table.value_bits_column(), &vec![7, 8]);
}

#[test]
fn empty_table_has_no_rows_and_three_named_columns() {
    let table = ContactTable::empty();
    assert_eq!(table.n_rows(), 0);
    assert_eq!(table.index_1_column().len(), 0);
    assert_eq!(table.index_2_column().len(), 0);
    assert_eq!(table.value_bits_column().len(), 0);
    assert_eq!(column_names(), vec!["index_1", "index_2", "value"]);
}
