use candle_core::{Device, Tensor};
use plm_local::device::{device_kind, DeviceKind};
use plm_local::pipeline::generate_contacts;

/// A (2, 2, 2) score tensor whose per-cell softmax maxima are 0.9, 0.6, 0.7
/// and 0.8 in row-major order: each cell holds the logits (ln(p / (1 - p)), 0).
fn two_by_two_scores() -> Tensor {
    let cell = |p: f32| [(p / (1.0 - p)).ln(), 0.0f32];
    let rows = [[cell(0.9), cell(0.6)], [cell(0.7), cell(0.8)]];
    Tensor::new(&rows, &Device::Cpu).unwrap()
}

#[test]
fn absent_contact_data_yields_empty_table() {
    let table = generate_contacts(None).unwrap();
    assert_eq!(table.n_rows(), 0);
    assert_eq!(table.value_bits_column().len(), 0);
}

#[test]
fn rank_two_tensor_fails_with_shape_error() {
    let tensor = Tensor::new(&[[0f32, 1.0], [2.0, 3.0]], &Device::Cpu).unwrap();
    let err = generate_contacts(Some(&tensor)).unwrap_err();
    assert!(err.is_shape());
    assert!(!err.is_length_mismatch());
    assert!(!err.is_tensor_failure());
}

#[test]
fn unequal_residue_axes_fail_with_shape_error() {
    let tensor = Tensor::zeros((2, 3, 2), candle_core::DType::F32, &Device::Cpu).unwrap();
    let err = generate_contacts(Some(&tensor)).unwrap_err();
    assert!(err.is_shape());
}

#[test]
fn empty_contact_map_yields_empty_table() {
    let tensor = Tensor::zeros((0, 0, 2), candle_core::DType::F32, &Device::Cpu).unwrap();
    let table = generate_contacts(Some(&tensor)).unwrap();
    assert_eq!(table.n_rows(), 0);
}

#[test]
fn zero_channels_fail_with_shape_error() {
    let tensor = Tensor::zeros((2, 2, 0), candle_core::DType::F32, &Device::Cpu).unwrap();
    let err = generate_contacts(Some(&tensor)).unwrap_err();
    assert!(err.is_shape());
}

#[test]
fn non_f32_scores_fail_with_shape_error() {
    let tensor = Tensor::zeros((2, 2, 2), candle_core::DType::F64, &Device::Cpu).unwrap();
    let err = generate_contacts(Some(&tensor)).unwrap_err();
    assert!(err.is_shape());
}

#[test]
fn two_by_two_scores_flatten_to_expected_table() {
    let tensor = two_by_two_scores();
    let table = generate_contacts(Some(&tensor)).unwrap();
    assert_eq!(table.n_rows(), 4);
    let expected = [(1, 1, 0.9f32), (2, 1, 0.6), (1, 2, 0.7), (2, 2, 0.8)];
    for (k, &(i, j, v)) in expected.iter().enumerate() {
        let record = table.record(k);
        assert_eq!(record.index_1, i);
        assert_eq!(record.index_2, j);
        let value = f32::from_bits(record.value_bits);
        assert!((value - v).abs() < 1e-6, "row {k}: {value} is not near {v}");
    }
}

#[test]
fn uniform_scores_yield_one_over_channel_count() {
    let tensor = Tensor::zeros((3, 3, 2), candle_core::DType::F32, &Device::Cpu).unwrap();
    let table = generate_contacts(Some(&tensor)).unwrap();
    assert_eq!(table.n_rows(), 9);
    for k in 0..9 {
        assert_eq!(f32::from_bits(table.record(k).value_bits), 0.5);
    }
}

#[test]
fn single_channel_scores_normalize_to_one() {
    let tensor = Tensor::new(&[[[3f32], [-2.0]], [[0.25], [40.0]]], &Device::Cpu).unwrap();
    let table = generate_contacts(Some(&tensor)).unwrap();
    assert_eq!(table.n_rows(), 4);
    for k in 0..4 {
        assert_eq!(f32::from_bits(table.record(k).value_bits), 1.0);
    }
}

#[test]
fn normalized_values_lie_between_zero_and_one() {
    let cells: Vec<f32> = (0..3 * 3 * 4).map(|k| ((k * 37 % 19) as f32) - 9.0).collect();
    let tensor = Tensor::from_vec(cells, (3, 3, 4), &Device::Cpu).unwrap();
    let table = generate_contacts(Some(&tensor)).unwrap();
    assert_eq!(table.n_rows(), 9);
    for k in 0..9 {
        let value = f32::from_bits(table.record(k).value_bits);
        assert!((0.0..=1.0).contains(&value), "row {k}: {value} out of range");
    }
}

#[test]
fn pipeline_is_bit_identical_across_runs() {
    let tensor = two_by_two_scores();
    let first = generate_contacts(Some(&tensor)).unwrap();
    let second = generate_contacts(Some(&tensor)).unwrap();
    assert_eq!(first.index_1_column(), second.index_1_column());
    assert_eq!(first.index_2_column(), second.index_2_column());
    assert_eq!(first.value_bits_column(), second.value_bits_column());
}

#[test]
fn device_kind_prefers_forced_cpu_then_accelerators() {
    assert_eq!(device_kind(true, true, true), DeviceKind::Cpu);
    assert_eq!(device_kind(false, true, true), DeviceKind::Cuda);
    assert_eq!(device_kind(false, false, true), DeviceKind::Metal);
    assert_eq!(device_kind(false, false, false), DeviceKind::Cpu);
}
