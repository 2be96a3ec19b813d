use rgpot_core::tensor::{
    compute_row_major_strides, contract_version, TensorArg, ValidationError, create_owned_f64_tensor, create_owned_i32_tensor, rgpot_tensor_cpu_f64_2d,
    rgpot_tensor_cpu_f64_matrix3, rgpot_tensor_cpu_i32_1d, rgpot_tensor_data, rgpot_tensor_device,
    rgpot_tensor_free, rgpot_tensor_owned_cpu_f64_2d, rgpot_tensor_shape, validate_atomic_numbers,
    validate_box_matrix, validate_positions, DataBuf, DeviceKind, Dtype,
};

fn bits(values: &[f64]) -> Vec<u64> {
    values.iter().map(|v| v.to_bits()).collect()
}

#[test]
fn row_major_strides_1d() {
    assert_eq!(compute_row_major_strides(&vec![5]), vec![1]);
}

#[test]
fn row_major_strides_2d() {
    assert_eq!(compute_row_major_strides(&vec![4, 3]), vec![3, 1]);
}

#[test]
fn row_major_strides_3d() {
    assert_eq!(compute_row_major_strides(&vec![2, 3, 4]), vec![12, 4, 1]);
}

#[test]
fn row_major_strides_empty() {
    assert_eq!(compute_row_major_strides(&Vec::new()), Vec::<i64>::new());
}

#[test]
fn borrowed_f64_2d_has_correct_metadata() {
    let data = bits(&[1.0, 2.0, 3.0, 4.0, 5.0, 6.0]);
    let tensor = rgpot_tensor_cpu_f64_2d(data.clone(), 2, 3);

    assert_eq!(rgpot_tensor_device(&tensor).kind, DeviceKind::Host);
    assert_eq!(tensor.version, contract_version());
    assert_eq!(tensor.dtype, Dtype::F64);
    assert_eq!(tensor.ndim(), 2);
    assert_eq!(rgpot_tensor_shape(&tensor), &vec![2, 3]);
    assert_eq!(tensor.strides, vec![3, 1]);
    assert_eq!(rgpot_tensor_data(&tensor), &DataBuf::F64(data.clone()));

    // Releasing a borrowed tensor hands the buffer back untouched.
    let released = rgpot_tensor_free(Some(tensor));
    assert_eq!(released, Some(DataBuf::F64(data)));
}

#[test]
fn borrowed_i32_1d_has_correct_metadata() {
    let data = vec![6, 1, 8];
    let tensor = rgpot_tensor_cpu_i32_1d(data.clone(), 3);

    assert_eq!(tensor.dtype, Dtype::I32);
    assert_eq!(tensor.ndim(), 1);
    assert_eq!(rgpot_tensor_shape(&tensor), &vec![3]);

    let released = rgpot_tensor_free(Some(tensor));
    assert_eq!(released, Some(DataBuf::I32(data)));
}

#[test]
fn borrowed_matrix3_is_3x3() {
    let data = bits(&[0.0; 9]);
    let tensor = rgpot_tensor_cpu_f64_matrix3(data);
    assert_eq!(tensor.ndim(), 2);
    assert_eq!(rgpot_tensor_shape(&tensor), &vec![3, 3]);
    rgpot_tensor_free(Some(tensor));
}

#[test]
fn owned_f64_tensor_survives_source_drop() {
    let tensor = {
        let data = bits(&[1.0, 2.0, 3.0, 4.0, 5.0, 6.0]);
        create_owned_f64_tensor(data, vec![2, 3])
    };
    // The source vector is gone, but the tensor still holds the values.
    assert_eq!(tensor.data, DataBuf::F64(bits(&[1.0, 2.0, 3.0, 4.0, 5.0, 6.0])));
    assert!(tensor.is_copy);
    // Releasing an owned tensor frees the buffer: nothing is handed back.
    assert_eq!(rgpot_tensor_free(Some(tensor)), None);
}

#[test]
fn owned_i32_tensor_survives_source_drop() {
    let tensor = {
        let data = vec![1, 8, 6];
        create_owned_i32_tensor(data, vec![3])
    };
    assert_eq!(tensor.data, DataBuf::I32(vec![1, 8, 6]));
    rgpot_tensor_free(Some(tensor));
}

#[test]
fn owned_cpu_f64_2d_copies_data() {
    let mut source = bits(&[10.0, 20.0, 30.0, 40.0, 50.0, 60.0]);
    let tensor = rgpot_tensor_owned_cpu_f64_2d(&source, 2, 3);
    // The descriptor holds a private copy: changing the source afterwards
    // does not change the tensor.
    source[0] = (99.0f64).to_bits();
    assert_eq!(
        tensor.data,
        DataBuf::F64(bits(&[10.0, 20.0, 30.0, 40.0, 50.0, 60.0]))
    );
    assert!(tensor.is_copy);
    rgpot_tensor_free(Some(tensor));
}

#[test]
fn tensor_free_null_is_noop() {
    assert_eq!(rgpot_tensor_free(None), None);
}

#[test]
fn device_accessor_returns_cpu() {
    let tensor = rgpot_tensor_cpu_f64_2d(bits(&[0.0; 6]), 2, 3);
    let dev = rgpot_tensor_device(&tensor);
    assert_eq!(dev.kind, DeviceKind::Host);
    assert_eq!(dev.id, 0);
    rgpot_tensor_free(Some(tensor));
}

#[test]
fn data_accessor_returns_correct_pointer() {
    let data = bits(&[42.0; 3]);
    let tensor = rgpot_tensor_cpu_f64_2d(data.clone(), 1, 3);
    assert_eq!(rgpot_tensor_data(&tensor), &DataBuf::F64(data));
    rgpot_tensor_free(Some(tensor));
}

#[test]
fn shape_accessor_returns_correct_values() {
    let tensor = rgpot_tensor_cpu_f64_2d(bits(&[0.0; 12]), 4, 3);
    assert_eq!(tensor.ndim(), 2);
    assert_eq!(rgpot_tensor_shape(&tensor), &vec![4, 3]);
    rgpot_tensor_free(Some(tensor));
}

#[test]
fn validate_positions_ok() {
    let tensor = rgpot_tensor_cpu_f64_2d(bits(&[0.0; 6]), 2, 3);
    assert_eq!(validate_positions(Some(&tensor)), Ok(2));
    rgpot_tensor_free(Some(tensor));
}

#[test]
fn validate_positions_null() {
    assert!(validate_positions(None).is_err());
}

#[test]
fn validate_positions_wrong_shape() {
    let tensor = rgpot_tensor_cpu_f64_2d(bits(&[0.0; 8]), 2, 4);
    assert!(validate_positions(Some(&tensor)).is_err());
    rgpot_tensor_free(Some(tensor));
}

#[test]
fn validate_positions_wrong_dtype() {
    let tensor = rgpot_tensor_cpu_i32_1d(vec![0; 6], 6);
    assert!(validate_positions(Some(&tensor)).is_err());
    rgpot_tensor_free(Some(tensor));
}

#[test]
fn validate_atomic_numbers_ok() {
    let tensor = rgpot_tensor_cpu_i32_1d(vec![1, 8], 2);
    assert!(validate_atomic_numbers(Some(&tensor), 2).is_ok());
    rgpot_tensor_free(Some(tensor));
}

#[test]
fn validate_atomic_numbers_wrong_count() {
    let tensor = rgpot_tensor_cpu_i32_1d(vec![1, 8], 2);
    assert!(validate_atomic_numbers(Some(&tensor), 3).is_err());
    rgpot_tensor_free(Some(tensor));
}

#[test]
fn validate_box_matrix_ok() {
    let tensor = rgpot_tensor_cpu_f64_matrix3(bits(&[0.0; 9]));
    assert!(validate_box_matrix(Some(&tensor)).is_ok());
    rgpot_tensor_free(Some(tensor));
}

#[test]
fn validate_box_matrix_wrong_shape() {
    let tensor = rgpot_tensor_cpu_f64_2d(bits(&[0.0; 6]), 2, 3);
    assert!(validate_box_matrix(Some(&tensor)).is_err());
    rgpot_tensor_free(Some(tensor));
}

#[test]
fn validation_reports_distinct_diagnostics() {
    assert_eq!(
        validate_positions(None),
        Err(ValidationError::NullTensor { arg: TensorArg::Positions })
    );

    let wrong_dtype = rgpot_tensor_cpu_i32_1d(vec![0; 6], 6);
    assert_eq!(
        validate_positions(Some(&wrong_dtype)),
        Err(ValidationError::DtypeMismatch {
            arg: TensorArg::Positions,
            expected: Dtype::F64,
            actual: Dtype::I32,
        })
    );

    let wrong_ndim = rgpot_tensor_cpu_i32_1d(vec![0; 4], 4);
    assert_eq!(
        validate_atomic_numbers(Some(&wrong_ndim), 5),
        Err(ValidationError::CountMismatch {
            arg: TensorArg::AtomicNumbers,
            expected: 5,
            actual: 4,
        })
    );

    let wrong_extent = rgpot_tensor_cpu_f64_2d(bits(&[0.0; 8]), 2, 4);
    assert_eq!(
        validate_positions(Some(&wrong_extent)),
        Err(ValidationError::ExtentMismatch {
            arg: TensorArg::Positions,
            dim: 1,
            expected: 3,
            actual: 4,
        })
    );

    let wrong_box = rgpot_tensor_cpu_f64_2d(bits(&[0.0; 12]), 4, 3);
    assert_eq!(
        validate_box_matrix(Some(&wrong_box)),
        Err(ValidationError::ExtentMismatch {
            arg: TensorArg::BoxMatrix,
            dim: 0,
            expected: 3,
            actual: 4,
        })
    );
}

#[test]
fn borrowed_release_preserves_caller_buffer() {
    // The buffer wrapped by a borrowed tensor comes back from release
    // exactly as it went in.
    let source = bits(&[1.5, -2.5, 3.25, 0.0, 10.0, -0.5]);
    let tensor = rgpot_tensor_cpu_f64_2d(source.clone(), 2, 3);
    match rgpot_tensor_free(Some(tensor)) {
        Some(DataBuf::F64(returned)) => assert_eq!(returned, source),
        other => panic!("expected the borrowed buffer back, got {:?}", other),
    }
}

#[test]
fn positions_of_any_size_validate() {
    for n in 0..6_i64 {
        let tensor = rgpot_tensor_cpu_f64_2d(bits(&vec![0.0; (n * 3) as usize]), n, 3);
        assert_eq!(validate_positions(Some(&tensor)), Ok(n as usize));
        rgpot_tensor_free(Some(tensor));
    }
}

#[test]
fn check_wf_accepts_every_built_tensor() {
    let t = rgpot_tensor_cpu_f64_2d(bits(&[0.0; 6]), 2, 3);
    assert!(t.check_wf());
    let o = rgpot_tensor_owned_cpu_f64_2d(&bits(&[0.0; 9]), 3, 3);
    assert!(o.check_wf());
    let a = rgpot_tensor_cpu_i32_1d(vec![1, 1], 2);
    assert!(a.check_wf());
    let e = rgpot_tensor_cpu_f64_2d(Vec::new(), 0, 3);
    assert!(e.check_wf());
}

#[test]
fn check_wf_rejects_hand_built_descriptors() {
    // wrong strides for the shape
    let mut bad = rgpot_tensor_cpu_f64_2d(bits(&[0.0; 6]), 2, 3);
    bad.strides = vec![1, 1];
    assert!(!bad.check_wf());

    // buffer length disagrees with the shape
    let mut short = rgpot_tensor_cpu_f64_2d(bits(&[0.0; 6]), 2, 3);
    short.data = DataBuf::F64(bits(&[0.0; 4]));
    assert!(!short.check_wf());

    // element type code disagrees with the buffer
    let mut typed = rgpot_tensor_cpu_f64_2d(bits(&[0.0; 6]), 2, 3);
    typed.dtype = Dtype::I32;
    assert!(!typed.check_wf());

    // negative extent
    let mut negative = rgpot_tensor_cpu_f64_2d(bits(&[0.0; 6]), 2, 3);
    negative.shape = vec![-2, 3];
    assert!(!negative.check_wf());
}
