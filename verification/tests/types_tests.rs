use rgpot_core::tensor::{DataBuf, DeviceKind, Dtype};
use rgpot_core::types::{
    rgpot_force_input_create, rgpot_force_input_free, rgpot_force_out_create, rgpot_force_input_t,
};

fn bits(values: &[f64]) -> Vec<u64> {
    values.iter().map(|v| v.to_bits()).collect()
}

#[test]
fn n_atoms_from_positions_tensor() {
    let input = rgpot_force_input_create(2, bits(&[0.0; 6]), vec![1, 1], bits(&[0.0; 9]));
    assert_eq!(input.n_atoms(), Some(2));
    rgpot_force_input_free(input);
}

#[test]
fn n_atoms_null_positions() {
    let input = rgpot_force_input_t {
        positions: None,
        atomic_numbers: None,
        box_matrix: None,
    };
    assert_eq!(input.n_atoms(), None);
}

#[test]
fn force_input_free_null_is_noop() {
    let input = rgpot_force_input_t {
        positions: None,
        atomic_numbers: None,
        box_matrix: None,
    };
    let (p, a, b) = rgpot_force_input_free(input);
    assert!(p.is_none());
    assert!(a.is_none());
    assert!(b.is_none());
}

#[test]
fn force_out_starts_with_null_forces() {
    let out = rgpot_force_out_create();
    assert!(out.forces.is_none());
    assert_eq!(out.energy, (0.0f64).to_bits());
    assert_eq!(out.variance, (0.0f64).to_bits());
}

#[test]
fn force_out_energy_and_variance_are_independent() {
    let mut out = rgpot_force_out_create();
    out.energy = (1.5f64).to_bits();
    out.variance = (2.5f64).to_bits();
    assert_eq!(out.energy, (1.5f64).to_bits());
    assert_eq!(out.variance, (2.5f64).to_bits());
    out.energy = (-3.0f64).to_bits();
    assert_eq!(out.energy, (-3.0f64).to_bits());
    assert_eq!(out.variance, (2.5f64).to_bits());
}

#[test]
fn full_input_with_tensors() {
    let pos = bits(&[0.0, 0.0, 0.0, 1.0, 0.0, 0.0]);
    let input = rgpot_force_input_create(
        2,
        pos.clone(),
        vec![1, 1],
        bits(&[10.0, 0.0, 0.0, 0.0, 10.0, 0.0, 0.0, 0.0, 10.0]),
    );

    assert_eq!(input.n_atoms(), Some(2));
    let pos_t = input.positions.as_ref().expect("positions present");
    assert_eq!(pos_t.data, DataBuf::F64(pos.clone()));

    // The borrowed buffers come back on release, untouched.
    let (p, a, b) = rgpot_force_input_free(input);
    assert_eq!(p, Some(DataBuf::F64(pos)));
    assert_eq!(a, Some(DataBuf::I32(vec![1, 1])));
    assert!(b.is_some());
}

#[test]
fn force_input_create_produces_valid_tensors() {
    let pos = bits(&[1.0, 2.0, 3.0, 4.0, 5.0, 6.0]);
    let input = rgpot_force_input_create(2, pos.clone(), vec![6, 1], bits(&[10.0; 9]));

    assert!(input.positions.is_some());
    assert!(input.atomic_numbers.is_some());
    assert!(input.box_matrix.is_some());

    let pt = input.positions.as_ref().unwrap();
    assert_eq!(pt.ndim(), 2);
    assert_eq!(pt.device.kind, DeviceKind::Host);
    assert_eq!(pt.dtype, Dtype::F64);
    assert_eq!(pt.shape, vec![2, 3]);
    assert_eq!(pt.data, DataBuf::F64(pos));

    rgpot_force_input_free(input);
}

#[test]
fn force_out_create_starts_null() {
    let out = rgpot_force_out_create();
    assert!(out.forces.is_none());
    assert_eq!(out.energy, 0);
    assert_eq!(out.variance, 0);
}

#[test]
fn force_input_n_atoms_accessor() {
    let input = rgpot_force_input_create(3, bits(&[0.0; 9]), vec![1; 3], bits(&[0.0; 9]));
    assert_eq!(input.n_atoms(), Some(3));
    rgpot_force_input_free(input);
}

#[test]
fn input_check_wf_matches_tensor_checks() {
    let good = rgpot_force_input_create(2, bits(&[0.0; 6]), vec![1, 1], bits(&[0.0; 9]));
    assert!(good.check_wf());
    rgpot_force_input_free(good);

    // an all-missing input is vacuously well-formed
    let empty = rgpot_force_input_t {
        positions: None,
        atomic_numbers: None,
        box_matrix: None,
    };
    assert!(empty.check_wf());

    // one malformed tensor poisons the whole input
    let mut bad = rgpot_force_input_create(2, bits(&[0.0; 6]), vec![1, 1], bits(&[0.0; 9]));
    if let Some(t) = bad.positions.as_mut() {
        t.strides = vec![7, 7];
    }
    assert!(!bad.check_wf());
    rgpot_force_input_free(bad);
}
