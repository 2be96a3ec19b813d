//! The request/response data pair for one potential evaluation.

use vstd::prelude::*;

use crate::tensor::{
    rgpot_tensor_cpu_f64_2d, rgpot_tensor_cpu_f64_matrix3, rgpot_tensor_cpu_i32_1d, DataBuf,
    Dtype, Tensor,
};

verus! {

/// Input configuration for a potential energy evaluation.
///
/// All tensors are borrowed: the caller keeps ownership of the buffers and
/// gets them back when the tensors are released. A missing tensor stands
/// for a null argument at the foreign boundary.
#[allow(non_camel_case_types)]
#[derive(Debug, PartialEq, Eq)]
pub struct rgpot_force_input_t {
    /// Positions tensor: shape `[n_atoms, 3]`, `f64`.
    pub positions: Option<Tensor>,
    /// Atomic numbers tensor: shape `[n_atoms]`, `i32`.
    pub atomic_numbers: Option<Tensor>,
    /// Box matrix tensor: shape `[3, 3]`, `f64`.
    pub box_matrix: Option<Tensor>,
}

/// Results of a potential energy evaluation.
///
/// `forces` starts absent and is set by the evaluator to a freshly produced
/// owned tensor; ownership then passes to the caller. Energy and variance
/// are `f64` scalars carried as IEEE-754 bit patterns.
#[allow(non_camel_case_types)]
#[derive(Debug, PartialEq, Eq)]
pub struct rgpot_force_out_t {
    /// Forces tensor `[n_atoms, 3]`, `f64` — set by the evaluator.
    pub forces: Option<Tensor>,
    /// Calculated potential energy, as an `f64` bit pattern.
    pub energy: u64,
    /// Variance of the calculation, as an `f64` bit pattern
    /// (the bit pattern of `0.0` when unused).
    pub variance: u64,
}

impl rgpot_force_input_t {
    /// Every tensor that is present is well-formed.
    pub open spec fn wf(self) -> bool {
        &&& self.positions matches Some(t) ==> t.wf()
        &&& self.atomic_numbers matches Some(t) ==> t.wf()
        &&& self.box_matrix matches Some(t) ==> t.wf()
    }

    /// The atom count this input derives: the leading extent of the
    /// positions tensor, when one is present.
    pub open spec fn spec_n_atoms(self) -> Option<usize> {
        match self.positions {
            None => None,
            Some(t) => if t.shape@.len() < 1 {
                None
            } else {
                Some(t.shape@[0] as usize)
            },
        }
    }

    /// Decide well-formedness at run time: returns exactly
    /// [`rgpot_force_input_t::wf`]. Unverified callers test a hand-built
    /// input with this before handing it to a function that requires `wf`.
    pub fn check_wf(&self) -> (r: bool)
        ensures
            r == self.wf(),
    {
        let p = match &self.positions {
            None => true,
            Some(t) => t.check_wf(),
        };
        if !p {
            return false;
        }
        let a = match &self.atomic_numbers {
            None => true,
            Some(t) => t.check_wf(),
        };
        if !a {
            return false;
        }
        match &self.box_matrix {
            None => true,
            Some(t) => t.check_wf(),
        }
    }

    /// Extract the atom count from the positions tensor's leading extent.
    ///
    /// Returns `None` when the positions tensor is missing or has no
    /// dimensions.
    pub fn n_atoms(&self) -> (r: Option<usize>)
        requires
            self.wf(),
        ensures
            r == self.spec_n_atoms(),
    {
        match &self.positions {
            None => None,
            Some(t) => {
                if t.shape.len() < 1 {
                    None
                } else {
                    let s0 = t.shape[0];
                    Some(#[verifier::truncate] (s0 as usize))
                }
            },
        }
    }
}

/// Build an evaluation input from flat host buffers, wrapping each in a
/// freshly built borrowed tensor: positions `[n_atoms, 3]`, atomic numbers
/// `[n_atoms]`, box matrix `[3, 3]`. The buffers come back to the caller
/// when the tensors are released.
pub fn rgpot_force_input_create(
    n_atoms: usize,
    pos: Vec<u64>,
    atmnrs: Vec<i32>,
    box_: Vec<u64>,
) -> (input: rgpot_force_input_t)
    requires
        n_atoms * 3 <= i64::MAX,
        pos@.len() == n_atoms * 3,
        atmnrs@.len() == n_atoms,
        box_@.len() == 9,
    ensures
        input.wf(),
        input.positions matches Some(t) && t.dtype == Dtype::F64 && t.shape@ == seq![
            n_atoms as i64,
            3i64,
        ] && t.data == DataBuf::F64(pos) && !t.is_copy,
        input.atomic_numbers matches Some(t) && t.dtype == Dtype::I32 && t.shape@ == seq![
            n_atoms as i64,
        ] && t.data == DataBuf::I32(atmnrs) && !t.is_copy,
        input.box_matrix matches Some(t) && t.dtype == Dtype::F64 && t.shape@ == seq![
            3i64,
            3i64,
        ] && t.data == DataBuf::F64(box_) && !t.is_copy,
        input.spec_n_atoms() == Some(n_atoms),
{
    let n = n_atoms as i64;
    let positions = rgpot_tensor_cpu_f64_2d(pos, n, 3);
    let atomic_numbers = rgpot_tensor_cpu_i32_1d(atmnrs, n);
    let box_matrix = rgpot_tensor_cpu_f64_matrix3(box_);
    rgpot_force_input_t {
        positions: Some(positions),
        atomic_numbers: Some(atomic_numbers),
        box_matrix: Some(box_matrix),
    }
}

/// Release the three tensors of an evaluation input. Each buffer that was
/// borrowed comes back to the caller untouched; only descriptor metadata
/// is torn down.
pub fn rgpot_force_input_free(input: rgpot_force_input_t) -> (bufs: (
    Option<DataBuf>,
    Option<DataBuf>,
    Option<DataBuf>,
))
    ensures
        bufs.0 == crate::tensor::released_buffer(input.positions),
        bufs.1 == crate::tensor::released_buffer(input.atomic_numbers),
        bufs.2 == crate::tensor::released_buffer(input.box_matrix),
{
    let rgpot_force_input_t { positions, atomic_numbers, box_matrix } = input;
    let p = crate::tensor::rgpot_tensor_free(positions);
    let a = crate::tensor::rgpot_tensor_free(atomic_numbers);
    let b = crate::tensor::rgpot_tensor_free(box_matrix);
    (p, a, b)
}

/// An empty evaluation result: no forces yet, energy and variance both the
/// bit pattern of `0.0`.
pub fn rgpot_force_out_create() -> (out: rgpot_force_out_t)
    ensures
        out.forces is None,
        out.energy == 0,
        out.variance == 0,
{
    rgpot_force_out_t { forces: None, energy: 0, variance: 0 }
}

} // verus!
