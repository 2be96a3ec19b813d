//! The computing half of the RPC server.
//!
//! The caller owns the listening socket and the accept loop; each request
//! read off a connection is handed here as bytes. The request is decoded
//! into borrowed tensors, dispatched to the evaluator through the callback
//! core, and the outcome — the evaluator's result, or its failure status
//! verbatim — is encoded as the response to write back. All tensors built
//! for the call are released before it returns.

use vstd::prelude::*;

use crate::potential::{rgpot_potential_calculate, PotentialCallback, PotentialImpl};
use crate::status::rgpot_status_t;
use crate::tensor::{
    clone_vec_copy, rgpot_tensor_cpu_f64_2d, rgpot_tensor_cpu_f64_matrix3, rgpot_tensor_cpu_i32_1d,
    rgpot_tensor_free, DataBuf, Tensor,
};
use crate::types::{rgpot_force_input_t, rgpot_force_out_create, rgpot_force_out_t};
use crate::wire::{
    decode_request, encode_response_failure, encode_response_result, spec_decode_request,
    spec_decode_response, SpecResponse,
};

verus! {

/// One way the server side can fail a request before or after dispatch.
#[derive(Debug, Clone, Copy, PartialEq, Eq, Structural)]
#[allow(inconsistent_fields)]
pub enum ServerError {
    /// The position count in the request disagrees with three values per
    /// atom.
    PositionCountMismatch { n_atoms: usize, positions_len: usize },
    /// The box matrix in the request does not hold nine values.
    BoxCountMismatch { box_len: usize },
    /// The atom count exceeds what a response can carry.
    TooManyAtoms { n_atoms: usize },
    /// The evaluator reported this non-success status; it is propagated
    /// verbatim as an RPC-level failure.
    EvaluatorFailure { status: rgpot_status_t },
}

impl ServerError {
    /// The status a failure response carries: an evaluator failure is
    /// propagated verbatim, a malformed request is an RPC error.
    pub open spec fn spec_status(self) -> rgpot_status_t {
        match self {
            ServerError::EvaluatorFailure { status } => status,
            _ => rgpot_status_t::RGPOT_RPC_ERROR,
        }
    }

    /// The status a failure response carries.
    pub fn status(&self) -> (s: rgpot_status_t)
        ensures
            s == self.spec_status(),
    {
        match self {
            ServerError::EvaluatorFailure { status } => *status,
            _ => rgpot_status_t::RGPOT_RPC_ERROR,
        }
    }

    /// A short human-readable cause, as the bytes a failure response
    /// carries.
    pub fn message(&self) -> Vec<u8> {
        let text: &str = match self {
            ServerError::PositionCountMismatch { .. } => "position count disagrees with the atom count",
            ServerError::BoxCountMismatch { .. } => "box matrix does not hold nine values",
            ServerError::TooManyAtoms { .. } => "atom count exceeds what a response can carry",
            ServerError::EvaluatorFailure { .. } => "potential callback returned an error",
        };
        vstd::slice::slice_to_vec(text.as_bytes())
    }
}

/// Build an evaluation input from the decoded request sequences, wrapping
/// each in a borrowed tensor: positions `[n, 3]`, atomic numbers `[n]`,
/// box matrix `[3, 3]`, where `n` is the atomic-number count. Rejects a
/// request whose sequence lengths cannot form those shapes.
pub fn build_query(positions: Vec<u64>, atomic_numbers: Vec<i32>, box_matrix: Vec<u64>) -> (r:
    Result<(usize, rgpot_force_input_t), ServerError>)
    ensures
        ({
            let n = atomic_numbers@.len();
            &&& positions@.len() != 3 * n ==> r == Err::<(usize, rgpot_force_input_t), _>(
                ServerError::PositionCountMismatch {
                    n_atoms: n as usize,
                    positions_len: positions@.len() as usize,
                },
            )
            &&& positions@.len() == 3 * n && box_matrix@.len() != 9 ==> r == Err::<
                (usize, rgpot_force_input_t),
                _,
            >(ServerError::BoxCountMismatch { box_len: box_matrix@.len() as usize })
            &&& positions@.len() == 3 * n && box_matrix@.len() == 9 && n > u32::MAX ==> r == Err::<
                (usize, rgpot_force_input_t),
                _,
            >(ServerError::TooManyAtoms { n_atoms: n as usize })
            &&& positions@.len() == 3 * n && box_matrix@.len() == 9 && n <= u32::MAX ==> (
            r matches Ok(p) && p.0 == n && p.1.wf() && (p.1.positions matches Some(t) && t.data
                == DataBuf::F64(positions) && t.shape@ == seq![n as i64, 3i64] && !t.is_copy) && (
            p.1.atomic_numbers matches Some(t) && t.data == DataBuf::I32(atomic_numbers)
                && t.shape@ == seq![n as i64] && !t.is_copy) && (p.1.box_matrix matches Some(t)
                && t.data == DataBuf::F64(box_matrix) && t.shape@ == seq![3i64, 3i64]
                && !t.is_copy) && p.1.spec_n_atoms() == Some(n as usize))
        }),
{
    let n = atomic_numbers.len();
    if positions.len() % 3 != 0 || positions.len() / 3 != n {
        return Err(
            ServerError::PositionCountMismatch { n_atoms: n, positions_len: positions.len() },
        );
    }
    if box_matrix.len() != 9 {
        return Err(ServerError::BoxCountMismatch { box_len: box_matrix.len() });
    }
    if n as u64 > u32::MAX as u64 {
        return Err(ServerError::TooManyAtoms { n_atoms: n });
    }
    let pos_tensor = rgpot_tensor_cpu_f64_2d(positions, n as i64, 3);
    let atm_tensor = rgpot_tensor_cpu_i32_1d(atomic_numbers, n as i64);
    let box_tensor = rgpot_tensor_cpu_f64_matrix3(box_matrix);
    let input = rgpot_force_input_t {
        positions: Some(pos_tensor),
        atomic_numbers: Some(atm_tensor),
        box_matrix: Some(box_tensor),
    };
    Ok((n, input))
}

/// Read the force values out of the tensor the evaluator produced: its
/// `f64` bit patterns when one is present, and nothing when the evaluator
/// left no forces or produced an integer tensor.
pub fn read_forces(forces: &Option<Tensor>) -> (r: Vec<u64>)
    ensures
        match forces {
            Some(t) => (t.data matches DataBuf::F64(v) ==> r@ == v@) && (t.data matches DataBuf::I32(
                _,
            ) ==> r@.len() == 0),
            None => r@.len() == 0,
        },
{
    match forces {
        None => Vec::new(),
        Some(t) => match &t.data {
            DataBuf::F64(v) => clone_vec_copy(v),
            DataBuf::I32(_) => Vec::new(),
        },
    }
}

/// Dispatch one decoded request to the evaluator: build borrowed tensors
/// from the sequences, invoke the callback core once, read the produced
/// forces back, and release every tensor. A malformed request is rejected
/// before the evaluator runs; a non-success status from the evaluator is
/// handed back verbatim, with no forces.
pub fn handle_calculate<C: PotentialCallback>(
    pot: &mut PotentialImpl<C>,
    positions: Vec<u64>,
    atomic_numbers: Vec<i32>,
    box_matrix: Vec<u64>,
) -> (r: Result<(u64, Vec<u64>), ServerError>)
    ensures
        ({
            let n = atomic_numbers@.len();
            &&& positions@.len() != 3 * n ==> r == Err::<(u64, Vec<u64>), _>(
                ServerError::PositionCountMismatch {
                    n_atoms: n as usize,
                    positions_len: positions@.len() as usize,
                },
            )
            &&& positions@.len() == 3 * n && box_matrix@.len() != 9 ==> r == Err::<
                (u64, Vec<u64>),
                _,
            >(ServerError::BoxCountMismatch { box_len: box_matrix@.len() as usize })
            &&& positions@.len() == 3 * n && box_matrix@.len() == 9 && n > u32::MAX ==> r == Err::<
                (u64, Vec<u64>),
                _,
            >(ServerError::TooManyAtoms { n_atoms: n as usize })
            &&& positions@.len() == 3 * n && box_matrix@.len() == 9 && n <= u32::MAX ==> (r is Ok
                || r matches Err(ServerError::EvaluatorFailure { .. }))
            &&& r matches Err(ServerError::EvaluatorFailure { status }) ==> status
                != rgpot_status_t::RGPOT_SUCCESS
        }),
{
    let (_n, input) = match build_query(positions, atomic_numbers, box_matrix) {
        Err(e) => {
            return Err(e);
        },
        Ok(p) => p,
    };
    let mut output = rgpot_force_out_create();
    let status = rgpot_potential_calculate(Some(pot), Some(&input), &mut output);
    let forces = read_forces(&output.forces);
    let rgpot_force_out_t { forces: produced, energy, variance: _ } = output;
    let _ = rgpot_tensor_free(produced);
    let rgpot_force_input_t { positions: p_t, atomic_numbers: a_t, box_matrix: b_t } = input;
    let _ = rgpot_tensor_free(p_t);
    let _ = rgpot_tensor_free(a_t);
    let _ = rgpot_tensor_free(b_t);
    if status != rgpot_status_t::RGPOT_SUCCESS {
        return Err(ServerError::EvaluatorFailure { status });
    }
    Ok((energy, forces))
}

/// A failure response carrying `status`; the message is dropped in the
/// unlikely case it cannot fit the wire format's length field.
fn failure_response(status: rgpot_status_t, message: Vec<u8>) -> (bytes: Vec<u8>)
    ensures
        spec_decode_response(bytes@) matches Some(SpecResponse::Failure { status: s, message: m })
            && s == status && (message@.len() <= u32::MAX ==> m == message@) && (message@.len()
            > u32::MAX ==> m.len() == 0),
{
    if message.len() as u64 <= u32::MAX as u64 {
        encode_response_failure(status, &message)
    } else {
        let empty: Vec<u8> = Vec::new();
        encode_response_failure(status, &empty)
    }
}

/// Serve one request, bytes in to bytes out: decode it, dispatch to the
/// evaluator, and encode the outcome. The reply is always a well-formed
/// response; a request that does not decode is answered with an RPC-error
/// failure and the evaluator never runs.
pub fn serve_request_bytes<C: PotentialCallback>(pot: &mut PotentialImpl<C>, request: &Vec<u8>) -> (
    reply: Vec<u8>)
    ensures
        spec_decode_response(reply@) is Some,
        spec_decode_request(request@) is None ==> (spec_decode_response(reply@) matches Some(
            SpecResponse::Failure { status, .. },
        ) && status == rgpot_status_t::RGPOT_RPC_ERROR),
        spec_decode_request(request@) is Some ==> (spec_decode_response(reply@) matches Some(
            SpecResponse::Failure { status, .. },
        ) ==> status != rgpot_status_t::RGPOT_SUCCESS),
{
    let decoded = match decode_request(request) {
        None => {
            let msg = vstd::slice::slice_to_vec("malformed calculate request".as_bytes());
            return failure_response(rgpot_status_t::RGPOT_RPC_ERROR, msg);
        },
        Some(d) => d,
    };
    let (positions, atomic_numbers, box_matrix) = decoded;
    match handle_calculate(pot, positions, atomic_numbers, box_matrix) {
        Err(e) => {
            let msg = e.message();
            failure_response(e.status(), msg)
        },
        Ok((energy, forces)) => {
            if forces.len() as u64 <= u32::MAX as u64 {
                encode_response_result(energy, &forces)
            } else {
                let msg = vstd::slice::slice_to_vec("force tensor too large".as_bytes());
                failure_response(rgpot_status_t::RGPOT_RPC_ERROR, msg)
            }
        },
    }
}

} // verus!
