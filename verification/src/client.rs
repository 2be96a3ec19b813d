//! The computing half of the RPC client.
//!
//! One `calculate` call is a round trip: validate and extract host-resident
//! data from the three input tensors, encode a request, send it over a
//! fresh connection, await the response, check the returned force count
//! against `3 n`, and attach an owned forces tensor together with the
//! energy to the result. Everything except the connection itself happens
//! here, with contracts; the caller drives the socket and hands the
//! response bytes back.
//!
//! Any failure short-circuits with a descriptive error and attaches no
//! partial result.

use vstd::prelude::*;

use crate::status::rgpot_status_t;
use crate::tensor::{
    clone_vec_copy, create_owned_f64_tensor, lemma_two_dim_suffix_prods, spec_validate_atomic_numbers,
    spec_validate_box_matrix, spec_validate_positions, suffix_prod, validate_atomic_numbers,
    validate_box_matrix, validate_positions, DataBuf, DeviceKind, Dtype, TensorArg,
    ValidationError,
};
use crate::types::{rgpot_force_input_t, rgpot_force_out_t};
use crate::wire::{encode_request, spec_decode_request, ResponseMsg};

verus! {

/// One way a `calculate` call can fail on the client side.
#[derive(Debug, PartialEq, Eq)]
pub enum ClientError {
    /// An input tensor failed validation before anything was sent.
    InvalidInput(ValidationError),
    /// An input tensor lives on an accelerator device; the network path
    /// carries host memory only.
    NonHostDevice(TensorArg),
    /// The atom count does not fit the wire format's count field.
    TooLarge { n_atoms: usize },
    /// The response carried a force sequence whose length disagrees with
    /// `3 n`; fatal for this call only.
    ForceCountMismatch { expected_len: usize, actual_len: usize },
    /// The remote side reported a failure.
    RemoteFailure { status: rgpot_status_t, message: Vec<u8> },
}

impl ClientError {
    /// The status category this failure is reported under: missing
    /// arguments are invalid parameters, pre-flight shape and size
    /// mismatches are buffer-size errors, everything touching the wire is
    /// an RPC error.
    pub open spec fn spec_status(self) -> rgpot_status_t {
        match self {
            ClientError::InvalidInput(e) => match e {
                ValidationError::NullTensor { .. } => rgpot_status_t::RGPOT_INVALID_PARAMETER,
                _ => rgpot_status_t::RGPOT_BUFFER_SIZE_ERROR,
            },
            ClientError::NonHostDevice(_) => rgpot_status_t::RGPOT_RPC_ERROR,
            ClientError::TooLarge { .. } => rgpot_status_t::RGPOT_BUFFER_SIZE_ERROR,
            ClientError::ForceCountMismatch { .. } => rgpot_status_t::RGPOT_RPC_ERROR,
            ClientError::RemoteFailure { .. } => rgpot_status_t::RGPOT_RPC_ERROR,
        }
    }

    /// The status category this failure is reported under.
    pub fn status(&self) -> (s: rgpot_status_t)
        ensures
            s == self.spec_status(),
    {
        match self {
            ClientError::InvalidInput(e) => match e {
                ValidationError::NullTensor { .. } => rgpot_status_t::RGPOT_INVALID_PARAMETER,
                _ => rgpot_status_t::RGPOT_BUFFER_SIZE_ERROR,
            },
            ClientError::NonHostDevice(_) => rgpot_status_t::RGPOT_RPC_ERROR,
            ClientError::TooLarge { .. } => rgpot_status_t::RGPOT_BUFFER_SIZE_ERROR,
            ClientError::ForceCountMismatch { .. } => rgpot_status_t::RGPOT_RPC_ERROR,
            ClientError::RemoteFailure { .. } => rgpot_status_t::RGPOT_RPC_ERROR,
        }
    }
}

/// The host-resident data extracted from one validated input: the derived
/// atom count, `3 n` position values, `n` atomic numbers, and the nine
/// box-matrix values.
pub struct FlatQuery {
    pub n_atoms: usize,
    pub positions: Vec<u64>,
    pub atomic_numbers: Vec<i32>,
    pub box_matrix: Vec<u64>,
}

/// What extraction yields for a given input: the first check that fails,
/// in validation order, or the flat host data. Each tensor is validated,
/// then required to live in host memory, before its data is read.
pub open spec fn spec_extract_cpu_input(input: rgpot_force_input_t) -> Result<
    (usize, Seq<u64>, Seq<i32>, Seq<u64>),
    ClientError,
> {
    match spec_validate_positions(input.positions) {
        Err(e) => Err(ClientError::InvalidInput(e)),
        Ok(n) => if input.positions->Some_0.device.kind != DeviceKind::Host {
            Err(ClientError::NonHostDevice(TensorArg::Positions))
        } else {
            match spec_validate_atomic_numbers(input.atomic_numbers, n) {
                Err(e) => Err(ClientError::InvalidInput(e)),
                Ok(_) => if input.atomic_numbers->Some_0.device.kind != DeviceKind::Host {
                    Err(ClientError::NonHostDevice(TensorArg::AtomicNumbers))
                } else {
                    match spec_validate_box_matrix(input.box_matrix) {
                        Err(e) => Err(ClientError::InvalidInput(e)),
                        Ok(_) => if input.box_matrix->Some_0.device.kind != DeviceKind::Host {
                            Err(ClientError::NonHostDevice(TensorArg::BoxMatrix))
                        } else {
                            Ok(
                                (
                                    n,
                                    input.positions->Some_0.data->F64_0@,
                                    input.atomic_numbers->Some_0.data->I32_0@,
                                    input.box_matrix->Some_0.data->F64_0@,
                                ),
                            )
                        },
                    }
                },
            }
        },
    }
}

/// Validate the three input tensors and copy their host data out flat.
/// Rejects a missing or malformed tensor with its validation diagnostic
/// and a non-host tensor with a transport-side error, before reading any
/// data.
pub fn extract_cpu_input(input: &rgpot_force_input_t) -> (r: Result<FlatQuery, ClientError>)
    requires
        input.wf(),
    ensures
        match r {
            Ok(f) => spec_extract_cpu_input(*input) == Ok::<_, ClientError>(
                (f.n_atoms, f.positions@, f.atomic_numbers@, f.box_matrix@),
            ) && f.positions@.len() == 3 * f.n_atoms && f.atomic_numbers@.len() == f.n_atoms
                && f.box_matrix@.len() == 9,
            Err(e) => spec_extract_cpu_input(*input) == Err::<(usize, Seq<u64>, Seq<i32>, Seq<u64>),
                _,
            >(e),
        },
{
    let n = match validate_positions(input.positions.as_ref()) {
        Err(e) => {
            return Err(ClientError::InvalidInput(e));
        },
        Ok(n) => n,
    };
    let pos_t = match input.positions.as_ref() {
        Some(t) => t,
        None => {
            proof {
                assert(false);
            }
            return Err(ClientError::NonHostDevice(TensorArg::Positions));
        },
    };
    if pos_t.device.kind != DeviceKind::Host {
        return Err(ClientError::NonHostDevice(TensorArg::Positions));
    }
    match validate_atomic_numbers(input.atomic_numbers.as_ref(), n) {
        Err(e) => {
            return Err(ClientError::InvalidInput(e));
        },
        Ok(_) => {},
    }
    let atm_t = match input.atomic_numbers.as_ref() {
        Some(t) => t,
        None => {
            proof {
                assert(false);
            }
            return Err(ClientError::NonHostDevice(TensorArg::AtomicNumbers));
        },
    };
    if atm_t.device.kind != DeviceKind::Host {
        return Err(ClientError::NonHostDevice(TensorArg::AtomicNumbers));
    }
    match validate_box_matrix(input.box_matrix.as_ref()) {
        Err(e) => {
            return Err(ClientError::InvalidInput(e));
        },
        Ok(_) => {},
    }
    let box_t = match input.box_matrix.as_ref() {
        Some(t) => t,
        None => {
            proof {
                assert(false);
            }
            return Err(ClientError::NonHostDevice(TensorArg::BoxMatrix));
        },
    };
    if box_t.device.kind != DeviceKind::Host {
        return Err(ClientError::NonHostDevice(TensorArg::BoxMatrix));
    }
    proof {
        assert(pos_t.shape@.len() == 2 && pos_t.shape@[1] == 3);
        assert(suffix_prod(pos_t.shape@, 2) == 1);
        assert(suffix_prod(pos_t.shape@, 1) == pos_t.shape@[1] * 1);
        assert(suffix_prod(pos_t.shape@, 0) == pos_t.shape@[0] * suffix_prod(pos_t.shape@, 1));
        assert(pos_t.data.spec_len() == suffix_prod(pos_t.shape@, 0));
        assert(n == pos_t.shape@[0]);
        assert(pos_t.data.spec_len() == 3 * n) by (nonlinear_arith)
            requires
                pos_t.data.spec_len() == pos_t.shape@[0] * suffix_prod(pos_t.shape@, 1),
                suffix_prod(pos_t.shape@, 1) == 3,
                n == pos_t.shape@[0],
        ;
        assert(suffix_prod(atm_t.shape@, 1) == 1);
        assert(suffix_prod(atm_t.shape@, 0) == atm_t.shape@[0] * 1);
        assert(suffix_prod(box_t.shape@, 2) == 1);
        assert(suffix_prod(box_t.shape@, 1) == box_t.shape@[1] * 1);
        assert(suffix_prod(box_t.shape@, 0) == box_t.shape@[0] * suffix_prod(box_t.shape@, 1));
    }
    let positions = match &pos_t.data {
        DataBuf::F64(v) => clone_vec_copy(v),
        DataBuf::I32(_) => {
            proof {
                assert(false);
            }
            Vec::new()
        },
    };
    let atomic_numbers = match &atm_t.data {
        DataBuf::I32(v) => clone_vec_copy(v),
        DataBuf::F64(_) => {
            proof {
                assert(false);
            }
            Vec::new()
        },
    };
    let box_matrix = match &box_t.data {
        DataBuf::F64(v) => clone_vec_copy(v),
        DataBuf::I32(_) => {
            proof {
                assert(false);
            }
            Vec::new()
        },
    };
    Ok(FlatQuery { n_atoms: n, positions, atomic_numbers, box_matrix })
}

/// RPC client bound to a target endpoint. Each `calculate` call uses a
/// brand-new connection driven by the caller; the client itself prepares
/// the request bytes and checks the response.
pub struct RpcClient {
    /// Target host name or address.
    pub host: String,
    /// Target port.
    pub port: u16,
}

impl RpcClient {
    /// A client targeting `host:port`. Nothing is connected yet; the
    /// connection is established per call.
    pub fn new(host: &str, port: u16) -> (c: RpcClient)
        ensures
            c.host@ == host@,
            c.port == port,
    {
        RpcClient { host: host.to_owned(), port }
    }

    /// Validate the input and build the request bytes to send: the first
    /// failed check is reported and nothing is encoded. On success the
    /// derived atom count and a well-formed request that decodes back to
    /// exactly the extracted data are returned.
    pub fn prepare_request(&self, input: &rgpot_force_input_t) -> (r: Result<
        (usize, Vec<u8>),
        ClientError,
    >)
        requires
            input.wf(),
        ensures
            match r {
                Ok(p) => spec_extract_cpu_input(*input) matches Ok(f) && p.0 == f.0 && p.0 as int
                    <= u32::MAX as int && spec_decode_request(p.1@) == Some((f.1, f.2, f.3)),
                Err(e) => (e matches ClientError::TooLarge { n_atoms } && spec_extract_cpu_input(
                    *input,
                ) matches Ok(f) && f.0 == n_atoms && n_atoms as int > u32::MAX as int) || spec_extract_cpu_input(
                    *input,
                ) == Err::<(usize, Seq<u64>, Seq<i32>, Seq<u64>), _>(e),
            },
    {
        let flat = match extract_cpu_input(input) {
            Err(e) => {
                return Err(e);
            },
            Ok(f) => f,
        };
        if flat.n_atoms as u64 > u32::MAX as u64 {
            return Err(ClientError::TooLarge { n_atoms: flat.n_atoms });
        }
        let bytes = encode_request(&flat.positions, &flat.atomic_numbers, &flat.box_matrix);
        Ok((flat.n_atoms, bytes))
    }

    /// Take the decoded response for a query of `n` atoms and attach the
    /// result to `output`: on a result whose force count equals `3 n`, the
    /// energy and a freshly built owned forces tensor of shape `[n, 3]`;
    /// on a count mismatch or a remote failure, an error, and `output` is
    /// not touched.
    pub fn accept_response(
        &self,
        n: usize,
        response: ResponseMsg,
        output: &mut rgpot_force_out_t,
    ) -> (r: Result<(), ClientError>)
        requires
            3 * n <= i64::MAX,
            3 * n <= usize::MAX,
        ensures
            response matches ResponseMsg::Failure { status, message } ==> r == Err::<(), _>(
                ClientError::RemoteFailure { status, message },
            ) && *final(output) == *old(output),
            response matches ResponseMsg::Success { energy, forces } ==> ({
                &&& forces@.len() != 3 * n ==> r == Err::<(), _>(
                    ClientError::ForceCountMismatch {
                        expected_len: (3 * n) as usize,
                        actual_len: forces@.len() as usize,
                    },
                ) && *final(output) == *old(output)
                &&& forces@.len() == 3 * n ==> {
                    &&& r is Ok
                    &&& final(output).energy == energy
                    &&& final(output).variance == old(output).variance
                    &&& final(output).forces matches Some(t) && t.wf() && t.dtype == Dtype::F64
                        && t.shape@ == seq![n as i64, 3i64] && t.data == DataBuf::F64(forces)
                        && t.is_copy
                }
            }),
    {
        match response {
            ResponseMsg::Failure { status, message } => Err(
                ClientError::RemoteFailure { status, message },
            ),
            ResponseMsg::Success { energy, forces } => {
                let expected = 3 * n;
                if forces.len() != expected {
                    return Err(
                        ClientError::ForceCountMismatch {
                            expected_len: expected,
                            actual_len: forces.len(),
                        },
                    );
                }
                let mut shape: Vec<i64> = Vec::new();
                shape.push(n as i64);
                shape.push(3);
                proof {
                    lemma_two_dim_suffix_prods(shape@, n as i64, 3i64);
                }
                let forces_tensor = create_owned_f64_tensor(forces, shape);
                output.forces = Some(forces_tensor);
                output.energy = energy;
                Ok(())
            },
        }
    }
}

} // verus!
