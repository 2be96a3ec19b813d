use rgpot_core::client::{ClientError, RpcClient};
use rgpot_core::potential::{PotentialCallback, PotentialImpl};
use rgpot_core::server::{build_query, serve_request_bytes, ServerError};
use rgpot_core::status::rgpot_status_t;
use rgpot_core::tensor::{create_owned_f64_tensor, DataBuf, Dtype};
use rgpot_core::types::{
    rgpot_force_input_create, rgpot_force_input_free, rgpot_force_out_create, rgpot_force_out_t,
    rgpot_force_input_t,
};
use rgpot_core::wire::{decode_response, ResponseMsg};

fn bits(values: &[f64]) -> Vec<u64> {
    values.iter().map(|v| v.to_bits()).collect()
}

/// Server-side evaluator: energy = n_atoms, zero forces.
struct ZeroForces;

impl PotentialCallback for ZeroForces {
    fn call(
        &mut self,
        input: &rgpot_force_input_t,
        output: &mut rgpot_force_out_t,
    ) -> rgpot_status_t {
        let n = input.n_atoms().unwrap_or(0);
        output.energy = (n as f64).to_bits();
        output.variance = (0.0f64).to_bits();
        output.forces = Some(create_owned_f64_tensor(
            vec![(0.0f64).to_bits(); n * 3],
            vec![n as i64, 3],
        ));
        rgpot_status_t::RGPOT_SUCCESS
    }
}

/// Server-side evaluator that always fails.
struct AlwaysFails;

impl PotentialCallback for AlwaysFails {
    fn call(
        &mut self,
        _input: &rgpot_force_input_t,
        _output: &mut rgpot_force_out_t,
    ) -> rgpot_status_t {
        rgpot_status_t::RGPOT_INTERNAL_ERROR
    }
}

/// One full round trip without the socket: the client prepares request
/// bytes, the server serves them, the client accepts the response.
fn round_trip(
    client: &RpcClient,
    server: &mut PotentialImpl<ZeroForces>,
    input: &rgpot_force_input_t,
    output: &mut rgpot_force_out_t,
) -> Result<(), ClientError> {
    let (n, request) = client.prepare_request(input)?;
    let reply = serve_request_bytes(server, &request);
    let response = decode_response(&reply).expect("server reply must decode");
    client.accept_response(n, response, output)
}

#[test]
fn end_to_end_two_atoms() {
    let client = RpcClient::new("localhost", 18080);
    let mut server = PotentialImpl::new(ZeroForces);

    let input = rgpot_force_input_create(
        2,
        bits(&[0.0, 0.0, 0.0, 1.0, 0.0, 0.0]),
        vec![1, 1],
        bits(&[10.0, 0.0, 0.0, 0.0, 10.0, 0.0, 0.0, 0.0, 10.0]),
    );
    let mut output = rgpot_force_out_create();

    round_trip(&client, &mut server, &input, &mut output).expect("round trip succeeds");

    assert_eq!(output.energy, (2.0f64).to_bits());
    let forces = output.forces.expect("forces attached");
    assert_eq!(forces.shape, vec![2, 3]);
    assert_eq!(forces.dtype, Dtype::F64);
    assert_eq!(forces.data, DataBuf::F64(bits(&[0.0; 6])));
    assert!(forces.is_copy);

    rgpot_force_input_free(input);
}

#[test]
fn varying_queries_each_get_matching_response() {
    // Five calls with different atom counts against one server handle:
    // every response carries exactly the energy and force count of its
    // own request.
    let client = RpcClient::new("localhost", 18080);
    let mut server = PotentialImpl::new(ZeroForces);

    for n in 1..=5_usize {
        let input = rgpot_force_input_create(
            n,
            bits(&vec![1.0; n * 3]),
            vec![1; n],
            bits(&[10.0, 0.0, 0.0, 0.0, 10.0, 0.0, 0.0, 0.0, 10.0]),
        );
        let mut output = rgpot_force_out_create();
        round_trip(&client, &mut server, &input, &mut output).expect("round trip succeeds");
        assert_eq!(output.energy, (n as f64).to_bits());
        match output.forces {
            Some(t) => {
                assert_eq!(t.shape, vec![n as i64, 3]);
                assert_eq!(t.data, DataBuf::F64(bits(&vec![0.0; n * 3])));
            },
            None => panic!("forces missing for n = {}", n),
        }
        rgpot_force_input_free(input);
    }
}

#[test]
fn remote_failure_reaches_client_with_status() {
    let client = RpcClient::new("localhost", 18080);
    let mut server = PotentialImpl::new(AlwaysFails);

    let input = rgpot_force_input_create(1, bits(&[0.0; 3]), vec![1], bits(&[0.0; 9]));
    let mut output = rgpot_force_out_create();

    let (n, request) = client.prepare_request(&input).expect("request prepared");
    let reply = serve_request_bytes(&mut server, &request);
    let response = decode_response(&reply).expect("server reply must decode");
    let err = client
        .accept_response(n, response, &mut output)
        .expect_err("remote failure surfaces");

    match err {
        ClientError::RemoteFailure { status, .. } => {
            assert_eq!(status, rgpot_status_t::RGPOT_INTERNAL_ERROR);
        },
        other => panic!("expected remote failure, got {:?}", other),
    }
    assert!(output.forces.is_none());
    assert_eq!(err.status(), rgpot_status_t::RGPOT_RPC_ERROR);

    rgpot_force_input_free(input);
}

#[test]
fn force_count_mismatch_is_rpc_error_and_attaches_nothing() {
    // A response whose force count disagrees with 3 n is rejected and no
    // forces tensor is attached.
    let client = RpcClient::new("localhost", 18080);
    let mut output = rgpot_force_out_create();
    output.energy = (7.0f64).to_bits();

    let response = ResponseMsg::Success {
        energy: (1.0f64).to_bits(),
        forces: bits(&[0.0; 5]),
    };
    let err = client
        .accept_response(2, response, &mut output)
        .expect_err("count mismatch rejected");
    assert_eq!(
        err,
        ClientError::ForceCountMismatch { expected_len: 6, actual_len: 5 }
    );
    assert_eq!(err.status(), rgpot_status_t::RGPOT_RPC_ERROR);
    assert!(output.forces.is_none());
    // nothing was touched: the energy set before the call is still there
    assert_eq!(output.energy, (7.0f64).to_bits());
}

#[test]
fn client_rejects_missing_tensor_before_sending() {
    let client = RpcClient::new("localhost", 18080);
    let input = rgpot_force_input_t {
        positions: None,
        atomic_numbers: None,
        box_matrix: None,
    };
    let err = client.prepare_request(&input).expect_err("missing tensor rejected");
    match err {
        ClientError::InvalidInput(_) => {},
        other => panic!("expected invalid input, got {:?}", other),
    }
    assert_eq!(err.status(), rgpot_status_t::RGPOT_INVALID_PARAMETER);
}

#[test]
fn client_rejects_shape_mismatch_as_buffer_size_error() {
    let client = RpcClient::new("localhost", 18080);
    // atomic-numbers count disagrees with the positions row count
    let input = rgpot_force_input_create(2, bits(&[0.0; 6]), vec![1, 1], bits(&[0.0; 9]));
    let bad = rgpot_force_input_t {
        positions: input.positions,
        atomic_numbers: Some(rgpot_core::tensor::rgpot_tensor_cpu_i32_1d(vec![1, 1, 1], 3)),
        box_matrix: input.box_matrix,
    };
    let err = client.prepare_request(&bad).expect_err("count mismatch rejected");
    assert_eq!(err.status(), rgpot_status_t::RGPOT_BUFFER_SIZE_ERROR);
    rgpot_force_input_free(bad);
    rgpot_core::tensor::rgpot_tensor_free(input.atomic_numbers);
}

#[test]
fn server_rejects_malformed_request_bytes() {
    let mut server = PotentialImpl::new(ZeroForces);
    let reply = serve_request_bytes(&mut server, &vec![1, 2, 3]);
    match decode_response(&reply) {
        Some(ResponseMsg::Failure { status, .. }) => {
            assert_eq!(status, rgpot_status_t::RGPOT_RPC_ERROR);
        },
        other => panic!("expected failure reply, got {:?}", other),
    }
}

#[test]
fn server_rejects_inconsistent_sequence_lengths() {
    let r = build_query(bits(&[0.0; 5]), vec![1, 1], bits(&[0.0; 9]));
    assert_eq!(
        r.map(|_| ()),
        Err(ServerError::PositionCountMismatch { n_atoms: 2, positions_len: 5 })
    );
    let r = build_query(bits(&[0.0; 6]), vec![1, 1], bits(&[0.0; 8]));
    assert_eq!(r.map(|_| ()), Err(ServerError::BoxCountMismatch { box_len: 8 }));
}

#[test]
fn client_records_target_endpoint() {
    let client = RpcClient::new("example.test", 4217);
    assert_eq!(client.host, "example.test");
    assert_eq!(client.port, 4217);
}
