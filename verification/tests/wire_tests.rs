use rgpot_core::status::rgpot_status_t;
use rgpot_core::wire::{
    bits_to_i32, decode_request, decode_response, decode_u32_le, decode_u64_le, encode_request,
    encode_response_failure, encode_response_result, encode_u32_le, encode_u64_le, i32_to_bits,
    status_code, status_of_code, ResponseMsg, KIND_CALCULATE, WIRE_VERSION,
};

#[test]
fn u64_encodes_little_endian() {
    let mut out: Vec<u8> = Vec::new();
    encode_u64_le(0x0102_0304_0506_0708, &mut out);
    assert_eq!(out, vec![0x08, 0x07, 0x06, 0x05, 0x04, 0x03, 0x02, 0x01]);
    assert_eq!(decode_u64_le(&out, 0), 0x0102_0304_0506_0708);
}

#[test]
fn u32_encodes_little_endian() {
    let mut out: Vec<u8> = Vec::new();
    encode_u32_le(0xAABB_CCDD, &mut out);
    assert_eq!(out, vec![0xDD, 0xCC, 0xBB, 0xAA]);
    assert_eq!(decode_u32_le(&out, 0), 0xAABB_CCDD);
}

#[test]
fn i32_bits_round_trip() {
    for v in [0, 1, -1, 17, -42, i32::MAX, i32::MIN] {
        assert_eq!(bits_to_i32(i32_to_bits(v)), v);
        assert_eq!(i32_to_bits(v), v as u32);
    }
}

#[test]
fn status_codes_round_trip() {
    let all = [
        rgpot_status_t::RGPOT_SUCCESS,
        rgpot_status_t::RGPOT_INVALID_PARAMETER,
        rgpot_status_t::RGPOT_INTERNAL_ERROR,
        rgpot_status_t::RGPOT_RPC_ERROR,
        rgpot_status_t::RGPOT_BUFFER_SIZE_ERROR,
    ];
    for s in all {
        assert_eq!(status_of_code(status_code(s)), Some(s));
    }
    assert_eq!(status_of_code(200), None);
}

#[test]
fn request_round_trips() {
    let positions: Vec<u64> = (0..6).map(|i| (i as f64).to_bits()).collect();
    let atomic_numbers = vec![1, 8];
    let box_matrix: Vec<u64> = (0..9).map(|i| (i as f64 * 0.5).to_bits()).collect();

    let bytes = encode_request(&positions, &atomic_numbers, &box_matrix);
    assert_eq!(bytes.len(), 78 + 28 * 2);
    assert_eq!(bytes[0], WIRE_VERSION);
    assert_eq!(bytes[1], KIND_CALCULATE);

    let (p, a, b) = decode_request(&bytes).expect("request must decode");
    assert_eq!(p, positions);
    assert_eq!(a, atomic_numbers);
    assert_eq!(b, box_matrix);
}

#[test]
fn empty_request_round_trips() {
    let bytes = encode_request(&Vec::new(), &Vec::new(), &vec![0; 9]);
    let (p, a, b) = decode_request(&bytes).expect("request must decode");
    assert!(p.is_empty());
    assert!(a.is_empty());
    assert_eq!(b.len(), 9);
}

#[test]
fn garbage_request_is_rejected() {
    assert!(decode_request(&Vec::new()).is_none());
    assert!(decode_request(&vec![0, 1, 2]).is_none());
    // right header, wrong length
    let mut bytes = encode_request(&vec![0; 3], &vec![1], &vec![0; 9]);
    bytes.pop();
    assert!(decode_request(&bytes).is_none());
    // wrong version
    let mut bytes = encode_request(&vec![0; 3], &vec![1], &vec![0; 9]);
    bytes[0] = WIRE_VERSION + 1;
    assert!(decode_request(&bytes).is_none());
}

#[test]
fn result_response_round_trips() {
    let forces: Vec<u64> = (0..6).map(|i| (i as f64).to_bits()).collect();
    let energy = (-3.5f64).to_bits();
    let bytes = encode_response_result(energy, &forces);
    assert_eq!(bytes.len(), 14 + 8 * 6);
    match decode_response(&bytes) {
        Some(ResponseMsg::Success { energy: e, forces: f }) => {
            assert_eq!(e, energy);
            assert_eq!(f, forces);
        },
        other => panic!("expected a result, got {:?}", other),
    }
}

#[test]
fn failure_response_round_trips() {
    let message = b"remote evaluator failed".to_vec();
    let bytes = encode_response_failure(rgpot_status_t::RGPOT_INTERNAL_ERROR, &message);
    match decode_response(&bytes) {
        Some(ResponseMsg::Failure { status, message: m }) => {
            assert_eq!(status, rgpot_status_t::RGPOT_INTERNAL_ERROR);
            assert_eq!(m, message);
        },
        other => panic!("expected a failure, got {:?}", other),
    }
}

#[test]
fn garbage_response_is_rejected() {
    assert!(decode_response(&Vec::new()).is_none());
    assert!(decode_response(&vec![WIRE_VERSION, 9]).is_none());
    let mut bytes = encode_response_result((1.0f64).to_bits(), &vec![0; 3]);
    bytes.push(0);
    assert!(decode_response(&bytes).is_none());
}
