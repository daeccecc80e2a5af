use ark_serialize::CanonicalSerialize;
use proof_of_sql_benchlib::{load_setup_from_bytes, BenchRunError};

fn generator_compressed() -> Vec<u8> {
    let g = ark_bn254::G1Affine::new(ark_bn254::Fq::from(1u64), ark_bn254::Fq::from(2u64));
    let mut bytes = Vec::new();
    g.serialize_compressed(&mut bytes).expect("serialize");
    assert_eq!(bytes.len(), 32);
    bytes
}

#[test]
fn a_flat_stream_of_points_loads_in_order() {
    let one = generator_compressed();
    let stream = [one.clone(), one.clone(), one].concat();
    let setup = load_setup_from_bytes(&stream).unwrap_or_else(|_| panic!("valid stream"));
    assert_eq!(setup.prover_points.len(), 3);
    assert_eq!(setup.converted_points.len(), 3);
    assert!(!setup.prover_points[0].infinity);
}

#[test]
fn conversion_preserves_the_point_across_libraries() {
    // The source generator (1, 2) must come out as the target library's
    // (1, 2), not as a reinterpretation of unrelated bytes.
    let setup = load_setup_from_bytes(&generator_compressed()).unwrap_or_else(|_| panic!("valid stream"));
    let expected = halo2curves::bn256::G1Affine {
        x: halo2curves::bn256::Fq::from_raw([1, 0, 0, 0]),
        y: halo2curves::bn256::Fq::from_raw([2, 0, 0, 0]),
    };
    assert_eq!(setup.converted_points[0], expected);
}

#[test]
fn infinity_converts_to_the_identity_value() {
    let mut bytes = vec![0u8; 32];
    bytes[31] = 0x40;
    let setup = load_setup_from_bytes(&bytes).unwrap_or_else(|_| panic!("the infinity point"));
    assert!(setup.prover_points[0].infinity);
    assert_eq!(
        setup.converted_points[0],
        halo2curves::bn256::G1Affine::default()
    );
}

#[test]
fn a_truncated_stream_is_a_setup_error() {
    let mut stream = generator_compressed();
    stream.truncate(20);
    match load_setup_from_bytes(&stream) {
        Ok(_) => panic!("a truncated stream must fail"),
        Err(err) => assert!(matches!(err, BenchRunError::Setup(_))),
    }
}

#[test]
fn an_invalid_point_is_a_setup_error() {
    let stream = vec![0xffu8; 32];
    match load_setup_from_bytes(&stream) {
        Ok(_) => panic!("an invalid point must fail"),
        Err(err) => assert!(matches!(err, BenchRunError::Setup(_))),
    }
}

#[test]
fn an_empty_stream_is_an_empty_setup() {
    let setup = load_setup_from_bytes(&[]).unwrap_or_else(|_| panic!("empty stream"));
    assert!(setup.prover_points.is_empty());
    assert!(setup.converted_points.is_empty());
}
