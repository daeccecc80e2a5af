use proof_of_sql_benchlib::curve::{
    bytes_to_limbs, convert_point_repr, limbs_to_bytes, recover_point_repr, SourcePointRepr,
    TargetPointRepr,
};

#[test]
fn limb_bytes_round_trip() {
    let limbs: Vec<u64> = vec![0x0123_4567_89ab_cdef, 0, u64::MAX, 42];
    let bytes = limbs_to_bytes(&limbs);
    assert_eq!(bytes.len(), 32);
    assert_eq!(bytes[0], 0xef);
    assert_eq!(bytes[7], 0x01);
    assert_eq!(bytes_to_limbs(&bytes), limbs);
}

#[test]
fn finite_point_converts_coordinatewise_and_back() {
    let p = SourcePointRepr {
        infinity: false,
        x: vec![1, 2, 3, 4],
        y: vec![5, 6, 7, 8],
    };
    let q = convert_point_repr(&p);
    match &q {
        TargetPointRepr::Finite { x, y } => {
            assert_eq!(x.len(), 32);
            assert_eq!(y.len(), 32);
            assert_eq!(x[0], 1);
            assert_eq!(y[0], 5);
        },
        TargetPointRepr::Identity => panic!("finite point must stay finite"),
    }
    let back = recover_point_repr(&q);
    assert!(!back.infinity);
    assert_eq!(back.x, vec![1, 2, 3, 4]);
    assert_eq!(back.y, vec![5, 6, 7, 8]);
}

#[test]
fn infinity_maps_to_the_identity_value() {
    let p = SourcePointRepr {
        infinity: true,
        x: vec![9, 9, 9, 9],
        y: vec![9, 9, 9, 9],
    };
    let q = convert_point_repr(&p);
    assert!(matches!(q, TargetPointRepr::Identity));
    let back = recover_point_repr(&q);
    assert!(back.infinity);
}
