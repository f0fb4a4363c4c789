use radiko_recorder::errors::{ProtocolFault, RadikoError};
use radiko_recorder::keys::{derive_partial_key, radiko_auth_key, SECRET_LEN};

#[test]
fn secret_is_the_published_authorization_key() {
    let key = radiko_auth_key();
    assert_eq!(key.len(), SECRET_LEN);
    assert_eq!(key, b"bcd151073c03b352e1ef2fd66c32209da9ca0afa".to_vec());
}

#[test]
fn first_eight_bytes_encode_to_known_literal() {
    // The first eight secret bytes are "bcd15107"; their padded base64
    // encoding is fixed.
    let key = derive_partial_key(0, 8).unwrap();
    assert_eq!(key, "YmNkMTUxMDc=");
}

#[test]
fn derivation_is_deterministic() {
    let a = derive_partial_key(5, 17).unwrap();
    let b = derive_partial_key(5, 17).unwrap();
    assert_eq!(a, b);
}

#[test]
fn encoded_length_is_four_per_started_triple() {
    for length in 0..=SECRET_LEN {
        let key = derive_partial_key(0, length).unwrap();
        assert_eq!(key.len(), ((length + 2) / 3) * 4);
    }
}

#[test]
fn interior_slices_encode_exactly() {
    // bytes 3..6 are "151"
    assert_eq!(derive_partial_key(3, 3).unwrap(), "MTUx");
    // bytes 0..3 are "bcd"
    assert_eq!(derive_partial_key(0, 3).unwrap(), "YmNk");
    // the empty slice encodes to the empty string
    assert_eq!(derive_partial_key(40, 0).unwrap(), "");
}

#[test]
fn out_of_bounds_pairs_are_rejected() {
    for (offset, length) in [(33usize, 8usize), (41, 0), (0, 41), (40, 1), (1000, 1000)] {
        let r = derive_partial_key(offset, length);
        assert!(matches!(
            r,
            Err(RadikoError::Protocol(ProtocolFault::KeyOutOfBounds))
        ));
    }
}

#[test]
fn boundary_pair_is_accepted() {
    assert!(derive_partial_key(35, 5).is_ok());
    assert!(derive_partial_key(0, 40).is_ok());
    // a full-secret encoding covers 14 started triples
    assert_eq!(derive_partial_key(0, 40).unwrap().len(), 56);
}
