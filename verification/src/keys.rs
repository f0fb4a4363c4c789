//! Partial-key derivation: the fixed shared secret, and the base64
//! encoding of the slice of it that the server selects during step 1 of
//! the handshake.

use vstd::prelude::*;
use base64::Engine;

use crate::errors::{ProtocolFault, RadikoError};

verus! {

/// Length in bytes of the fixed shared secret.
pub const SECRET_LEN: usize = 40;

/// The fixed shared secret the service expects partial keys to be
/// sliced from (the bytes of its published authorization key).
pub open spec fn spec_auth_key() -> Seq<u8> {
    seq![
        98u8,
        99,
        100,
        49,
        53,
        49,
        48,
        55,
        51,
        99,
        48,
        51,
        98,
        51,
        53,
        50,
        101,
        49,
        101,
        102,
        50,
        102,
        100,
        54,
        54,
        99,
        51,
        50,
        50,
        48,
        57,
        100,
        97,
        57,
        99,
        97,
        48,
        97,
        102,
        97,
    ]
}

/// The fixed shared secret as a byte vector.
pub fn radiko_auth_key() -> (r: Vec<u8>)
    ensures
        r@ == spec_auth_key(),
        r@.len() == SECRET_LEN,
{
    let v: Vec<u8> = vec![
        98u8, 99, 100, 49, 53, 49, 48, 55, 51, 99, 48, 51, 98, 51, 53, 50, 101, 49, 101, 102, 50,
        102, 100, 54, 54, 99, 51, 50, 50, 48, 57, 100, 97, 57, 99, 97, 48, 97, 102, 97,
    ];
    proof {
        assert(v@ =~= spec_auth_key());
    }
    v
}

/// The base64 text (standard alphabet, padded) that encodes a byte
/// sequence; a function of the bytes alone.
pub uninterp spec fn spec_b64_of(bytes: Seq<u8>) -> Seq<char>;

/// Relies on base64's `general_purpose::STANDARD` engine: the encoding is
/// a function of the input bytes alone, and the padded output holds four
/// characters for every started group of three input bytes.
#[verifier::external_body]
fn base64_encode(bytes: &Vec<u8>) -> (r: String)
    requires
        bytes@.len() <= 1000000,
    ensures
        r@ == spec_b64_of(bytes@),
        r@.len() == 4 * ((bytes@.len() + 2) / 3),
{
    base64::engine::general_purpose::STANDARD.encode(bytes.as_slice())
}

/// Derives the partial key for a server-chosen `(offset, length)` pair:
/// the base64 encoding of `secret[offset .. offset + length]`. A pair
/// that runs past the end of the secret is a protocol violation and is
/// rejected before anything is encoded.
pub fn derive_partial_key(offset: usize, length: usize) -> (r: Result<String, RadikoError>)
    ensures
        r is Ok <==> offset + length <= SECRET_LEN,
        r matches Ok(k) ==> k@ == spec_b64_of(
            spec_auth_key().subrange(offset as int, offset + length),
        ) && k@.len() == 4 * ((length + 2) / 3),
        r matches Err(e) ==> e == RadikoError::Protocol(ProtocolFault::KeyOutOfBounds),
{
    if offset > SECRET_LEN || length > SECRET_LEN - offset {
        return Err(RadikoError::Protocol(ProtocolFault::KeyOutOfBounds));
    }
    let key = radiko_auth_key();
    let mut slice: Vec<u8> = Vec::new();
    let mut i: usize = 0;
    while i < length
        invariant
            0 <= i <= length,
            offset + length <= SECRET_LEN,
            key@ == spec_auth_key(),
            slice@ =~= spec_auth_key().subrange(offset as int, offset + i),
        decreases length - i,
    {
        slice.push(key[offset + i]);
        i = i + 1;
    }
    let encoded = base64_encode(&slice);
    Ok(encoded)
}

} // verus!
