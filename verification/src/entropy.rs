//! Random values for passkey ceremonies.

use vstd::prelude::*;

verus! {

/// What a new passkey is made from.
#[derive(Debug, Clone, Copy)]
pub struct PasskeySeed {
    pub prf_salt: [u8; 32],
    pub challenge: [u8; 32],
    pub user_id: [u8; 16],
}

/// `rand::rng` and `rand::RngExt::random` for an array of bytes: any value may come back. A failure
/// of the system's source of randomness makes `rng` panic while the generator is first seeded, and
/// `random` while it is seeded anew.
#[verifier::external_body]
fn random_bytes<const N: usize>() -> [u8; N] {
    rand::RngExt::random(&mut rand::rng())
}

/// A fresh challenge for one passkey ceremony.
pub fn fresh_challenge() -> [u8; 32] {
    random_bytes::<32>()
}

/// Fresh values for a new passkey.
pub fn fresh_passkey_seed() -> PasskeySeed {
    let prf_salt: [u8; 32] = random_bytes::<32>();
    let challenge: [u8; 32] = random_bytes::<32>();
    let user_id: [u8; 16] = random_bytes::<16>();
    PasskeySeed { prf_salt, challenge, user_id }
}

/// The 32 bytes of `bytes`, or `None` if it has another length.
pub fn key_from_bytes(bytes: &Vec<u8>) -> (key: Option<[u8; 32]>)
    ensures
        key is Some <==> bytes@.len() == 32,
        key matches Some(value) ==> value@ == bytes@,
{
    if bytes.len() != 32 {
        return None;
    }
    let mut key: [u8; 32] = [0u8; 32];
    let mut i: usize = 0;
    while i < 32
        invariant
            i <= 32,
            bytes@.len() == 32,
            forall|j: int| 0 <= j < i ==> key@[j] == bytes@[j],
        decreases 32 - i,
    {
        key[i] = bytes[i];
        i += 1;
    }
    assert(key@ =~= bytes@);
    Some(key)
}

/// The bytes of `key`, in order.
pub fn bytes_of_key(key: &[u8; 32]) -> (bytes: Vec<u8>)
    ensures
        bytes@ == key@,
{
    let mut bytes: Vec<u8> = Vec::new();
    let mut i: usize = 0;
    while i < 32
        invariant
            i <= 32,
            bytes@ =~= key@.subrange(0, i as int),
        decreases 32 - i,
    {
        bytes.push(key[i]);
        i += 1;
    }
    bytes
}

/// A key is made of 32 bytes and of no other number of bytes, and gives the same bytes back.
pub proof fn law_key_holds_its_bytes(
    bytes: Vec<u8>,
    key: Option<[u8; 32]>,
    made: [u8; 32],
    given: Vec<u8>,
)
    requires
        call_ensures(key_from_bytes, (&bytes,), key),
        call_ensures(bytes_of_key, (&made,), given),
    ensures
        key is Some <==> bytes@.len() == 32,
        key == Some(made) ==> given@ == bytes@,
{
}

} // verus!
