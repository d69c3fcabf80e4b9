//! The identity of a node, derived from a numeric seed: the same seed gives
//! the same secret key, and with it the same public identity.
use vstd::prelude::*;

verus! {

/// Number of bytes in a secret key, and in a public identity.
pub const KEY_SIZE: usize = 32;

/// The weight of the byte at `index` among the eight bytes of a seed, the
/// most significant byte first.
pub open spec fn place(index: int) -> int {
    if index == 0 {
        0x100_0000_0000_0000
    } else if index == 1 {
        0x1_0000_0000_0000
    } else if index == 2 {
        0x100_0000_0000
    } else if index == 3 {
        0x1_0000_0000
    } else if index == 4 {
        0x100_0000
    } else if index == 5 {
        0x1_0000
    } else if index == 6 {
        0x100
    } else {
        1
    }
}

/// The secret key of a seed: the seed's eight bytes, most significant first,
/// and then zeros.
pub open spec fn secret_of(seed: u64) -> Seq<u8> {
    Seq::new(
        KEY_SIZE as nat,
        |i: int|
            if i < 8 {
                ((seed as int / place(i)) % 256) as u8
            } else {
                0u8
            },
    )
}

/// The public key that `ed25519_dalek` derives from the secret key made of
/// the 32 bytes `secret`.
pub uninterp spec fn public_key_of(secret: Seq<u8>) -> Seq<u8>;

/// Reads the secret key with `ipfs_embed::SecretKey::from_bytes`, derives the
/// public key with `ipfs_embed::PublicKey::from` and returns its 32 bytes.
/// Believed, not proved: the secret is read exactly where it has 32 bytes,
/// and the public key depends on those bytes alone.
#[verifier::external_body]
fn public_key(secret: &Vec<u8>) -> (public: Option<Vec<u8>>)
    ensures
        public is Some <==> secret@.len() == KEY_SIZE,
        public is Some ==> public->0@ == public_key_of(secret@) && public->0@.len() == KEY_SIZE,
{
    match ipfs_embed::SecretKey::from_bytes(secret.as_slice()) {
        Ok(key) => Some(ipfs_embed::PublicKey::from(&key).to_bytes().to_vec()),
        Err(_) => None,
    }
}

/// The secret key of `seed`.
pub fn secret_key_bytes(seed: u64) -> (secret: Vec<u8>)
    ensures
        secret@ == secret_of(seed),
{
    let mut secret: Vec<u8> = Vec::new();
    assert((seed >> 56) & 0xff == (seed / 0x100_0000_0000_0000) % 256) by (bit_vector);
    assert((seed >> 48) & 0xff == (seed / 0x1_0000_0000_0000) % 256) by (bit_vector);
    assert((seed >> 40) & 0xff == (seed / 0x100_0000_0000) % 256) by (bit_vector);
    assert((seed >> 32) & 0xff == (seed / 0x1_0000_0000) % 256) by (bit_vector);
    assert((seed >> 24) & 0xff == (seed / 0x100_0000) % 256) by (bit_vector);
    assert((seed >> 16) & 0xff == (seed / 0x1_0000) % 256) by (bit_vector);
    assert((seed >> 8) & 0xff == (seed / 0x100) % 256) by (bit_vector);
    assert(seed & 0xff == (seed / 1) % 256) by (bit_vector);
    secret.push(((seed >> 56) & 0xff) as u8);
    secret.push(((seed >> 48) & 0xff) as u8);
    secret.push(((seed >> 40) & 0xff) as u8);
    secret.push(((seed >> 32) & 0xff) as u8);
    secret.push(((seed >> 24) & 0xff) as u8);
    secret.push(((seed >> 16) & 0xff) as u8);
    secret.push(((seed >> 8) & 0xff) as u8);
    secret.push((seed & 0xff) as u8);
    while secret.len() < KEY_SIZE
        invariant
            8 <= secret@.len() <= KEY_SIZE,
            forall|i: int| 0 <= i < 8 ==> secret@[i] == secret_of(seed)[i],
            forall|i: int| 8 <= i < secret@.len() ==> secret@[i] == 0,
        decreases KEY_SIZE - secret@.len(),
    {
        secret.push(0);
    }
    assert(secret@ =~= secret_of(seed));
    secret
}

/// The public identity of the node with `seed`: the public key of the seed's
/// secret key. It depends on the seed alone.
pub fn derive_identity(seed: u64) -> (identity: Vec<u8>)
    ensures
        identity@ == public_key_of(secret_of(seed)),
        identity@.len() == KEY_SIZE,
{
    let secret = secret_key_bytes(seed);
    match public_key(&secret) {
        Some(identity) => identity,
        None => {
            assert(false);
            Vec::new()
        },
    }
}

/// Two seeds with the same secret key are the same seed.
pub proof fn lemma_secret_injective(a: u64, b: u64)
    requires
        secret_of(a) == secret_of(b),
    ensures
        a == b,
{
    assert(secret_of(a)[0] == secret_of(b)[0]);
    assert(secret_of(a)[0] as u64 == (a / 0x100_0000_0000_0000u64) % 256);
    assert(secret_of(b)[0] as u64 == (b / 0x100_0000_0000_0000u64) % 256);
    assert(secret_of(a)[1] == secret_of(b)[1]);
    assert(secret_of(a)[1] as u64 == (a / 0x1_0000_0000_0000u64) % 256);
    assert(secret_of(b)[1] as u64 == (b / 0x1_0000_0000_0000u64) % 256);
    assert(secret_of(a)[2] == secret_of(b)[2]);
    assert(secret_of(a)[2] as u64 == (a / 0x100_0000_0000u64) % 256);
    assert(secret_of(b)[2] as u64 == (b / 0x100_0000_0000u64) % 256);
    assert(secret_of(a)[3] == secret_of(b)[3]);
    assert(secret_of(a)[3] as u64 == (a / 0x1_0000_0000u64) % 256);
    assert(secret_of(b)[3] as u64 == (b / 0x1_0000_0000u64) % 256);
    assert(secret_of(a)[4] == secret_of(b)[4]);
    assert(secret_of(a)[4] as u64 == (a / 0x100_0000u64) % 256);
    assert(secret_of(b)[4] as u64 == (b / 0x100_0000u64) % 256);
    assert(secret_of(a)[5] == secret_of(b)[5]);
    assert(secret_of(a)[5] as u64 == (a / 0x1_0000u64) % 256);
    assert(secret_of(b)[5] as u64 == (b / 0x1_0000u64) % 256);
    assert(secret_of(a)[6] == secret_of(b)[6]);
    assert(secret_of(a)[6] as u64 == (a / 0x100u64) % 256);
    assert(secret_of(b)[6] as u64 == (b / 0x100u64) % 256);
    assert(secret_of(a)[7] == secret_of(b)[7]);
    assert(secret_of(a)[7] as u64 == (a / 1u64) % 256);
    assert(secret_of(b)[7] as u64 == (b / 1u64) % 256);
    assert((a / 0x100_0000_0000_0000) % 256 == (b / 0x100_0000_0000_0000) % 256 && (a
        / 0x1_0000_0000_0000) % 256 == (b / 0x1_0000_0000_0000) % 256 && (a / 0x100_0000_0000)
        % 256 == (b / 0x100_0000_0000) % 256 && (a / 0x1_0000_0000) % 256 == (b / 0x1_0000_0000)
        % 256 && (a / 0x100_0000) % 256 == (b / 0x100_0000) % 256 && (a / 0x1_0000) % 256 == (b
        / 0x1_0000) % 256 && (a / 0x100) % 256 == (b / 0x100) % 256 && (a / 1) % 256 == (b / 1) % 256
        ==> a == b) by (bit_vector);
}

} // verus!
