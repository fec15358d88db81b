//! Deterministic node identities: a node index fixes the key seed, and the seed
//! fixes the Ed25519 key pair.
use vstd::prelude::*;

verus! {

/// Byte `i` of the little-endian encoding of `index`.
pub open spec fn le_byte(index: u64, i: int) -> u8 {
    ((index >> ((8 * i) as u64)) & 0xffu64) as u8
}

/// The key seed of a node: its index in little-endian order in the first eight
/// bytes, zeros after.
pub open spec fn seed_of(index: u64) -> Seq<u8> {
    Seq::new(32, |i: int| if i < 8 { le_byte(index, i) } else { 0u8 })
}

/// The protobuf encoding of the Ed25519 public key whose secret key is `seed`.
pub uninterp spec fn ed25519_public_key_of(seed: Seq<u8>) -> Seq<u8>;

/// The bytes of the peer id of the Ed25519 key pair whose secret key is `seed`.
pub uninterp spec fn ed25519_peer_id_of(seed: Seq<u8>) -> Seq<u8>;

/// A node's identity: the seed it was derived from, its encoded public key
/// and its peer id.
pub struct Identity {
    pub index: u64,
    pub seed: [u8; 32],
    pub public_key: Vec<u8>,
    pub peer_id: Vec<u8>,
}

impl Identity {
    /// The identity that `derive_identity(index)` yields.
    pub open spec fn is_derived_from(&self, index: u64) -> bool {
        &&& self.index == index
        &&& self.seed@ == seed_of(index)
        &&& self.public_key@ == ed25519_public_key_of(seed_of(index))
        &&& self.peer_id@ == ed25519_peer_id_of(seed_of(index))
    }
}

/// Relies on `libp2p::identity::Keypair::ed25519_from_bytes`, which accepts any
/// 32-byte secret key, and on `PublicKey::encode_protobuf` of its public half.
/// The encoding depends on the seed alone.
#[verifier::external_body]
fn ed25519_public_key(seed: [u8; 32]) -> (r: Option<Vec<u8>>)
    ensures
        r is Some,
        r->0@ == ed25519_public_key_of(seed@),
{
    match libp2p::identity::Keypair::ed25519_from_bytes(seed) {
        Ok(k) => Some(k.public().encode_protobuf()),
        Err(_) => None,
    }
}

/// Relies on `libp2p::identity::Keypair::ed25519_from_bytes`, which accepts any
/// 32-byte secret key, and on `PeerId::from_public_key` and `PeerId::to_bytes`
/// for its public half. The bytes depend on the seed alone.
#[verifier::external_body]
fn ed25519_peer_id(seed: [u8; 32]) -> (r: Option<Vec<u8>>)
    ensures
        r is Some,
        r->0@ == ed25519_peer_id_of(seed@),
{
    match libp2p::identity::Keypair::ed25519_from_bytes(seed) {
        Ok(k) => Some(libp2p::PeerId::from_public_key(&k.public()).to_bytes()),
        Err(_) => None,
    }
}

/// The key seed of node `index`.
pub fn seed_from_index(index: u64) -> (r: [u8; 32])
    ensures
        r@ == seed_of(index),
{
    let mut seed = [0u8; 32];
    let mut i: usize = 0;
    while i < 8
        invariant
            i <= 8,
            seed@.len() == 32,
            forall|j: int| 0 <= j < i ==> seed@[j] == le_byte(index, j),
            forall|j: int| 8 <= j < 32 ==> seed@[j] == 0u8,
        decreases 8 - i,
    {
        let b = ((index >> (8 * i) as u64) & 0xffu64) as u8;
        seed[i] = b;
        i = i + 1;
    }
    assert(seed@ =~= seed_of(index));
    seed
}

/// Derives node `index`'s identity. No I/O and no randomness take part.
pub fn derive_identity(index: u64) -> (r: Identity)
    ensures
        r.is_derived_from(index),
{
    let seed = seed_from_index(index);
    let public_key = match ed25519_public_key(seed) {
        Some(k) => k,
        None => Vec::new(),
    };
    let peer_id = match ed25519_peer_id(seed) {
        Some(p) => p,
        None => Vec::new(),
    };
    Identity { index, seed, public_key, peer_id }
}

/// Deriving an identity is a function of the index: two derivations from the
/// same index agree byte for byte.
pub proof fn lemma_derivation_deterministic(a: Identity, b: Identity, index: u64)
    requires
        a.is_derived_from(index),
        b.is_derived_from(index),
    ensures
        a.seed@ == b.seed@,
        a.public_key@ == b.public_key@,
        a.peer_id@ == b.peer_id@,
{
}

/// Distinct node indices have seeds that differ in at least one of their first
/// eight bytes.
pub proof fn lemma_distinct_indices_distinct_seeds(a: u64, b: u64)
    requires
        a != b,
    ensures
        seed_of(a) != seed_of(b),
        exists|i: int| 0 <= i < 8 && #[trigger] seed_of(a)[i] != seed_of(b)[i],
{
    if forall|i: int| 0 <= i < 8 ==> #[trigger] seed_of(a)[i] == seed_of(b)[i] {
        assert(le_byte(a, 0) == le_byte(b, 0)) by { assert(seed_of(a)[0] == seed_of(b)[0]); }
        assert(le_byte(a, 1) == le_byte(b, 1)) by { assert(seed_of(a)[1] == seed_of(b)[1]); }
        assert(le_byte(a, 2) == le_byte(b, 2)) by { assert(seed_of(a)[2] == seed_of(b)[2]); }
        assert(le_byte(a, 3) == le_byte(b, 3)) by { assert(seed_of(a)[3] == seed_of(b)[3]); }
        assert(le_byte(a, 4) == le_byte(b, 4)) by { assert(seed_of(a)[4] == seed_of(b)[4]); }
        assert(le_byte(a, 5) == le_byte(b, 5)) by { assert(seed_of(a)[5] == seed_of(b)[5]); }
        assert(le_byte(a, 6) == le_byte(b, 6)) by { assert(seed_of(a)[6] == seed_of(b)[6]); }
        assert(le_byte(a, 7) == le_byte(b, 7)) by { assert(seed_of(a)[7] == seed_of(b)[7]); }
        assert(a == b) by (bit_vector)
            requires
                ((a >> 0u64) & 0xffu64) as u8 == ((b >> 0u64) & 0xffu64) as u8,
                ((a >> 8u64) & 0xffu64) as u8 == ((b >> 8u64) & 0xffu64) as u8,
                ((a >> 16u64) & 0xffu64) as u8 == ((b >> 16u64) & 0xffu64) as u8,
                ((a >> 24u64) & 0xffu64) as u8 == ((b >> 24u64) & 0xffu64) as u8,
                ((a >> 32u64) & 0xffu64) as u8 == ((b >> 32u64) & 0xffu64) as u8,
                ((a >> 40u64) & 0xffu64) as u8 == ((b >> 40u64) & 0xffu64) as u8,
                ((a >> 48u64) & 0xffu64) as u8 == ((b >> 48u64) & 0xffu64) as u8,
                ((a >> 56u64) & 0xffu64) as u8 == ((b >> 56u64) & 0xffu64) as u8,
        ;
    }
}

} // verus!
