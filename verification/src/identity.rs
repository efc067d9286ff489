//! The node identity: a persistent secret key and its derived public
//! identifier.

use vstd::prelude::*;

verus! {

/// Byte length of a well-formed secret key of the Ed25519-class scheme.
pub const SECRET_KEY_LENGTH: usize = 32;

/// Byte length of the derived public node identifier.
pub const NODE_ID_LENGTH: usize = 32;

/// The public key that the signature scheme derives from a well-formed
/// 32-byte secret key.  The derivation is a pure function of the seed: the
/// same seed gives the same public key in every process and on every
/// machine.
pub uninterp spec fn public_key_of(seed: Seq<u8>) -> Seq<u8>;

/// The node's persistent private scalar for an Ed25519-class signature
/// scheme.
///
/// A value of this type may hold bytes of any length, so that a caller can
/// carry key material read from configuration; whether the bytes form a
/// well-formed key is checked at the point the key is first used, and an
/// ill-formed key fails fast there.
pub struct SecretKey {
    bytes: Vec<u8>,
}

impl View for SecretKey {
    type V = Seq<u8>;

    closed spec fn view(&self) -> Seq<u8> {
        self.bytes@
    }
}

/// Relies on `ed25519_dalek::SigningKey::from_bytes` and
/// `ed25519_dalek::VerifyingKey::to_bytes`: the verifying key of a 32-byte
/// seed is a pure function of that seed, and is itself 32 bytes long.
#[verifier::external_body]
fn derive_public_key(seed: &Vec<u8>) -> (r: Vec<u8>)
    requires
        seed@.len() == SECRET_KEY_LENGTH,
    ensures
        r@ == public_key_of(seed@),
        r@.len() == NODE_ID_LENGTH,
{
    let mut raw = [0u8; 32];
    raw.copy_from_slice(&seed[..]);
    let signing_key = ed25519_dalek::SigningKey::from_bytes(&raw);
    signing_key.verifying_key().to_bytes().to_vec()
}

impl SecretKey {
    /// Wrap raw key bytes.  No validation happens here: an ill-formed key
    /// is rejected where it is first used.
    pub fn from_bytes(bytes: Vec<u8>) -> (k: SecretKey)
        ensures
            k@ == bytes@,
    {
        SecretKey { bytes }
    }

    /// The raw bytes of the key.
    pub fn as_bytes(&self) -> (r: &Vec<u8>)
        ensures
            r@ == self@,
    {
        &self.bytes
    }

    /// A well-formed key holds exactly the scheme-defined number of bytes.
    /// Every 32-byte value is a valid Ed25519-class private scalar.
    pub open spec fn is_well_formed(self) -> bool {
        self@.len() == SECRET_KEY_LENGTH
    }

    /// Runtime check for [`SecretKey::is_well_formed`].
    pub fn well_formed(&self) -> (b: bool)
        ensures
            b == self.is_well_formed(),
    {
        self.bytes.len() == SECRET_KEY_LENGTH
    }

    /// The public node identifier derived from this key: the token by which
    /// other peers address this node.
    pub fn node_identifier(&self) -> (r: Vec<u8>)
        requires
            self.is_well_formed(),
        ensures
            r@ == public_key_of(self@),
            r@.len() == NODE_ID_LENGTH,
    {
        derive_public_key(&self.bytes)
    }
}

} // verus!
