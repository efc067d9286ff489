//! The credential resolver: from a node identity and an authentication
//! mode to the one immutable credential that answers every handshake query.

use vstd::prelude::*;

use std::sync::Arc;

use crate::error::CreateConfigError;
use crate::identity::public_key_of;
use crate::identity::SecretKey;
use crate::identity::NODE_ID_LENGTH;
use crate::mode::AuthenticationMode;
use crate::tls;

verus! {

/// The fixed DER SubjectPublicKeyInfo header that precedes a 32-byte
/// Ed25519 public key: the outer SEQUENCE, the Ed25519 algorithm
/// identifier, and the BIT STRING header.
pub open spec fn ed25519_spki_header() -> Seq<u8> {
    seq![0x30u8, 0x2au8, 0x30u8, 0x05u8, 0x06u8, 0x03u8, 0x2bu8, 0x65u8, 0x70u8, 0x03u8, 0x21u8, 0x00u8]
}

/// The DER SubjectPublicKeyInfo encoding of a 32-byte Ed25519 public key:
/// the fixed header followed by the raw key bytes.  This is the shape of
/// the sole chain entry that a raw-key credential presents.
pub open spec fn ed25519_spki(public_key: Seq<u8>) -> Seq<u8> {
    ed25519_spki_header() + public_key
}

/// The output of the certificate materializer, an external collaborator:
/// a self-signed certificate in DER form together with the DER of the
/// private key that signs for it.
///
/// The materializer is specified at its boundary only: it is deterministic
/// in the secret key, and the certificate's subject public key equals the
/// node identifier derived from that key.  Its internal X.509 encoding is
/// no concern of this crate, which never parses the certificate bytes.
pub struct CertificateMaterial {
    /// The self-signed certificate, DER-encoded.
    pub cert_der: Vec<u8>,
    /// The private signing key bound to the certificate, DER-encoded
    /// (PKCS#8, elliptic-curve-class).
    pub signing_key_der: Vec<u8>,
}

/// The resolved, TLS-presentable artifact: an ordered chain of exactly one
/// certificate-like entry plus a private signer bound to that entry.
///
/// A credential is immutable after construction and shared read-only by
/// every concurrent handshake; the resolver never mutates or replaces it.
pub struct Credential {
    chain: Vec<Vec<u8>>,
    public_key: Vec<u8>,
    key: Arc<rustls::sign::CertifiedKey>,
}

impl Credential {
    /// The bytes of each chain entry, in presentation order.
    pub closed spec fn spec_chain(&self) -> Seq<Seq<u8>> {
        self.chain@.map_values(|entry: Vec<u8>| entry@)
    }

    /// The raw public key bound to the signer: the node identifier this
    /// credential asserts.
    pub closed spec fn spec_public_key(&self) -> Seq<u8> {
        self.public_key@
    }

    /// The presentable key handed to the TLS layer.
    pub closed spec fn spec_certified_key(&self) -> Arc<rustls::sign::CertifiedKey> {
        self.key
    }

    /// Number of chain entries.
    pub fn chain_len(&self) -> (n: usize)
        ensures
            n == self.spec_chain().len(),
    {
        self.chain.len()
    }

    /// The chain entry at `index`.
    pub fn chain_entry(&self, index: usize) -> (entry: &Vec<u8>)
        requires
            index < self.spec_chain().len(),
        ensures
            entry@ == self.spec_chain()[index as int],
    {
        &self.chain[index]
    }

    /// The raw public key bound to the signer.
    pub fn public_key_bytes(&self) -> (r: &Vec<u8>)
        ensures
            r@ == self.spec_public_key(),
    {
        &self.public_key
    }

    /// The presentable key, for the TLS layer to hold during handshakes.
    pub fn certified_key(&self) -> (r: &Arc<rustls::sign::CertifiedKey>)
        ensures
            *r == self.spec_certified_key(),
    {
        &self.key
    }
}

/// Owns exactly one [`Credential`] and the [`AuthenticationMode`] it was
/// built with, and answers every handshake query of either connection role
/// from that one precomputed credential.
pub struct CredentialResolver {
    credential: Credential,
    mode: AuthenticationMode,
}

impl CredentialResolver {
    /// The mode this resolver was constructed with.
    pub closed spec fn spec_mode(&self) -> AuthenticationMode {
        self.mode
    }

    /// The one credential this resolver owns.
    pub closed spec fn spec_credential(&self) -> Credential {
        self.credential
    }

    /// The credential's public-key material is the node identifier derived
    /// from `seed`.
    pub open spec fn asserts_identity(self, seed: Seq<u8>) -> bool {
        self.spec_credential().spec_public_key() == public_key_of(seed)
    }

    /// What construction in raw-key mode from a well-formed key with seed
    /// bytes `seed` guarantees: the mode is kept, the asserted identity is
    /// the seed's public key, and the sole chain entry is that public key
    /// in its SubjectPublicKeyInfo shape.
    pub open spec fn is_raw_key_resolution(self, seed: Seq<u8>) -> bool {
        &&& self.spec_mode() is RawKeyBased
        &&& self.asserts_identity(seed)
        &&& self.spec_credential().spec_chain() =~= seq![ed25519_spki(public_key_of(seed))]
    }

    /// What construction in certificate mode from a well-formed key with
    /// seed bytes `seed` and materializer output `cert_der` guarantees:
    /// the mode is kept, the asserted identity is the seed's public key,
    /// and the sole chain entry is the materializer's certificate.
    pub open spec fn is_certificate_resolution(self, seed: Seq<u8>, cert_der: Seq<u8>) -> bool {
        &&& self.spec_mode() is CertificateBased
        &&& self.asserts_identity(seed)
        &&& self.spec_credential().spec_chain() =~= seq![cert_der]
    }

    /// Well-formedness of a constructed resolver: the chain holds exactly
    /// one entry, the public key has the scheme-defined length, and in
    /// raw-key mode the entry embeds exactly the signer's public key.  A
    /// resolver without a credential, or with a chain entry that asserts a
    /// different key than its signer holds, cannot exist.
    pub open spec fn wf(self) -> bool {
        &&& self.spec_credential().spec_chain().len() == 1
        &&& self.spec_credential().spec_public_key().len() == NODE_ID_LENGTH
        &&& self.spec_mode() is RawKeyBased ==> self.spec_credential().spec_chain()[0]
            == ed25519_spki(self.spec_credential().spec_public_key())
    }

    /// Constructs the resolver for this process's identity, once, before
    /// any handshake.
    ///
    /// In certificate mode the caller passes the certificate materializer's
    /// output, or `None` where the materializer failed; in raw-key mode
    /// `material` is ignored.  An ill-formed secret key fails fast in
    /// either mode.  Construction in raw-key mode succeeds for every
    /// well-formed key; in certificate mode it fails exactly where the
    /// materializer failed or the cryptographic provider rejects the
    /// signing key.  Every failure is fatal for this attempt: the same
    /// inputs fail the same way, and the caller must not retry.
    pub fn create(
        mode: AuthenticationMode,
        secret_key: &SecretKey,
        material: Option<CertificateMaterial>,
    ) -> (r: Result<CredentialResolver, CreateConfigError>)
        ensures
            !secret_key.is_well_formed() ==> r == Err::<CredentialResolver, CreateConfigError>(
                CreateConfigError::TlsConfigurationError,
            ),
            mode is RawKeyBased && secret_key.is_well_formed() ==> (r matches Ok(res)
                && res.is_raw_key_resolution(secret_key@)),
            mode is CertificateBased && secret_key.is_well_formed() && material is None ==> r
                == Err::<CredentialResolver, CreateConfigError>(
                CreateConfigError::CertificateGenerationFailed,
            ),
            mode is CertificateBased && secret_key.is_well_formed() && material is Some ==> (
            match r {
                Ok(res) => res.is_certificate_resolution(secret_key@, material.unwrap().cert_der@),
                Err(e) => e == CreateConfigError::TlsConfigurationError,
            }),
            r matches Ok(res) ==> res.wf() && res.spec_mode() == mode,
    {
        if !secret_key.well_formed() {
            return Err(CreateConfigError::TlsConfigurationError);
        }
        let identity = secret_key.node_identifier();
        match mode {
            AuthenticationMode::RawKeyBased => {
                match tls::build_raw_key_credential(secret_key.as_bytes()) {
                    Ok((key, entry)) => {
                        let mut chain: Vec<Vec<u8>> = Vec::new();
                        chain.push(entry);
                        Ok(CredentialResolver {
                            credential: Credential { chain, public_key: identity, key },
                            mode,
                        })
                    },
                    // Unreachable: the raw-key construction succeeds for
                    // every well-formed key.
                    Err(_) => Err(CreateConfigError::InconsistentKeys),
                }
            },
            AuthenticationMode::CertificateBased => {
                match material {
                    None => Err(CreateConfigError::CertificateGenerationFailed),
                    Some(m) => {
                        match tls::load_certificate_credential(&m.cert_der, &m.signing_key_der) {
                            Ok(key) => {
                                let mut chain: Vec<Vec<u8>> = Vec::new();
                                chain.push(m.cert_der);
                                Ok(CredentialResolver {
                                    credential: Credential { chain, public_key: identity, key },
                                    mode,
                                })
                            },
                            Err(_) => Err(CreateConfigError::TlsConfigurationError),
                        }
                    },
                }
            },
        }
    }

    /// Client-role handshake query: given the server's trust-anchor hints
    /// and acceptable signature schemes, returns the one stored credential,
    /// whatever the hints say.  This node has exactly one identity, so
    /// there is nothing to select among.
    pub fn resolve_client_credential(
        &self,
        root_hint_subjects: &Vec<Vec<u8>>,
        signature_schemes: &Vec<u16>,
    ) -> (c: &Credential)
        ensures
            *c == self.spec_credential(),
    {
        &self.credential
    }

    /// Server-role handshake query: given the client hello's server-name
    /// indication and acceptable signature schemes, returns the one stored
    /// credential, whatever the hints say.
    pub fn resolve_server_credential(
        &self,
        server_name: &Option<Vec<u8>>,
        signature_schemes: &Vec<u16>,
    ) -> (c: &Credential)
        ensures
            *c == self.spec_credential(),
    {
        &self.credential
    }

    /// Capability query: true exactly where this resolver was constructed
    /// in raw-key mode, telling the TLS layer to negotiate the
    /// raw-public-key extension instead of certificate verification.
    pub fn only_raw_public_keys(&self) -> (b: bool)
        ensures
            b == self.spec_mode().is_raw_key_based(),
    {
        matches!(self.mode, AuthenticationMode::RawKeyBased)
    }

    /// Capability query: a resolver always holds a credential, by
    /// construction.
    pub fn has_certs(&self) -> (b: bool)
        ensures
            b,
    {
        true
    }

    /// The mode this resolver was constructed with.
    pub fn mode(&self) -> (m: AuthenticationMode)
        ensures
            m == self.spec_mode(),
    {
        self.mode
    }

    /// Read-only access to the one credential.
    pub fn credential(&self) -> (c: &Credential)
        ensures
            *c == self.spec_credential(),
    {
        &self.credential
    }
}

/// Idempotence of construction: two resolvers built from the same mode and
/// the same secret key assert identical public-key material, and in
/// raw-key mode present identical chains.  Signatures made later may
/// differ; the asserted identity does not.
pub proof fn lemma_construction_idempotent(
    mode: AuthenticationMode,
    seed: Seq<u8>,
    r1: CredentialResolver,
    r2: CredentialResolver,
)
    requires
        r1.spec_mode() == mode,
        r2.spec_mode() == mode,
        r1.asserts_identity(seed),
        r2.asserts_identity(seed),
        mode is RawKeyBased ==> r1.is_raw_key_resolution(seed) && r2.is_raw_key_resolution(seed),
    ensures
        r1.spec_credential().spec_public_key() == r2.spec_credential().spec_public_key(),
        mode is RawKeyBased ==> r1.spec_credential().spec_chain()
            =~= r2.spec_credential().spec_chain(),
{
}

/// The sole chain entry of a raw-key credential, stripped of its fixed
/// 12-byte SubjectPublicKeyInfo header, is exactly the signer's public
/// key, which is the node identifier derived from the seed.
pub proof fn lemma_raw_key_entry_reinterpreted(r: CredentialResolver, seed: Seq<u8>)
    requires
        r.is_raw_key_resolution(seed),
    ensures
        r.spec_credential().spec_chain().len() == 1,
        r.spec_credential().spec_chain()[0].len() == 12 + r.spec_credential().spec_public_key().len(),
        r.spec_credential().spec_chain()[0].skip(12) =~= r.spec_credential().spec_public_key(),
        r.spec_credential().spec_chain()[0].take(12) =~= ed25519_spki_header(),
{
    let pk = public_key_of(seed);
    assert(r.spec_credential().spec_chain()[0] == ed25519_spki(pk));
    assert(ed25519_spki(pk).skip(12) =~= pk);
    assert(ed25519_spki(pk).take(12) =~= ed25519_spki_header());
}

} // verus!
