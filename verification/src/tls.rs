//! The trusted boundary to the TLS stack and the signature scheme.
//!
//! Everything the credential resolver takes from outside crates passes
//! through this module: the opaque presentable key of the TLS library, and
//! the two construction calls that turn key material into it.  Each wrapper
//! states in its contract exactly what the outside sources show, and the
//! verified resolver logic is proved against those contracts alone.

use vstd::prelude::*;

use std::sync::Arc;

use ed25519_dalek::pkcs8::EncodePrivateKey;

use crate::identity::public_key_of;
use crate::resolver::ed25519_spki;

verus! {

/// The TLS library's presentable credential: a certificate-or-raw-key chain
/// together with the signer bound to it.  Opaque to the verifier; the
/// resolver keeps its own plain-value mirror of the chain and of the public
/// key beside it.
#[verifier::external_type_specification]
#[verifier::external_body]
pub struct ExCertifiedKey(rustls::sign::CertifiedKey);

/// The TLS library's error type, returned by the construction calls below
/// and mapped by verified code to this crate's own error type.
#[verifier::external_type_specification]
#[verifier::external_body]
pub struct ExRustlsError(rustls::Error);

/// Builds the raw-public-key credential for a well-formed secret key.
///
/// Relies on `ed25519_dalek::SigningKey::{from_bytes, to_pkcs8_der}` (a
/// 32-byte seed always encodes to a PKCS#8 v2 document carrying the derived
/// public key), on `rustls::crypto::ring::sign::any_eddsa_type` (ring
/// accepts every such document and re-derives the same public key), on
/// `rustls::sign::SigningKey::public_key` (returns the DER
/// SubjectPublicKeyInfo of the key's public half, a fixed 12-byte header
/// before the raw key), and on `rustls::sign::CertifiedKey::new` (stores
/// the given chain and signer unchanged).  None of these fails for a
/// 32-byte seed, so success is promised; the second returned value is the
/// bytes of the sole chain entry.
#[verifier::external_body]
pub(crate) fn build_raw_key_credential(seed: &Vec<u8>) -> (r: Result<
    (Arc<rustls::sign::CertifiedKey>, Vec<u8>),
    rustls::Error,
>)
    requires
        seed@.len() == 32,
    ensures
        r is Ok,
        r matches Ok(p) ==> p.1@ == ed25519_spki(public_key_of(seed@)),
{
    let mut raw = [0u8; 32];
    raw.copy_from_slice(&seed[..]);
    let signing_key = ed25519_dalek::SigningKey::from_bytes(&raw);
    let document = signing_key
        .to_pkcs8_der()
        .map_err(|_| rustls::Error::General(String::from("PKCS#8 encoding failed")))?;
    let pkcs8 = rustls::pki_types::PrivatePkcs8KeyDer::from(document.as_bytes().to_vec());
    let signer = rustls::crypto::ring::sign::any_eddsa_type(&pkcs8)?;
    let spki = signer
        .public_key()
        .ok_or(rustls::Error::InconsistentKeys(rustls::InconsistentKeys::Unknown))?;
    let entry = spki.as_ref().to_vec();
    let cert = rustls::pki_types::CertificateDer::from(entry.clone());
    Ok((Arc::new(rustls::sign::CertifiedKey::new(vec![cert], signer)), entry))
}

/// Builds the certificate-based credential from the certificate
/// materializer's output.
///
/// Relies on `rustls::crypto::ring::sign::any_ecdsa_type` (parses the DER
/// as an ECDSA P-256 or P-384 private key, and errs on every other input)
/// and on `rustls::sign::CertifiedKey::new` (stores the given chain and
/// signer unchanged).  Whether the provider accepts the signing key is
/// decided by the call alone, so nothing is promised of the outcome.
#[verifier::external_body]
pub(crate) fn load_certificate_credential(cert_der: &Vec<u8>, key_der: &Vec<u8>) -> (r: Result<
    Arc<rustls::sign::CertifiedKey>,
    rustls::Error,
>)
{
    let key = rustls::pki_types::PrivateKeyDer::Pkcs8(rustls::pki_types::PrivatePkcs8KeyDer::from(
        key_der.clone(),
    ));
    let signer = rustls::crypto::ring::sign::any_ecdsa_type(&key)?;
    let cert = rustls::pki_types::CertificateDer::from(cert_der.clone());
    Ok(Arc::new(rustls::sign::CertifiedKey::new(vec![cert], signer)))
}

} // verus!
