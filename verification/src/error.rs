//! Errors raised while building a TLS credential from a node identity.

use vstd::prelude::*;

verus! {

/// Why credential construction failed.
///
/// Every error of this crate is discovered at construction time and is
/// unrecoverable for that construction attempt: the same inputs fail the
/// same way, so the caller must treat it as a fatal startup condition and
/// not retry.  Once construction has succeeded, no handshake-time query can
/// fail.
#[derive(Clone, Copy, Debug, PartialEq, Eq, Structural)]
pub enum CreateConfigError {
    /// The certificate materializer could not produce a self-signed
    /// certificate for the given key.
    CertificateGenerationFailed,
    /// The cryptographic provider rejected the key type or signature
    /// scheme, or key decoding failed.
    TlsConfigurationError,
    /// The raw-key path produced a signer with no recoverable public key:
    /// an internal invariant violation.
    InconsistentKeys,
}

} // verus!
