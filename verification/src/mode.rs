//! The closed choice between the two credential shapes the TLS layer may use.

use vstd::prelude::*;

verus! {

/// How the node authenticates itself during a TLS handshake.
///
/// The mode is chosen once by configuration, never negotiated, and fixed for
/// the lifetime of the credential built from it.  Keeping the choice a closed
/// two-variant enum keeps the two incompatible construction algorithms
/// statically distinguishable.
#[derive(Clone, Copy, Debug, PartialEq, Eq, Structural)]
pub enum AuthenticationMode {
    /// Present a self-signed certificate whose subject public key is the
    /// node identifier.
    CertificateBased,
    /// Present the raw public key directly, without any certificate
    /// wrapping, for the raw-public-key TLS extension.
    RawKeyBased,
}

impl AuthenticationMode {
    /// True exactly for the raw-public-key variant.
    pub open spec fn is_raw_key_based(self) -> bool {
        self is RawKeyBased
    }
}

} // verus!
