//! TLS credential resolution for a peer-to-peer node identity.
//!
//! Each endpoint of the transfer system is identified by a long-term
//! asymmetric keypair rather than by a CA-issued certificate.  Before any
//! transfer protocol runs, both sides of a connection authenticate with TLS,
//! and the credential presented during the handshake must be bound to that
//! node identity.
//!
//! The heart of this crate is the credential resolver: it takes the node's
//! persistent secret key and a chosen [`AuthenticationMode`], and builds one
//! immutable [`Credential`] that answers every handshake query, for both the
//! client and the server role of a connection.  Construction may fail;
//! resolution never does.

pub mod error;
pub mod identity;
pub mod mode;
pub mod resolver;
mod tls;

pub use error::CreateConfigError;
pub use identity::SecretKey;
pub use mode::AuthenticationMode;
pub use resolver::CertificateMaterial;
pub use resolver::Credential;
pub use resolver::CredentialResolver;
