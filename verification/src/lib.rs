//! A minimal personal public-key trust scheme: identity certificates, detached
//! signatures over documents, and verification against a set of trusted
//! certificates.

pub mod certificate;
pub mod encoding;
pub mod opts;
pub mod protocol;
pub mod provider;
pub mod record;
pub mod signature;

pub use certificate::Certificate;
pub use opts::GenerateOpts;
pub use protocol::ProtocolError;
pub use protocol::VerificationOutcome;
pub use record::ParseError;
pub use signature::DetachedSignature;
