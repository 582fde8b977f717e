//! What the generation of a certificate is asked to do, as given on the command
//! line.

use vstd::prelude::*;

verus! {

/// `std::path::PathBuf`. The library carries paths through and never looks into them.
#[verifier::external_type_specification]
#[verifier::external_body]
pub struct ExPathBuf(std::path::PathBuf);

/// The request to generate a certificate.
pub struct GenerateOpts {
    /// Credentials that will appear on the certificate, e.g. "Bob bob@example.com".
    pub credentials: String,
    /// File holding the public key that will appear on the certificate.
    pub pubkey_path: std::path::PathBuf,
    /// File holding the private key that will sign the certificate.
    pub privkey_path: std::path::PathBuf,
    /// Passphrase of the private key.
    pub passphrase: Option<String>,
    /// File holding the issuer's certificate; `None` for a self-signed certificate.
    pub certificate_path: Option<std::path::PathBuf>,
    /// Where the certificate is to be written.
    pub output_path: std::path::PathBuf,
}

} // verus!
