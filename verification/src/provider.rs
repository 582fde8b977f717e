//! The key provider: signing and signature checking, done by the `osshkeys` crate.
//!
//! Nothing here is proved. What the provider answers when a signature is checked is
//! a matter of the key text, the data and the signature alone, and is given a name
//! that the contracts of the library speak of. Of signing less can be said: a
//! signature may depend on randomness (DSA, ECDSA), and the provider signs with
//! whatever key pair it was able to read, sound or not. Key pairs are read by the
//! caller and come here as values.

use vstd::prelude::*;
use vstd::utf8::encode_utf8;

verus! {

/// `osshkeys::KeyPair`, a private key with its public half. Opaque to the verifier.
#[verifier::external_type_specification]
#[verifier::external_body]
pub struct ExKeyPair(osshkeys::KeyPair);

/// `osshkeys::error::Error`, the failure of a call into the provider.
#[verifier::external_type_specification]
#[verifier::external_body]
pub struct ExProviderError(osshkeys::error::Error);

/// The longest key text, in bytes, that is handed to the provider: what the
/// cryptographic library behind it takes in one piece.
pub const MAX_KEY_TEXT: usize = 0x7fff_ffff;

/// What `osshkeys::PublicParts::verify` answers for the public key that
/// `public_key` is the text of: `Some(true)` where it accepts `signature` as a
/// signature over `data`, `Some(false)` where it rejects it, `None` where the text
/// is no public key or the provider fails.
pub uninterp spec fn provider_verdict(
    public_key: Seq<char>,
    data: Seq<u8>,
    signature: Seq<u8>,
) -> Option<bool>;

/// Whether `signature` is among the signatures that `osshkeys::PrivateParts::sign`
/// hands out over `data`, with whatever key pair. It says which bytes a signature
/// was made over, and nothing of whether any key accepts it.
pub uninterp spec fn provider_signs(data: Seq<u8>, signature: Seq<u8>) -> bool;

/// Calls `osshkeys::PrivateParts::sign` on a key pair: a detached signature over
/// `data`.
///
/// Believed: what it hands out is a signature that the provider made over `data`.
/// Whether it succeeds, and with which signature, is not said.
#[verifier::external_body]
pub(crate) fn provider_sign(key: &osshkeys::KeyPair, data: &[u8]) -> (made: Result<
    Vec<u8>,
    osshkeys::error::Error,
>)
    ensures
        made matches Ok(signature) ==> provider_signs(data@, signature@),
{
    osshkeys::PrivateParts::sign(key, data)
}

/// Reads a public key with `osshkeys::PublicKey::from_keystr` and calls
/// `osshkeys::PublicParts::verify` on it.
///
/// Believed, for a key text of at most [`MAX_KEY_TEXT`] bytes: the answer depends on
/// the key text, the data and the signature alone. Checking a signature draws on no
/// randomness and keeps no state. A longer text is left out: the library behind the
/// provider refuses to take it and stops the program.
#[verifier::external_body]
pub(crate) fn provider_verify(public_key: &str, data: &[u8], signature: &[u8]) -> (verdict: Option<
    bool,
>)
    requires
        encode_utf8(public_key@).len() <= MAX_KEY_TEXT,
    ensures
        verdict == provider_verdict(public_key@, data@, signature@),
{
    match osshkeys::PublicKey::from_keystr(public_key) {
        Ok(key) => osshkeys::PublicParts::verify(&key, data, signature).ok(),
        Err(_) => None,
    }
}

} // verus!
