//! The three operations of the scheme: issuing a certificate, signing a document,
//! and checking a signed document against a set of trusted certificates.
//!
//! Each operation comes twice: on values (`issue`, `sign_document`, `verify`) and on
//! the texts of the files that hold certificates and signatures (`generate`, `sign`,
//! `check`). None of them reads or writes a file, and none reads a key pair: the
//! caller has the key provider read it and hands it in.

use vstd::prelude::*;
use vstd::utf8::encode_utf8;
use crate::certificate::Certificate;
use crate::certificate::CertificateView;
use crate::certificate::certificate_text;
use crate::certificate::parse_certificate;
use crate::certificate::signable_content;
use crate::encoding::base64_bytes;
use crate::encoding::base64_decode;
use crate::encoding::base64_encode;
use crate::encoding::base64_text;
use crate::opts::GenerateOpts;
use crate::provider::provider_sign;
use crate::provider::provider_signs;
use crate::provider::MAX_KEY_TEXT;
use crate::provider::provider_verdict;
use crate::provider::provider_verify;
use crate::record::ParseError;
use crate::signature::DetachedSignature;
use crate::signature::DetachedSignatureView;
use crate::signature::detached_signature_text;
use crate::signature::parse_detached_signature;

verus! {

/// Why an operation could not be carried out.
#[derive(Debug, Clone, Copy, PartialEq, Eq)]
pub enum ProtocolError {
    /// A certificate or a detached signature could not be read from its text.
    Parse(ParseError),
    /// The key provider failed to produce a signature.
    Crypto,
}

/// How the verification of a document ended. All five are ordinary results.
#[derive(Debug, Clone, Copy, PartialEq, Eq)]
pub enum VerificationOutcome {
    /// The signature is the signatory's signature over this document.
    Authentic,
    /// The signature is not a signature over this document under the trusted key.
    Compromised,
    /// No trusted certificate carries the signatory's credentials.
    NoTrustedCertificate,
    /// The signature is not base64 text.
    DecodeError,
    /// The key provider failed: the trusted key is unusable, or the check itself
    /// broke down.
    CryptoError,
}

/// What each outcome is reported as.
pub open spec fn outcome_message(outcome: VerificationOutcome) -> Seq<char> {
    match outcome {
        VerificationOutcome::Authentic => "The document is authentic"@,
        VerificationOutcome::Compromised => "The document is compromised"@,
        VerificationOutcome::NoTrustedCertificate => "No trusted certificate with given credentials found"@,
        VerificationOutcome::DecodeError => "Error decoding signature"@,
        VerificationOutcome::CryptoError => "Error validating signature"@,
    }
}

impl VerificationOutcome {
    /// The line that reports this outcome.
    pub fn describe(&self) -> (text: String)
        ensures
            text@ == outcome_message(*self),
    {
        match self {
            VerificationOutcome::Authentic => "The document is authentic".to_owned(),
            VerificationOutcome::Compromised => "The document is compromised".to_owned(),
            VerificationOutcome::NoTrustedCertificate => "No trusted certificate with given credentials found".to_owned(),
            VerificationOutcome::DecodeError => "Error decoding signature".to_owned(),
            VerificationOutcome::CryptoError => "Error validating signature".to_owned(),
        }
    }
}

/// Whether a candidate is a certificate whose subject has these credentials.
pub open spec fn vouches_for(candidate: Option<CertificateView>, credentials: Seq<char>) -> bool {
    candidate matches Some(certificate) && certificate.subject_credentials == credentials
}

/// The first candidate that is a certificate for `credentials`. Candidates that are
/// no certificate at all (`None`) are passed over.
pub open spec fn first_for(
    candidates: Seq<Option<CertificateView>>,
    credentials: Seq<char>,
) -> Option<CertificateView>
    decreases candidates.len(),
{
    if candidates.len() == 0 {
        None
    } else if vouches_for(candidates[0], credentials) {
        candidates[0]
    } else {
        first_for(candidates.drop_first(), credentials)
    }
}

/// A text as a candidate: the certificate it parses to, if it parses.
pub open spec fn readable(text: Seq<char>) -> Option<CertificateView> {
    match parse_certificate(text) {
        Ok(certificate) => Some(certificate),
        Err(_) => None,
    }
}

/// The candidates that a list of texts holds, in the order of the list.
pub open spec fn candidates_of_texts(texts: Seq<String>) -> Seq<Option<CertificateView>> {
    Seq::new(texts.len(), |i: int| readable(texts[i]@))
}

/// The candidates that a list of certificates holds, in the order of the list.
pub open spec fn candidates_of_store(store: Seq<Certificate>) -> Seq<Option<CertificateView>> {
    Seq::new(store.len(), |i: int| Some(store[i]@))
}

/// The view of a certificate that may not be there.
pub open spec fn found_view(found: Option<Certificate>) -> Option<CertificateView> {
    match found {
        Some(certificate) => Some(certificate@),
        None => None,
    }
}

/// The view of a borrowed certificate that may not be there.
pub open spec fn borrowed_view(found: Option<&Certificate>) -> Option<CertificateView> {
    match found {
        Some(certificate) => Some(certificate@),
        None => None,
    }
}

/// The credentials an issuer lends to the certificates it countersigns: its own
/// subject credentials.
pub open spec fn issuer_name(issuer: Option<CertificateView>) -> Option<Seq<char>> {
    match issuer {
        Some(certificate) => Some(certificate.subject_credentials),
        None => None,
    }
}

/// Whether a text is the base64 text of a signature that the key provider made over
/// `data`: of some bytes, not none, that the provider handed out when asked to sign
/// `data`, and that the text reads back as.
pub open spec fn is_signature_over(text: Seq<char>, data: Seq<u8>) -> bool {
    exists|raw: Seq<u8>|
        {
            &&& text == #[trigger] base64_text(raw)
            &&& base64_bytes(text) == Some(raw)
            &&& raw.len() > 0
            &&& provider_signs(data, raw)
        }
}

/// The outcome that the key provider's answer stands for: `Some(true)` where it
/// accepted the signature, `Some(false)` where it rejected it, `None` where it
/// failed.
pub open spec fn outcome_of_verdict(verdict: Option<bool>) -> VerificationOutcome {
    match verdict {
        Some(true) => VerificationOutcome::Authentic,
        Some(false) => VerificationOutcome::Compromised,
        None => VerificationOutcome::CryptoError,
    }
}

/// What the key provider answers for a key text, or `None` for a key text too long
/// to hand to it.
pub open spec fn key_verdict(public_key: Seq<char>, document: Seq<u8>, raw: Seq<u8>) -> Option<
    bool,
> {
    if encode_utf8(public_key).len() > MAX_KEY_TEXT {
        None
    } else {
        provider_verdict(public_key, document, raw)
    }
}

/// The outcome of holding a document against the certificate that trust resolution
/// found. Without a certificate it is `NoTrustedCertificate`; with one, and a
/// signature that is no base64 text, `DecodeError`; else it is what the key provider
/// answers for the certificate's public key, the document and the decoded
/// signature.
pub open spec fn outcome_against(
    certificate: Option<CertificateView>,
    signature: Seq<char>,
    document: Seq<u8>,
) -> VerificationOutcome {
    match certificate {
        None => VerificationOutcome::NoTrustedCertificate,
        Some(trusted) => match base64_bytes(signature) {
            None => VerificationOutcome::DecodeError,
            Some(raw) => outcome_of_verdict(key_verdict(trusted.public_key, document, raw)),
        },
    }
}

/// The outcome of verifying a document against a detached signature and the
/// candidates of a trust store: the first candidate that is a certificate for the
/// signatory's credentials is the one the signature is held against.
pub open spec fn verification_outcome(
    document: Seq<u8>,
    detached: DetachedSignatureView,
    candidates: Seq<Option<CertificateView>>,
) -> VerificationOutcome {
    outcome_against(
        first_for(candidates, detached.signatory_credentials),
        detached.signature,
        document,
    )
}

/// Trust resolution finds nothing exactly where no candidate is a certificate for
/// the credentials.
pub proof fn lemma_unknown_signatory(
    candidates: Seq<Option<CertificateView>>,
    credentials: Seq<char>,
)
    ensures
        first_for(candidates, credentials) is None <==> forall|i: int|
            0 <= i < candidates.len() ==> !vouches_for(#[trigger] candidates[i], credentials),
    decreases candidates.len(),
{
    if candidates.len() > 0 {
        let rest = candidates.drop_first();
        lemma_unknown_signatory(rest, credentials);
        assert forall|i: int| 0 <= i < rest.len() implies rest[i] == candidates[i + 1] by {}
        if first_for(candidates, credentials) is None {
            assert forall|i: int| 0 <= i < candidates.len() implies !vouches_for(
                #[trigger] candidates[i],
                credentials,
            ) by {
                if i > 0 {
                    assert(rest[i - 1] == candidates[i]);
                }
            }
        }
    }
}

/// What trust resolution finds is the first match: a candidate of the list that is
/// a certificate for the credentials, with none before it that is one too. Matches
/// further down the list play no part.
pub proof fn lemma_first_match_wins(
    candidates: Seq<Option<CertificateView>>,
    credentials: Seq<char>,
)
    requires
        first_for(candidates, credentials) is Some,
    ensures
        exists|i: int|
            {
                &&& 0 <= i < candidates.len()
                &&& #[trigger] candidates[i] == first_for(candidates, credentials)
                &&& vouches_for(candidates[i], credentials)
                &&& forall|j: int| 0 <= j < i ==> !vouches_for(#[trigger] candidates[j], credentials)
            },
    decreases candidates.len(),
{
    if vouches_for(candidates[0], credentials) {
        assert(candidates[0] == first_for(candidates, credentials));
    } else {
        let rest = candidates.drop_first();
        lemma_first_match_wins(rest, credentials);
        let k = choose|k: int|
            {
                &&& 0 <= k < rest.len()
                &&& #[trigger] rest[k] == first_for(rest, credentials)
                &&& vouches_for(rest[k], credentials)
                &&& forall|j: int| 0 <= j < k ==> !vouches_for(#[trigger] rest[j], credentials)
            };
        assert(candidates[k + 1] == rest[k]);
        assert forall|j: int| 0 <= j < k + 1 implies !vouches_for(
            #[trigger] candidates[j],
            credentials,
        ) by {
            if j > 0 {
                assert(rest[j - 1] == candidates[j]);
            }
        }
    }
}

/// A store that holds one certificate resolves that certificate's own subject to it.
pub proof fn lemma_single_entry_store(certificate: CertificateView)
    ensures
        first_for(seq![Some(certificate)], certificate.subject_credentials) == Some(certificate),
{
}

/// An unknown signatory has no trusted certificate, whatever the document and the
/// signature are; and a known one never ends there.
pub proof fn lemma_no_trusted_certificate(
    document: Seq<u8>,
    detached: DetachedSignatureView,
    candidates: Seq<Option<CertificateView>>,
)
    ensures
        verification_outcome(document, detached, candidates)
            == VerificationOutcome::NoTrustedCertificate <==> forall|i: int|
            0 <= i < candidates.len() ==> !vouches_for(
                #[trigger] candidates[i],
                detached.signatory_credentials,
            ),
{
    lemma_unknown_signatory(candidates, detached.signatory_credentials);
}

/// Where the first certificate of a store carries the signatory's credentials and
/// the signature is the base64 text of some bytes, it is the key provider that
/// decides: the outcome is what the provider answers for that certificate's key, the
/// document and those bytes, and so neither `NoTrustedCertificate` nor
/// `DecodeError`. This holds of every detached signature that `sign_document` makes
/// with a certificate, verified against a store that begins with that certificate.
pub proof fn lemma_signed_flow_reaches_the_provider(
    document: Seq<u8>,
    certificate: CertificateView,
    others: Seq<Option<CertificateView>>,
    signatory_credentials: Seq<char>,
    raw: Seq<u8>,
)
    requires
        signatory_credentials == certificate.subject_credentials,
        base64_bytes(base64_text(raw)) == Some(raw),
    ensures
        verification_outcome(
            document,
            DetachedSignatureView { signature: base64_text(raw), signatory_credentials },
            seq![Some(certificate)] + others,
        ) == outcome_of_verdict(key_verdict(certificate.public_key, document, raw)),
{
}

/// Scans the texts in order for the first one that parses as a certificate whose
/// subject has exactly these credentials. Texts that do not parse are passed over
/// in silence; later matches are never looked at.
pub fn find_certificate(candidates: &Vec<String>, credentials: &String) -> (found: Option<
    Certificate,
>)
    ensures
        found_view(found) == first_for(candidates_of_texts(candidates@), credentials@),
{
    let ghost all = candidates_of_texts(candidates@);
    let mut i: usize = 0;
    assert(all.skip(0) =~= all);
    while i < candidates.len()
        invariant
            i <= candidates.len(),
            all == candidates_of_texts(candidates@),
            first_for(all, credentials@) == first_for(all.skip(i as int), credentials@),
        decreases candidates.len() - i,
    {
        proof {
            assert(all.skip(i as int)[0] == readable(candidates@[i as int]@));
            assert(all.skip(i as int).drop_first() =~= all.skip(i + 1));
        }
        match Certificate::from_toml_string(&candidates[i]) {
            Ok(certificate) => {
                if certificate.subject_credentials == *credentials {
                    return Some(certificate);
                }
            },
            Err(_) => {},
        }
        i += 1;
    }
    None
}

/// Scans a store of certificates in order for the first one whose subject has
/// exactly these credentials.
pub fn find_in_store<'a>(store: &'a Vec<Certificate>, credentials: &String) -> (found: Option<
    &'a Certificate,
>)
    ensures
        borrowed_view(found) == first_for(candidates_of_store(store@), credentials@),
{
    let ghost all = candidates_of_store(store@);
    let mut i: usize = 0;
    assert(all.skip(0) =~= all);
    while i < store.len()
        invariant
            i <= store.len(),
            all == candidates_of_store(store@),
            first_for(all, credentials@) == first_for(all.skip(i as int), credentials@),
        decreases store.len() - i,
    {
        proof {
            assert(all.skip(i as int)[0] == Some(store@[i as int]@));
            assert(all.skip(i as int).drop_first() =~= all.skip(i + 1));
        }
        if store[i].subject_credentials == *credentials {
            return Some(&store[i]);
        }
        i += 1;
    }
    None
}

/// Turns the key provider's answer into an outcome.
pub fn conclude(verdict: Option<bool>) -> (outcome: VerificationOutcome)
    ensures
        outcome == outcome_of_verdict(verdict),
{
    match verdict {
        Some(true) => VerificationOutcome::Authentic,
        Some(false) => VerificationOutcome::Compromised,
        None => VerificationOutcome::CryptoError,
    }
}

/// Holds a document against the certificate that trust resolution found, if any.
///
/// The certificate's own signature is not looked at. A public key that the provider
/// cannot read, or one too long to hand to it, counts as a failure of the provider.
pub fn verify_against(document: &[u8], signature: &str, certificate: Option<&Certificate>) -> (outcome:
    VerificationOutcome)
    ensures
        outcome == outcome_against(borrowed_view(certificate), signature@, document@),
{
    let trusted = match certificate {
        Some(trusted) => trusted,
        None => return VerificationOutcome::NoTrustedCertificate,
    };
    let raw = match base64_decode(signature) {
        Ok(raw) => raw,
        Err(_) => return VerificationOutcome::DecodeError,
    };
    let key = trusted.public_key.as_str();
    if key.as_bytes().len() > MAX_KEY_TEXT {
        return conclude(None);
    }
    conclude(provider_verify(key, document, raw.as_slice()))
}

/// Verifies a document against a detached signature and a store of trusted
/// certificates: the first certificate in the store whose subject has the
/// signatory's credentials is the one the signature is held against.
pub fn verify(
    document: &[u8],
    detached_signature: &DetachedSignature,
    trust_store: &Vec<Certificate>,
) -> (outcome: VerificationOutcome)
    ensures
        outcome == verification_outcome(
            document@,
            detached_signature@,
            candidates_of_store(trust_store@),
        ),
        outcome == VerificationOutcome::NoTrustedCertificate <==> forall|i: int|
            0 <= i < trust_store.len() ==> (#[trigger] trust_store[i]).subject_credentials@
                != detached_signature.signatory_credentials@,
{
    let certificate = find_in_store(trust_store, &detached_signature.signatory_credentials);
    proof {
        let candidates = candidates_of_store(trust_store@);
        lemma_unknown_signatory(candidates, detached_signature.signatory_credentials@);
        assert forall|i: int| 0 <= i < trust_store.len() implies (vouches_for(
            candidates[i],
            detached_signature.signatory_credentials@,
        ) <==> (#[trigger] trust_store[i]).subject_credentials@
            == detached_signature.signatory_credentials@) by {}
    }
    verify_against(document, detached_signature.signature.as_str(), certificate)
}

/// Verifies a document against the text of a detached signature and the texts
/// found in the trust store, in the order in which they were found.
///
/// Fails only where the detached signature cannot be read. Texts of the trust store
/// that are no certificates are passed over.
pub fn check(document: &[u8], detached_signature: &String, trust_store: &Vec<String>) -> (result:
    Result<VerificationOutcome, ProtocolError>)
    ensures
        match result {
            Ok(outcome) => {
                &&& parse_detached_signature(detached_signature@) matches Ok(detached)
                &&& outcome == verification_outcome(
                    document@,
                    detached,
                    candidates_of_texts(trust_store@),
                )
                &&& outcome == VerificationOutcome::NoTrustedCertificate <==> forall|i: int|
                    0 <= i < trust_store.len() ==> !vouches_for(
                        readable((#[trigger] trust_store[i])@),
                        detached.signatory_credentials,
                    )
            },
            Err(e) => parse_detached_signature(detached_signature@) matches Err(cause) && e
                == ProtocolError::Parse(cause),
        },
{
    let detached = match read_to_detached_signature(detached_signature) {
        Ok(detached) => detached,
        Err(e) => return Err(e),
    };
    let certificate = find_certificate(trust_store, &detached.signatory_credentials);
    proof {
        let candidates = candidates_of_texts(trust_store@);
        lemma_unknown_signatory(candidates, detached.signatory_credentials@);
        assert forall|i: int| 0 <= i < trust_store.len() implies candidates[i] == readable(
            (#[trigger] trust_store[i])@,
        ) by {}
    }
    let outcome = match &certificate {
        Some(trusted) => verify_against(document, detached.signature.as_str(), Some(trusted)),
        None => verify_against(document, detached.signature.as_str(), None),
    };
    Ok(outcome)
}

/// The certificate as it stands before it is signed: the issuer, where there is
/// one, lends its own subject credentials and nothing else.
pub fn unsigned_certificate(
    subject_credentials: String,
    public_key: String,
    issuer_certificate: Option<&Certificate>,
) -> (certificate: Certificate)
    ensures
        certificate@ == (CertificateView {
            subject_credentials: subject_credentials@,
            public_key: public_key@,
            issuer_credentials: issuer_name(borrowed_view(issuer_certificate)),
            signature: None,
        }),
{
    let issuer_credentials = match issuer_certificate {
        Some(issuer) => Some(issuer.subject_credentials.clone()),
        None => None,
    };
    Certificate { subject_credentials, public_key, issuer_credentials, signature: None }
}

/// Completes issuance with what the key provider answered to the request for a
/// signature: `None` is its failure, and so is a signature of no bytes; any other
/// signature is stored as base64 text.
pub fn seal(certificate: Certificate, raw: Option<Vec<u8>>) -> (result: Result<Certificate, ProtocolError>)
    ensures
        match raw {
            Some(bytes) if bytes@.len() > 0 => {
                &&& result matches Ok(sealed) && sealed@ == (CertificateView {
                    signature: Some(base64_text(bytes@)),
                    ..certificate@
                })
                &&& base64_bytes(base64_text(bytes@)) == Some(bytes@)
                &&& base64_text(bytes@).len() > 0
            },
            _ => result == Err::<Certificate, ProtocolError>(ProtocolError::Crypto),
        },
{
    match raw {
        Some(bytes) => {
            if bytes.len() == 0 {
                return Err(ProtocolError::Crypto);
            }
            let mut sealed = certificate;
            sealed.signature = Some(base64_encode(bytes.as_slice()));
            Ok(sealed)
        },
        None => Err(ProtocolError::Crypto),
    }
}

/// Issues a certificate: binds the subject's credentials to the public key, names
/// the issuer if there is one, and has the key provider sign the signable content
/// with `signing_key`.
///
/// Whether a signature comes about is the key provider's decision; where it does
/// not, the error is `Crypto`.
pub fn issue(
    subject_credentials: String,
    public_key_text: String,
    issuer_certificate: Option<&Certificate>,
    signing_key: &osshkeys::KeyPair,
) -> (result: Result<Certificate, ProtocolError>)
    ensures
        match result {
            Ok(certificate) => {
                &&& certificate@.subject_credentials == subject_credentials@
                &&& certificate@.public_key == public_key_text@
                &&& certificate@.issuer_credentials == issuer_name(
                    borrowed_view(issuer_certificate),
                )
                &&& certificate@.signature matches Some(signature)
                &&& signature.len() > 0
                &&& is_signature_over(
                    signature,
                    signable_content(
                        subject_credentials@,
                        public_key_text@,
                        issuer_name(borrowed_view(issuer_certificate)),
                    ),
                )
            },
            Err(e) => e == ProtocolError::Crypto,
        },
{
    let certificate = unsigned_certificate(subject_credentials, public_key_text, issuer_certificate);
    let content = certificate.get_signable_part_as_bytes();
    let raw = match provider_sign(signing_key, content.as_slice()) {
        Ok(bytes) => Some(bytes),
        Err(_) => None,
    };
    seal(certificate, raw)
}

/// Completes the signing of a document with what the key provider answered: `None`
/// is its failure, and so is a signature of no bytes; any other signature is stored
/// as base64 text. The signatory's credentials are copied from the certificate
/// presented.
pub fn attest(raw: Option<Vec<u8>>, signer_certificate: &Certificate) -> (result: Result<
    DetachedSignature,
    ProtocolError,
>)
    ensures
        match raw {
            Some(bytes) if bytes@.len() > 0 => {
                &&& result matches Ok(detached) && detached@ == (DetachedSignatureView {
                    signature: base64_text(bytes@),
                    signatory_credentials: signer_certificate.subject_credentials@,
                })
                &&& base64_bytes(base64_text(bytes@)) == Some(bytes@)
                &&& base64_text(bytes@).len() > 0
            },
            _ => result == Err::<DetachedSignature, ProtocolError>(ProtocolError::Crypto),
        },
{
    match raw {
        Some(bytes) => {
            if bytes.len() == 0 {
                return Err(ProtocolError::Crypto);
            }
            Ok(
                DetachedSignature {
                    signature: base64_encode(bytes.as_slice()),
                    signatory_credentials: signer_certificate.subject_credentials.clone(),
                },
            )
        },
        None => Err(ProtocolError::Crypto),
    }
}

/// Has the key provider sign the raw bytes of a document, as they are, and names
/// the signatory after the subject of the certificate presented. That the key
/// belongs to that certificate is taken on trust.
pub fn sign_document(
    document: &[u8],
    signing_key: &osshkeys::KeyPair,
    signer_certificate: &Certificate,
) -> (result: Result<DetachedSignature, ProtocolError>)
    ensures
        match result {
            Ok(detached) => {
                &&& detached@.signatory_credentials == signer_certificate.subject_credentials@
                &&& detached@.signature.len() > 0
                &&& is_signature_over(detached@.signature, document@)
            },
            Err(e) => e == ProtocolError::Crypto,
        },
{
    let raw = match provider_sign(signing_key, document) {
        Ok(bytes) => Some(bytes),
        Err(_) => None,
    };
    attest(raw, signer_certificate)
}

/// Two signatures that were stored as the same base64 text are the same bytes: the
/// text tells signatures apart.
pub proof fn lemma_signature_text_tells_apart(first: Seq<u8>, second: Seq<u8>)
    requires
        base64_bytes(base64_text(first)) == Some(first),
        base64_bytes(base64_text(second)) == Some(second),
        base64_text(first) == base64_text(second),
    ensures
        first == second,
{
}

/// Reads a certificate from the text of its file.
pub fn read_to_certificate(text: &String) -> (result: Result<Certificate, ProtocolError>)
    ensures
        match result {
            Ok(certificate) => parse_certificate(text@) == Ok::<CertificateView, ParseError>(
                certificate@,
            ),
            Err(e) => parse_certificate(text@) matches Err(cause) && e == ProtocolError::Parse(
                cause,
            ),
        },
{
    match Certificate::from_toml_string(text) {
        Ok(certificate) => Ok(certificate),
        Err(cause) => Err(ProtocolError::Parse(cause)),
    }
}

/// Reads a detached signature from the text of its file.
pub fn read_to_detached_signature(text: &String) -> (result: Result<
    DetachedSignature,
    ProtocolError,
>)
    ensures
        match result {
            Ok(detached) => parse_detached_signature(text@) == Ok::<
                DetachedSignatureView,
                ParseError,
            >(detached@),
            Err(e) => parse_detached_signature(text@) matches Err(cause) && e
                == ProtocolError::Parse(cause),
        },
{
    match DetachedSignature::from_toml_string(text) {
        Ok(detached) => Ok(detached),
        Err(cause) => Err(ProtocolError::Parse(cause)),
    }
}

/// What a text that may not be there parses to as a certificate.
pub open spec fn parse_issuer(issuer: Option<&String>) -> Option<Result<
    CertificateView,
    ParseError,
>> {
    match issuer {
        Some(text) => Some(parse_certificate(text@)),
        None => None,
    }
}

/// The credentials that the issuer's certificate lends, where its text is there and
/// reads as a certificate.
pub open spec fn issuer_name_of_text(issuer: Option<&String>) -> Option<Seq<char>> {
    match parse_issuer(issuer) {
        Some(Ok(by)) => Some(by.subject_credentials),
        _ => None,
    }
}

/// Generates a certificate for the credentials of the request: from the public key
/// as the key provider wrote it, the text of the issuer's certificate if the request
/// has one, and the key pair that signs. The answer is the text of the certificate.
///
/// An issuer's certificate that cannot be read is a `Parse` error, whatever the key
/// provider would have done. Otherwise the key provider decides whether a signature
/// comes about; where it does not, the error is `Crypto`.
pub fn generate(
    opts: &GenerateOpts,
    public_key: String,
    issuer_certificate: Option<&String>,
    signing_key: &osshkeys::KeyPair,
) -> (result: Result<String, ProtocolError>)
    ensures
        match parse_issuer(issuer_certificate) {
            Some(Err(cause)) => result == Err::<String, ProtocolError>(
                ProtocolError::Parse(cause),
            ),
            _ => match result {
                Ok(text) => {
                    &&& parse_certificate(text@) matches Ok(certificate)
                    &&& text@ == certificate_text(certificate)
                    &&& certificate.subject_credentials == opts.credentials@
                    &&& certificate.public_key == public_key@
                    &&& certificate.issuer_credentials == issuer_name_of_text(
                        issuer_certificate,
                    )
                    &&& certificate.signature matches Some(signature)
                    &&& signature.len() > 0
                    &&& is_signature_over(
                        signature,
                        signable_content(
                            opts.credentials@,
                            public_key@,
                            issuer_name_of_text(issuer_certificate),
                        ),
                    )
                },
                Err(e) => e == ProtocolError::Crypto,
            },
        },
{
    let issuer = match issuer_certificate {
        Some(text) => match read_to_certificate(text) {
            Ok(issuer) => Some(issuer),
            Err(e) => return Err(e),
        },
        None => None,
    };
    let issued = match &issuer {
        Some(by) => issue(opts.credentials.clone(), public_key, Some(by), signing_key),
        None => issue(opts.credentials.clone(), public_key, None, signing_key),
    };
    match issued {
        Ok(certificate) => Ok(certificate.to_toml_string()),
        Err(e) => Err(e),
    }
}

/// Signs a document with a key pair, for the signer whose certificate the text is.
/// The answer is the text of the detached signature.
///
/// A certificate that cannot be read is a `Parse` error, whatever the key provider
/// would have done. Otherwise the key provider decides whether a signature comes
/// about; where it does not, the error is `Crypto`.
pub fn sign(document: &[u8], signing_key: &osshkeys::KeyPair, certificate: &String) -> (result:
    Result<String, ProtocolError>)
    ensures
        match parse_certificate(certificate@) {
            Err(cause) => result == Err::<String, ProtocolError>(ProtocolError::Parse(cause)),
            Ok(signer) => match result {
                Ok(text) => {
                    &&& parse_detached_signature(text@) matches Ok(detached)
                    &&& text@ == detached_signature_text(detached)
                    &&& detached.signatory_credentials == signer.subject_credentials
                    &&& detached.signature.len() > 0
                    &&& is_signature_over(detached.signature, document@)
                },
                Err(e) => e == ProtocolError::Crypto,
            },
        },
{
    let signer = match read_to_certificate(certificate) {
        Ok(signer) => signer,
        Err(e) => return Err(e),
    };
    match sign_document(document, signing_key, &signer) {
        Ok(detached) => Ok(detached.to_toml_string()),
        Err(e) => Err(e),
    }
}

} // verus!
