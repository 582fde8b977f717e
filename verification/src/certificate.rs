//! Identity certificates: a signed binding between an identity and a public key.

use vstd::prelude::*;
use vstd::string::StrSliceExecFns;
use vstd::utf8::encode_utf8;
use vstd::utf8::encode_utf8_decode_utf8;
use crate::record::Field;
use crate::record::FieldView;
use crate::record::Fields;
use crate::record::ParseError;
use crate::record::all_text;
use crate::record::record_keys_only;
use crate::record::field_of;
use crate::record::optional_text;
use crate::record::required_text;
use crate::record::parse_table;
use crate::record::table_field;
use crate::record::table_insert;
use crate::record::table_new;
use crate::record::table_write;
use crate::record::toml_parsed;
use crate::record::toml_written;
use crate::record::take_optional;
use crate::record::take_required;
use crate::record::lemma_keys_differ;

verus! {

/// A binding between an identity and a public key, signed by the subject itself or
/// countersigned by an issuer.
#[derive(Debug, Clone, PartialEq, Eq)]
pub struct Certificate {
    /// Free-form identity of the subject, matched by exact equality.
    pub subject_credentials: String,
    /// The subject's public key, as the text the key provider wrote for it.
    pub public_key: String,
    /// Identity of the issuer; `None` for a self-signed certificate.
    pub issuer_credentials: Option<String>,
    /// Signature over the signable content, in base64; `None` until issuance is done.
    pub signature: Option<String>,
}

/// A [`Certificate`] as mathematics.
pub struct CertificateView {
    pub subject_credentials: Seq<char>,
    pub public_key: Seq<char>,
    pub issuer_credentials: Option<Seq<char>>,
    pub signature: Option<Seq<char>>,
}

/// The characters of an optional string.
pub open spec fn optional_view(text: Option<String>) -> Option<Seq<char>> {
    match text {
        Some(t) => Some(t@),
        None => None,
    }
}

impl View for Certificate {
    type V = CertificateView;

    open spec fn view(&self) -> CertificateView {
        CertificateView {
            subject_credentials: self.subject_credentials@,
            public_key: self.public_key@,
            issuer_credentials: optional_view(self.issuer_credentials),
            signature: optional_view(self.signature),
        }
    }
}

/// The bytes an issuer contributes to the signable content: its UTF-8 encoding, or
/// nothing where there is no issuer.
pub open spec fn issuer_bytes(issuer: Option<Seq<char>>) -> Seq<u8> {
    match issuer {
        Some(credentials) => encode_utf8(credentials),
        None => Seq::empty(),
    }
}

/// The exact bytes that issuance signs: the UTF-8 encodings of the subject's
/// credentials, of the public key and, where there is one, of the issuer's
/// credentials, one after the other with nothing in between.
pub open spec fn signable_content(
    subject_credentials: Seq<char>,
    public_key: Seq<char>,
    issuer_credentials: Option<Seq<char>>,
) -> Seq<u8> {
    encode_utf8(subject_credentials) + encode_utf8(public_key) + issuer_bytes(issuer_credentials)
}

/// The fields of the record that stands for a certificate: the two required ones,
/// and each optional one only where it is present.
pub open spec fn certificate_fields(certificate: CertificateView) -> Fields {
    let required = Fields::empty().insert(
        "subject_credentials"@,
        Some(certificate.subject_credentials),
    ).insert("public_key"@, Some(certificate.public_key));
    let with_issuer = match certificate.issuer_credentials {
        Some(issuer) => required.insert("issuer_credentials"@, Some(issuer)),
        None => required,
    };
    match certificate.signature {
        Some(signature) => with_issuer.insert("signature"@, Some(signature)),
        None => with_issuer,
    }
}

/// The certificate that four looked-up fields stand for. The subject's credentials,
/// the public key and the signature must be there; the issuer's credentials may be
/// absent; whatever is there must be a string. The first field at fault, in the
/// order subject, key, issuer, signature, decides the error.
pub open spec fn certificate_of_fields(
    subject_credentials: FieldView,
    public_key: FieldView,
    issuer_credentials: FieldView,
    signature: FieldView,
) -> Result<CertificateView, ParseError> {
    match required_text(subject_credentials) {
        Err(e) => Err(e),
        Ok(subject) => match required_text(public_key) {
            Err(e) => Err(e),
            Ok(key) => match optional_text(issuer_credentials) {
                Err(e) => Err(e),
                Ok(issuer) => match required_text(signature) {
                    Err(e) => Err(e),
                    Ok(sig) => Ok(
                        CertificateView {
                            subject_credentials: subject,
                            public_key: key,
                            issuer_credentials: issuer,
                            signature: Some(sig),
                        },
                    ),
                },
            },
        },
    }
}

/// What a text parses to as a certificate: `Malformed` where the text is no TOML
/// document, else what the document's four fields stand for.
pub open spec fn parse_certificate(text: Seq<char>) -> Result<CertificateView, ParseError> {
    match toml_parsed(text) {
        None => Err(ParseError::Malformed),
        Some(fields) => certificate_of_fields(
            field_of(fields, "subject_credentials"@),
            field_of(fields, "public_key"@),
            field_of(fields, "issuer_credentials"@),
            field_of(fields, "signature"@),
        ),
    }
}

/// The text a certificate is written as.
pub open spec fn certificate_text(certificate: CertificateView) -> Seq<char> {
    toml_written(certificate_fields(certificate))
}

/// Whether a parse result is the given outcome, the certificate taken by its view.
pub open spec fn is_parsed_certificate(
    result: Result<Certificate, ParseError>,
    outcome: Result<CertificateView, ParseError>,
) -> bool {
    match result {
        Ok(certificate) => outcome == Ok::<CertificateView, ParseError>(certificate@),
        Err(e) => outcome == Err::<CertificateView, ParseError>(e),
    }
}

impl Certificate {
    /// Builds a certificate from its four fields as looked up in a record.
    pub fn from_fields(
        subject_credentials: Field,
        public_key: Field,
        issuer_credentials: Field,
        signature: Field,
    ) -> (result: Result<Certificate, ParseError>)
        ensures
            is_parsed_certificate(
                result,
                certificate_of_fields(
                    subject_credentials@,
                    public_key@,
                    issuer_credentials@,
                    signature@,
                ),
            ),
    {
        let subject = match take_required(subject_credentials) {
            Ok(text) => text,
            Err(e) => return Err(e),
        };
        let key = match take_required(public_key) {
            Ok(text) => text,
            Err(e) => return Err(e),
        };
        let issuer = match take_optional(issuer_credentials) {
            Ok(text) => text,
            Err(e) => return Err(e),
        };
        let sig = match take_required(signature) {
            Ok(text) => Some(text),
            Err(e) => return Err(e),
        };
        Ok(
            Certificate {
                subject_credentials: subject,
                public_key: key,
                issuer_credentials: issuer,
                signature: sig,
            },
        )
    }

    /// Reads a certificate from its TOML text.
    ///
    /// Fails with `Malformed` where the text is not a TOML document, with
    /// `MissingField` where the subject's credentials, the public key or the
    /// signature are absent, and with `NotText` where one of the four fields is
    /// there but is no string. Keys other than the four are ignored.
    pub fn from_toml_string(string: &String) -> (result: Result<Certificate, ParseError>)
        ensures
            is_parsed_certificate(result, parse_certificate(string@)),
    {
        match parse_table(string.as_str()) {
            None => Err(ParseError::Malformed),
            Some(table) => {
                let subject = table_field(&table, "subject_credentials");
                let key = table_field(&table, "public_key");
                let issuer = table_field(&table, "issuer_credentials");
                let signature = table_field(&table, "signature");
                Certificate::from_fields(subject, key, issuer, signature)
            },
        }
    }

    /// Writes the certificate as TOML text.
    ///
    /// The text is a function of the certificate alone. Reading the text of a signed
    /// certificate back with [`Certificate::from_toml_string`] gives the same
    /// certificate; the text of an unsigned one lacks the signature and is refused.
    pub fn to_toml_string(&self) -> (text: String)
        ensures
            text@ == certificate_text(self@),
            parse_certificate(text@) == match self@.signature {
                Some(_) => Ok::<CertificateView, ParseError>(self@),
                None => Err::<CertificateView, ParseError>(ParseError::MissingField),
            },
    {
        let mut table = table_new();
        table_insert(&mut table, "subject_credentials", self.subject_credentials.as_str());
        table_insert(&mut table, "public_key", self.public_key.as_str());
        match &self.issuer_credentials {
            Some(issuer) => table_insert(&mut table, "issuer_credentials", issuer.as_str()),
            None => {},
        }
        match &self.signature {
            Some(signature) => table_insert(&mut table, "signature", signature.as_str()),
            None => {},
        }
        proof {
            lemma_certificate_fields(self@);
        }
        match table_write(&table) {
            Ok(text) => text,
            Err(_) => vstd::pervasive::unreached(),
        }
    }

    /// The bytes that a signature over this certificate covers: subject, key and
    /// issuer, whatever the `signature` field holds.
    pub fn get_signable_part_as_bytes(&self) -> (bytes: Vec<u8>)
        ensures
            bytes@ == signable_content(
                self.subject_credentials@,
                self.public_key@,
                optional_view(self.issuer_credentials),
            ),
    {
        let mut bytes = self.subject_credentials.as_str().as_bytes_vec();
        let mut key = self.public_key.as_str().as_bytes_vec();
        bytes.append(&mut key);
        match &self.issuer_credentials {
            Some(issuer) => {
                let mut tail = issuer.as_str().as_bytes_vec();
                bytes.append(&mut tail);
            },
            None => {
                assert(bytes@ + Seq::<u8>::empty() =~= bytes@);
            },
        }
        bytes
    }
}

/// The record of a certificate holds strings only, under record keys only; and
/// looking its four keys up gives back a signed certificate's four fields, and finds
/// the signature of an unsigned one missing.
pub proof fn lemma_certificate_fields(certificate: CertificateView)
    ensures
        all_text(certificate_fields(certificate)),
        record_keys_only(certificate_fields(certificate)),
        certificate_of_fields(
            field_of(certificate_fields(certificate), "subject_credentials"@),
            field_of(certificate_fields(certificate), "public_key"@),
            field_of(certificate_fields(certificate), "issuer_credentials"@),
            field_of(certificate_fields(certificate), "signature"@),
        ) == match certificate.signature {
            Some(_) => Ok::<CertificateView, ParseError>(certificate),
            None => Err::<CertificateView, ParseError>(ParseError::MissingField),
        },
{
    lemma_keys_differ();
}

/// The UTF-8 encoding tells any two texts apart.
pub proof fn lemma_encoding_injective(a: Seq<char>, b: Seq<char>)
    requires
        encode_utf8(a) == encode_utf8(b),
    ensures
        a == b,
{
    encode_utf8_decode_utf8(a);
    encode_utf8_decode_utf8(b);
}

/// Changing exactly one of the three signed fields changes the signable content.
///
/// The one change that cannot show is between no issuer and an issuer whose
/// credentials are the empty text: both contribute no bytes. Two certificates that
/// differ in more than one field may still share their signable content, since the
/// fields are joined with nothing in between.
pub proof fn lemma_signable_content_single_change(
    a: CertificateView,
    b: CertificateView,
)
    requires
        ({
            ||| a.subject_credentials != b.subject_credentials && a.public_key == b.public_key
                && a.issuer_credentials == b.issuer_credentials
            ||| a.subject_credentials == b.subject_credentials && a.public_key != b.public_key
                && a.issuer_credentials == b.issuer_credentials
            ||| a.subject_credentials == b.subject_credentials && a.public_key == b.public_key
                && a.issuer_credentials != b.issuer_credentials
        }),
        !(a.issuer_credentials == None::<Seq<char>> && b.issuer_credentials == Some(Seq::<char>::empty())),
        !(b.issuer_credentials == None::<Seq<char>> && a.issuer_credentials == Some(Seq::<char>::empty())),
    ensures
        signable_content(a.subject_credentials, a.public_key, a.issuer_credentials)
            != signable_content(b.subject_credentials, b.public_key, b.issuer_credentials),
{
    let sa = encode_utf8(a.subject_credentials);
    let sb = encode_utf8(b.subject_credentials);
    let ka = encode_utf8(a.public_key);
    let kb = encode_utf8(b.public_key);
    let ia = issuer_bytes(a.issuer_credentials);
    let ib = issuer_bytes(b.issuer_credentials);
    if sa + ka + ia == sb + kb + ib {
        assert((sa + ka + ia).len() == sa.len() + ka.len() + ia.len());
        assert((sb + kb + ib).len() == sb.len() + kb.len() + ib.len());
        if a.subject_credentials != b.subject_credentials {
            assert(sa.len() == sb.len());
            assert(sa =~= (sa + ka + ia).subrange(0, sa.len() as int));
            assert(sb =~= (sb + kb + ib).subrange(0, sb.len() as int));
            lemma_encoding_injective(a.subject_credentials, b.subject_credentials);
        } else if a.public_key != b.public_key {
            assert(ka.len() == kb.len());
            assert(ka =~= (sa + ka + ia).subrange(sa.len() as int, (sa.len() + ka.len()) as int));
            assert(kb =~= (sb + kb + ib).subrange(sb.len() as int, (sb.len() + kb.len()) as int));
            lemma_encoding_injective(a.public_key, b.public_key);
        } else {
            let n: int = (sa.len() + ka.len()) as int;
            assert(ia =~= (sa + ka + ia).subrange(n, n + ia.len()));
            assert(ib =~= (sb + kb + ib).subrange(n, n + ib.len()));
            assert(ia == ib);
            lemma_issuer_bytes_tell_apart(a.issuer_credentials, b.issuer_credentials);
        }
    }
}

/// Two issuers contribute the same bytes only where they are the same, or where one
/// is absent and the other is the empty text.
proof fn lemma_issuer_bytes_tell_apart(a: Option<Seq<char>>, b: Option<Seq<char>>)
    requires
        issuer_bytes(a) == issuer_bytes(b),
        !(a == None::<Seq<char>> && b == Some(Seq::<char>::empty())),
        !(b == None::<Seq<char>> && a == Some(Seq::<char>::empty())),
    ensures
        a == b,
{
    assert(encode_utf8(Seq::<char>::empty()) =~= Seq::<u8>::empty());
    match (a, b) {
        (Some(x), Some(y)) => {
            lemma_encoding_injective(x, y);
        },
        (Some(x), None) => {
            lemma_encoding_injective(x, Seq::<char>::empty());
        },
        (None, Some(y)) => {
            lemma_encoding_injective(y, Seq::<char>::empty());
        },
        (None, None) => {},
    }
}

} // verus!
