//! Detached signatures: proof that a named signatory signed a document, kept apart
//! from the document itself.

use vstd::prelude::*;
use crate::record::Field;
use crate::record::FieldView;
use crate::record::Fields;
use crate::record::ParseError;
use crate::record::all_text;
use crate::record::record_keys_only;
use crate::record::field_of;
use crate::record::required_text;
use crate::record::parse_table;
use crate::record::table_field;
use crate::record::table_insert;
use crate::record::table_new;
use crate::record::table_write;
use crate::record::toml_parsed;
use crate::record::toml_written;
use crate::record::take_required;
use crate::record::lemma_keys_differ;

verus! {

/// A signature over a document, with the identity the signatory claimed.
#[derive(Debug, Clone, PartialEq, Eq)]
pub struct DetachedSignature {
    /// Signature over the document's raw bytes, in base64.
    pub signature: String,
    /// The subject's credentials of the certificate presented at signing time.
    pub signatory_credentials: String,
}

/// A [`DetachedSignature`] as mathematics.
pub struct DetachedSignatureView {
    pub signature: Seq<char>,
    pub signatory_credentials: Seq<char>,
}

impl View for DetachedSignature {
    type V = DetachedSignatureView;

    open spec fn view(&self) -> DetachedSignatureView {
        DetachedSignatureView {
            signature: self.signature@,
            signatory_credentials: self.signatory_credentials@,
        }
    }
}

/// The fields of the record that stands for a detached signature.
pub open spec fn detached_signature_fields(detached: DetachedSignatureView) -> Fields {
    Fields::empty().insert("signature"@, Some(detached.signature)).insert(
        "signatory_credentials"@,
        Some(detached.signatory_credentials),
    )
}

/// The detached signature that two looked-up fields stand for. Both must be there
/// and both must be strings; the signature is looked at first.
pub open spec fn detached_signature_of_fields(
    signature: FieldView,
    signatory_credentials: FieldView,
) -> Result<DetachedSignatureView, ParseError> {
    match required_text(signature) {
        Err(e) => Err(e),
        Ok(sig) => match required_text(signatory_credentials) {
            Err(e) => Err(e),
            Ok(signatory) => Ok(
                DetachedSignatureView { signature: sig, signatory_credentials: signatory },
            ),
        },
    }
}

/// What a text parses to as a detached signature: `Malformed` where the text is no
/// TOML document, else what the document's two fields stand for.
pub open spec fn parse_detached_signature(text: Seq<char>) -> Result<
    DetachedSignatureView,
    ParseError,
> {
    match toml_parsed(text) {
        None => Err(ParseError::Malformed),
        Some(fields) => detached_signature_of_fields(
            field_of(fields, "signature"@),
            field_of(fields, "signatory_credentials"@),
        ),
    }
}

/// The text a detached signature is written as.
pub open spec fn detached_signature_text(detached: DetachedSignatureView) -> Seq<char> {
    toml_written(detached_signature_fields(detached))
}

/// Whether a parse result is the given outcome, the signature taken by its view.
pub open spec fn is_parsed_detached_signature(
    result: Result<DetachedSignature, ParseError>,
    outcome: Result<DetachedSignatureView, ParseError>,
) -> bool {
    match result {
        Ok(detached) => outcome == Ok::<DetachedSignatureView, ParseError>(detached@),
        Err(e) => outcome == Err::<DetachedSignatureView, ParseError>(e),
    }
}

impl DetachedSignature {
    /// Builds a detached signature from its two fields as looked up in a record.
    pub fn from_fields(signature: Field, signatory_credentials: Field) -> (result: Result<
        DetachedSignature,
        ParseError,
    >)
        ensures
            is_parsed_detached_signature(
                result,
                detached_signature_of_fields(signature@, signatory_credentials@),
            ),
    {
        let sig = match take_required(signature) {
            Ok(text) => text,
            Err(e) => return Err(e),
        };
        let signatory = match take_required(signatory_credentials) {
            Ok(text) => text,
            Err(e) => return Err(e),
        };
        Ok(DetachedSignature { signature: sig, signatory_credentials: signatory })
    }

    /// Reads a detached signature from its TOML text.
    ///
    /// Fails with `Malformed` where the text is not a TOML document, with
    /// `MissingField` where one of the two fields is absent, and with `NotText`
    /// where one is there but is no string. Other keys are ignored.
    pub fn from_toml_string(string: &String) -> (result: Result<DetachedSignature, ParseError>)
        ensures
            is_parsed_detached_signature(result, parse_detached_signature(string@)),
    {
        match parse_table(string.as_str()) {
            None => Err(ParseError::Malformed),
            Some(table) => {
                let signature = table_field(&table, "signature");
                let signatory = table_field(&table, "signatory_credentials");
                DetachedSignature::from_fields(signature, signatory)
            },
        }
    }

    /// Writes the detached signature as TOML text.
    ///
    /// The text is a function of the value alone, and reading it back with
    /// [`DetachedSignature::from_toml_string`] gives the same value.
    pub fn to_toml_string(&self) -> (text: String)
        ensures
            text@ == detached_signature_text(self@),
            parse_detached_signature(text@) == Ok::<DetachedSignatureView, ParseError>(self@),
    {
        let mut table = table_new();
        table_insert(&mut table, "signature", self.signature.as_str());
        table_insert(&mut table, "signatory_credentials", self.signatory_credentials.as_str());
        proof {
            lemma_detached_signature_fields(self@);
        }
        match table_write(&table) {
            Ok(text) => text,
            Err(_) => vstd::pervasive::unreached(),
        }
    }
}

/// The record of a detached signature holds strings only, under record keys only,
/// and looking its two keys up gives back the two fields.
pub proof fn lemma_detached_signature_fields(detached: DetachedSignatureView)
    ensures
        all_text(detached_signature_fields(detached)),
        record_keys_only(detached_signature_fields(detached)),
        detached_signature_of_fields(
            field_of(detached_signature_fields(detached), "signature"@),
            field_of(detached_signature_fields(detached), "signatory_credentials"@),
        ) == Ok::<DetachedSignatureView, ParseError>(detached),
{
    lemma_keys_differ();
}

} // verus!
