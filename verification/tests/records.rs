use keytrust::certificate::Certificate;
use keytrust::record::Field;
use keytrust::record::ParseError;
use keytrust::record::take_optional;
use keytrust::record::take_required;
use keytrust::signature::DetachedSignature;

fn certificate(subject: &str, key: &str, issuer: Option<&str>, signature: Option<&str>) -> Certificate {
    Certificate {
        subject_credentials: subject.to_string(),
        public_key: key.to_string(),
        issuer_credentials: issuer.map(|s| s.to_string()),
        signature: signature.map(|s| s.to_string()),
    }
}

#[test]
fn certificate_text_is_exact() {
    let c = certificate(
        "Alice alice@example.com",
        "ssh-ed25519 AAAAC3 alice",
        Some("Root"),
        Some("c2lnbmF0dXJl"),
    );
    assert_eq!(
        c.to_toml_string(),
        "issuer_credentials = \"Root\"\npublic_key = \"ssh-ed25519 AAAAC3 alice\"\nsignature = \"c2lnbmF0dXJl\"\nsubject_credentials = \"Alice alice@example.com\"\n"
    );
}

#[test]
fn self_signed_certificate_text_has_no_issuer_line() {
    let c = certificate("Alice", "KEY", None, Some("c2ln"));
    assert_eq!(
        c.to_toml_string(),
        "public_key = \"KEY\"\nsignature = \"c2ln\"\nsubject_credentials = \"Alice\"\n"
    );
}

#[test]
fn unsigned_certificate_text_has_no_signature_line() {
    let c = certificate("Alice", "KEY", None, None);
    assert_eq!(c.to_toml_string(), "public_key = \"KEY\"\nsubject_credentials = \"Alice\"\n");
}

#[test]
fn certificate_round_trips() {
    let all = vec![
        certificate("Alice alice@example.com", "ssh-ed25519 AAAAC3 alice", None, Some("c2ln")),
        certificate("Bob", "ssh-rsa AAAAB3", Some("Alice alice@example.com"), Some("QUJD")),
        certificate("Carol", "k", Some("Root"), Some("c2ln")),
        certificate("", "", Some(""), Some("")),
        certificate("", "", None, Some("")),
    ];
    for c in all {
        let text = c.to_toml_string();
        assert_eq!(Certificate::from_toml_string(&text), Ok(c));
    }
}

#[test]
fn unsigned_certificate_does_not_read_back() {
    for c in [certificate("Carol", "k", Some("Root"), None), certificate("Dave", "k", None, None)] {
        let text = c.to_toml_string();
        assert_eq!(Certificate::from_toml_string(&text), Err(ParseError::MissingField));
    }
}

#[test]
fn certificate_round_trips_with_awkward_characters() {
    let c = certificate(
        "quote \" backslash \\ newline \n tab \t return \r bell \u{7} delete \u{7f}",
        "snowman \u{2603} and astral \u{1F600}",
        Some("'single' and '''triple'''"),
        Some("key = \"value\" # not a comment\n[table]"),
    );
    let text = c.to_toml_string();
    assert_eq!(Certificate::from_toml_string(&text), Ok(c));
}

#[test]
fn writing_is_deterministic() {
    let c = certificate("Alice", "KEY", Some("Root"), Some("c2ln"));
    assert_eq!(c.to_toml_string(), c.clone().to_toml_string());
}

#[test]
fn certificate_parses_fields_in_any_order() {
    let text = "subject_credentials = \"Alice\"\npublic_key = \"KEY\"\nsignature = \"c2ln\"\n".to_string();
    assert_eq!(
        Certificate::from_toml_string(&text),
        Ok(certificate("Alice", "KEY", None, Some("c2ln")))
    );
}

#[test]
fn certificate_ignores_other_keys() {
    let text = "subject_credentials = \"Alice\"\npublic_key = \"KEY\"\nsignature = \"c2ln\"\nnote = 7\n[extra]\nx = 1\n".to_string();
    assert_eq!(
        Certificate::from_toml_string(&text),
        Ok(certificate("Alice", "KEY", None, Some("c2ln")))
    );
}

#[test]
fn certificate_without_signature_is_refused() {
    let text = "subject_credentials = \"Alice\"\npublic_key = \"KEY\"\nissuer_credentials = \"Root\"\n".to_string();
    assert_eq!(Certificate::from_toml_string(&text), Err(ParseError::MissingField));
    let text = "subject_credentials = \"a\"\npublic_key = \"k\"\n".to_string();
    assert_eq!(Certificate::from_toml_string(&text), Err(ParseError::MissingField));
}

#[test]
fn certificate_text_that_is_no_toml_is_malformed() {
    for text in ["subject_credentials = ", "this is not toml", "a = \"unterminated", "= 1"] {
        assert_eq!(Certificate::from_toml_string(&text.to_string()), Err(ParseError::Malformed));
    }
}

#[test]
fn certificate_with_a_key_given_twice_is_malformed() {
    let text = "subject_credentials = \"Alice\"\nsubject_credentials = \"Mallory\"\npublic_key = \"KEY\"\n".to_string();
    assert_eq!(Certificate::from_toml_string(&text), Err(ParseError::Malformed));
}

#[test]
fn certificate_without_required_field_is_missing_field() {
    let no_key = "subject_credentials = \"Alice\"\nsignature = \"c2ln\"\n".to_string();
    assert_eq!(Certificate::from_toml_string(&no_key), Err(ParseError::MissingField));
    let no_subject = "public_key = \"KEY\"\nsignature = \"c2ln\"\n".to_string();
    assert_eq!(Certificate::from_toml_string(&no_subject), Err(ParseError::MissingField));
    assert_eq!(Certificate::from_toml_string(&String::new()), Err(ParseError::MissingField));
}

#[test]
fn certificate_with_field_of_another_kind_is_not_text() {
    let number = "subject_credentials = 5\npublic_key = \"KEY\"\n".to_string();
    assert_eq!(Certificate::from_toml_string(&number), Err(ParseError::NotText));
    let array = "subject_credentials = \"Alice\"\npublic_key = \"KEY\"\nissuer_credentials = [\"Root\"]\n".to_string();
    assert_eq!(Certificate::from_toml_string(&array), Err(ParseError::NotText));
    let table = "subject_credentials = \"Alice\"\npublic_key = \"KEY\"\n[signature]\nvalue = \"c2ln\"\n".to_string();
    assert_eq!(Certificate::from_toml_string(&table), Err(ParseError::NotText));
    let date = "subject_credentials = \"Alice\"\npublic_key = 1979-05-27T07:32:00Z\n".to_string();
    assert_eq!(Certificate::from_toml_string(&date), Err(ParseError::NotText));
}

#[test]
fn first_field_at_fault_decides_the_error() {
    let text = "subject_credentials = 5\n".to_string();
    assert_eq!(Certificate::from_toml_string(&text), Err(ParseError::NotText));
    let text = "public_key = 5\n".to_string();
    assert_eq!(Certificate::from_toml_string(&text), Err(ParseError::MissingField));
}

#[test]
fn certificate_from_fields() {
    let text = |s: &str| Field::Text(s.to_string());
    assert_eq!(
        Certificate::from_fields(text("Alice"), text("KEY"), Field::Missing, text("c2ln")),
        Ok(certificate("Alice", "KEY", None, Some("c2ln")))
    );
    assert_eq!(
        Certificate::from_fields(text("Alice"), text("KEY"), Field::Missing, Field::Missing),
        Err(ParseError::MissingField)
    );
    assert_eq!(
        Certificate::from_fields(text("Alice"), text("KEY"), text("Root"), Field::Missing),
        Err(ParseError::MissingField)
    );
    assert_eq!(
        Certificate::from_fields(text("Alice"), text("KEY"), text("Root"), text("c2ln")),
        Ok(certificate("Alice", "KEY", Some("Root"), Some("c2ln")))
    );
    assert_eq!(
        Certificate::from_fields(Field::Missing, text("KEY"), text("Root"), text("c2ln")),
        Err(ParseError::MissingField)
    );
    assert_eq!(
        Certificate::from_fields(text("Alice"), Field::Other, text("Root"), text("c2ln")),
        Err(ParseError::NotText)
    );
    assert_eq!(
        Certificate::from_fields(text("Alice"), text("KEY"), Field::Other, text("c2ln")),
        Err(ParseError::NotText)
    );
    assert_eq!(
        Certificate::from_fields(text("Alice"), text("KEY"), Field::Missing, Field::Other),
        Err(ParseError::NotText)
    );
}

#[test]
fn required_and_optional_fields() {
    assert_eq!(take_required(Field::Text("x".to_string())), Ok("x".to_string()));
    assert_eq!(take_required(Field::Missing), Err(ParseError::MissingField));
    assert_eq!(take_required(Field::Other), Err(ParseError::NotText));
    assert_eq!(take_optional(Field::Text("x".to_string())), Ok(Some("x".to_string())));
    assert_eq!(take_optional(Field::Missing), Ok(None));
    assert_eq!(take_optional(Field::Other), Err(ParseError::NotText));
}

#[test]
fn detached_signature_text_is_exact() {
    let d = DetachedSignature {
        signature: "aGVsbG8=".to_string(),
        signatory_credentials: "Alice alice@example.com".to_string(),
    };
    assert_eq!(
        d.to_toml_string(),
        "signatory_credentials = \"Alice alice@example.com\"\nsignature = \"aGVsbG8=\"\n"
    );
}

#[test]
fn detached_signature_round_trips() {
    let all = vec![
        DetachedSignature {
            signature: "aGVsbG8=".to_string(),
            signatory_credentials: "Alice alice@example.com".to_string(),
        },
        DetachedSignature { signature: String::new(), signatory_credentials: String::new() },
        DetachedSignature {
            signature: "not base64 at all \" \\ \n".to_string(),
            signatory_credentials: "\u{0} \u{1F600}".to_string(),
        },
    ];
    for d in all {
        let text = d.to_toml_string();
        assert_eq!(DetachedSignature::from_toml_string(&text), Ok(d));
    }
}

#[test]
fn detached_signature_parse_errors() {
    let parse = |s: &str| DetachedSignature::from_toml_string(&s.to_string());
    assert_eq!(parse("signature = "), Err(ParseError::Malformed));
    assert_eq!(parse("signature = \"a\"\n"), Err(ParseError::MissingField));
    assert_eq!(parse("signatory_credentials = \"Alice\"\n"), Err(ParseError::MissingField));
    assert_eq!(parse("signature = 1\nsignatory_credentials = \"Alice\"\n"), Err(ParseError::NotText));
    assert_eq!(parse("signature = \"a\"\nsignatory_credentials = true\n"), Err(ParseError::NotText));
    assert_eq!(
        parse("signature = \"a\"\nsignature = \"b\"\nsignatory_credentials = \"Alice\"\n"),
        Err(ParseError::Malformed)
    );
}

#[test]
fn detached_signature_from_fields() {
    assert_eq!(
        DetachedSignature::from_fields(Field::Text("s".to_string()), Field::Text("Alice".to_string())),
        Ok(DetachedSignature { signature: "s".to_string(), signatory_credentials: "Alice".to_string() })
    );
    assert_eq!(
        DetachedSignature::from_fields(Field::Missing, Field::Other),
        Err(ParseError::MissingField)
    );
    assert_eq!(
        DetachedSignature::from_fields(Field::Text("s".to_string()), Field::Other),
        Err(ParseError::NotText)
    );
}
