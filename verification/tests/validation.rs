use certsync::request::{validate, CertificateRequest, ValidationError};

fn request(namespace: &str, secret_name: &str) -> CertificateRequest {
    CertificateRequest { namespace: namespace.to_string(), secret_name: secret_name.to_string() }
}

#[test]
fn accepts_plain_names() {
    assert_eq!(validate(&request("prod", "tls-cert")), Ok(()));
}

#[test]
fn accepts_every_allowed_character() {
    assert_eq!(validate(&request("azAZ09-", "azAZ09-.")), Ok(()));
    assert_eq!(validate(&request("-", ".")), Ok(()));
}

#[test]
fn refuses_empty_namespace() {
    assert_eq!(validate(&request("", "tls-cert")), Err(ValidationError::EmptyNamespace));
}

#[test]
fn refuses_empty_secret_name() {
    assert_eq!(validate(&request("prod", "")), Err(ValidationError::EmptySecretName));
}

#[test]
fn reports_the_namespace_first_when_both_are_empty() {
    assert_eq!(validate(&request("", "")), Err(ValidationError::EmptyNamespace));
}

#[test]
fn emptiness_is_reported_before_characters() {
    assert_eq!(validate(&request("pr_od", "")), Err(ValidationError::EmptySecretName));
}

#[test]
fn refuses_foreign_character_in_namespace() {
    assert_eq!(validate(&request("pr_od", "tls-cert")), Err(ValidationError::InvalidNamespace));
    assert_eq!(validate(&request("prod/x", "tls-cert")), Err(ValidationError::InvalidNamespace));
    assert_eq!(validate(&request("prod ", "tls-cert")), Err(ValidationError::InvalidNamespace));
}

#[test]
fn a_dot_is_for_secret_names_only() {
    assert_eq!(validate(&request("prod.eu", "tls-cert")), Err(ValidationError::InvalidNamespace));
    assert_eq!(validate(&request("prod", "tls.cert")), Ok(()));
}

#[test]
fn refuses_foreign_character_in_secret_name() {
    assert_eq!(validate(&request("prod", "tls_cert")), Err(ValidationError::InvalidSecretName));
    assert_eq!(validate(&request("prod", "tls/cert")), Err(ValidationError::InvalidSecretName));
}

#[test]
fn reports_the_namespace_first_when_both_hold_foreign_characters() {
    assert_eq!(validate(&request("pr_od", "tls_cert")), Err(ValidationError::InvalidNamespace));
}

#[test]
fn refuses_letters_and_digits_outside_ascii() {
    assert_eq!(validate(&request("pr\u{f6}d", "tls-cert")), Err(ValidationError::InvalidNamespace));
    assert_eq!(validate(&request("prod", "tls-c\u{e9}rt")), Err(ValidationError::InvalidSecretName));
    assert_eq!(validate(&request("prod\u{663}", "tls-cert")), Err(ValidationError::InvalidNamespace));
}

#[test]
fn refuses_the_neighbours_of_the_allowed_ranges() {
    for c in ['`', '{', '@', '[', '/', ':', ',', '\u{7f}', '\0'] {
        let name = format!("a{}b", c);
        assert_eq!(validate(&request(&name, "tls-cert")), Err(ValidationError::InvalidNamespace));
        assert_eq!(validate(&request("prod", &name)), Err(ValidationError::InvalidSecretName));
    }
}

#[test]
fn messages_name_the_broken_rule() {
    assert_eq!(ValidationError::EmptyNamespace.message(), "namespace cannot be empty");
    assert_eq!(ValidationError::EmptySecretName.message(), "secret_name cannot be empty");
    assert_eq!(
        ValidationError::InvalidNamespace.message(),
        "namespace contains invalid characters"
    );
    assert_eq!(
        ValidationError::InvalidSecretName.message(),
        "secret_name contains invalid characters"
    );
}
