use base64::engine::general_purpose::STANDARD;
use base64::Engine;
use certsync::secret::{
    fetch, find_field, pem_text, read_material, CertificateMaterial, FetchError, SecretEntry,
    SecretField, SecretLookup, StoredSecret,
};

const CERT_PEM: &str = "-----BEGIN CERTIFICATE-----\nMIIBszCCAVmgAwIBAgIUe0\n-----END CERTIFICATE-----\n";
const KEY_PEM: &str = "SECRET-REDACTED\n";

fn entry(key: &str, value: &[u8]) -> SecretEntry {
    SecretEntry { key: key.to_string(), value: value.to_vec() }
}

fn encoded(text: &str) -> Vec<u8> {
    STANDARD.encode(text).into_bytes()
}

fn secret(entries: Vec<SecretEntry>) -> StoredSecret {
    StoredSecret { entries }
}

fn tls_secret() -> StoredSecret {
    secret(vec![entry("tls.crt", &encoded(CERT_PEM)), entry("tls.key", &encoded(KEY_PEM))])
}

fn expect_material(result: Result<CertificateMaterial, FetchError>) -> CertificateMaterial {
    match result {
        Ok(material) => material,
        Err(error) => panic!("no material: {:?}", error),
    }
}

fn expect_error(result: Result<CertificateMaterial, FetchError>) -> FetchError {
    match result {
        Ok(_) => panic!("material where an error was expected"),
        Err(error) => error,
    }
}

#[test]
fn fetch_returns_the_decoded_texts_exactly() {
    let material = expect_material(fetch(SecretLookup::Found(tls_secret())));
    assert_eq!(material.certificate_pem(), CERT_PEM);
    assert_eq!(material.private_key_pem(), KEY_PEM);
}

#[test]
fn fetch_decodes_a_known_encoding() {
    // "aGVsbG8=" is base64 of "hello", "d29ybGQ=" of "world".
    let stored = secret(vec![entry("tls.crt", b"aGVsbG8="), entry("tls.key", b"d29ybGQ=")]);
    let material = expect_material(fetch(SecretLookup::Found(stored)));
    assert_eq!(material.certificate_pem(), "hello");
    assert_eq!(material.private_key_pem(), "world");
}

#[test]
fn fetch_round_trips_text_outside_ascii() {
    let certificate = "z\u{fc}rich \u{2713}";
    let key = "\u{1f511} key";
    let stored = secret(vec![entry("tls.crt", &encoded(certificate)), entry("tls.key", &encoded(key))]);
    let material = expect_material(fetch(SecretLookup::Found(stored)));
    assert_eq!(material.certificate_pem(), certificate);
    assert_eq!(material.private_key_pem(), key);
}

#[test]
fn entries_are_found_under_their_keys_in_any_order() {
    let stored = secret(vec![
        entry("ca.crt", &encoded("other")),
        entry("tls.key", &encoded(KEY_PEM)),
        entry("tls.crt", &encoded(CERT_PEM)),
    ]);
    let material = expect_material(read_material(&stored));
    assert_eq!(material.certificate_pem(), CERT_PEM);
    assert_eq!(material.private_key_pem(), KEY_PEM);
}

#[test]
fn the_first_entry_under_a_key_counts() {
    let stored = secret(vec![
        entry("tls.crt", &encoded("first")),
        entry("tls.crt", &encoded("second")),
        entry("tls.key", &encoded(KEY_PEM)),
    ]);
    assert_eq!(find_field(&stored, SecretField::Certificate), Some(&encoded("first")));
    let material = expect_material(read_material(&stored));
    assert_eq!(material.certificate_pem(), "first");
}

#[test]
fn find_field_gives_the_stored_bytes_or_nothing() {
    let stored = tls_secret();
    assert_eq!(find_field(&stored, SecretField::Certificate), Some(&encoded(CERT_PEM)));
    assert_eq!(find_field(&stored, SecretField::PrivateKey), Some(&encoded(KEY_PEM)));
    let other = secret(vec![entry("tls.crt.bak", b"eA=="), entry("TLS.KEY", b"eA==")]);
    assert_eq!(find_field(&other, SecretField::Certificate), None);
    assert_eq!(find_field(&other, SecretField::PrivateKey), None);
}

#[test]
fn field_keys_are_those_of_a_tls_secret() {
    assert_eq!(SecretField::Certificate.key_name(), "tls.crt");
    assert_eq!(SecretField::PrivateKey.key_name(), "tls.key");
}

#[test]
fn a_missing_key_is_reported_without_decoding() {
    // The certificate entry is not base64 at all: were it decoded first,
    // the error would be a decode error.
    let stored = secret(vec![entry("tls.crt", b"!!! not base64 !!!")]);
    assert_eq!(
        expect_error(fetch(SecretLookup::Found(stored))),
        FetchError::MissingField(SecretField::PrivateKey)
    );
    let stored = secret(vec![entry("tls.crt", &encoded(CERT_PEM))]);
    assert_eq!(
        expect_error(fetch(SecretLookup::Found(stored))),
        FetchError::MissingField(SecretField::PrivateKey)
    );
}

#[test]
fn a_missing_certificate_is_reported_first() {
    let stored = secret(vec![entry("tls.key", &encoded(KEY_PEM))]);
    assert_eq!(
        expect_error(fetch(SecretLookup::Found(stored))),
        FetchError::MissingField(SecretField::Certificate)
    );
    assert_eq!(
        expect_error(fetch(SecretLookup::Found(secret(vec![])))),
        FetchError::MissingField(SecretField::Certificate)
    );
}

#[test]
fn an_entry_that_is_not_base64_is_a_decode_error() {
    let stored = secret(vec![entry("tls.crt", CERT_PEM.as_bytes()), entry("tls.key", &encoded(KEY_PEM))]);
    assert_eq!(
        expect_error(fetch(SecretLookup::Found(stored))),
        FetchError::DecodeError(SecretField::Certificate)
    );
    let stored = secret(vec![entry("tls.crt", &encoded(CERT_PEM)), entry("tls.key", b"a")]);
    assert_eq!(
        expect_error(fetch(SecretLookup::Found(stored))),
        FetchError::DecodeError(SecretField::PrivateKey)
    );
}

#[test]
fn base64_without_its_padding_is_a_decode_error() {
    let stored = secret(vec![entry("tls.crt", b"aGVsbG8"), entry("tls.key", b"d29ybGQ=")]);
    assert_eq!(
        expect_error(fetch(SecretLookup::Found(stored))),
        FetchError::DecodeError(SecretField::Certificate)
    );
}

#[test]
fn bytes_that_are_not_utf8_are_a_decode_error() {
    let not_text = STANDARD.encode([0xffu8, 0xfe, 0x00]).into_bytes();
    let stored = secret(vec![entry("tls.crt", &encoded(CERT_PEM)), entry("tls.key", &not_text)]);
    assert_eq!(
        expect_error(fetch(SecretLookup::Found(stored))),
        FetchError::DecodeError(SecretField::PrivateKey)
    );
}

#[test]
fn an_empty_entry_is_a_decode_error() {
    let stored = secret(vec![entry("tls.crt", b""), entry("tls.key", &encoded(KEY_PEM))]);
    assert_eq!(
        expect_error(fetch(SecretLookup::Found(stored))),
        FetchError::DecodeError(SecretField::Certificate)
    );
    let stored = secret(vec![entry("tls.crt", &encoded(CERT_PEM)), entry("tls.key", b"")]);
    assert_eq!(
        expect_error(fetch(SecretLookup::Found(stored))),
        FetchError::DecodeError(SecretField::PrivateKey)
    );
}

#[test]
fn the_certificate_is_decoded_before_the_key() {
    let stored = secret(vec![entry("tls.crt", b"%"), entry("tls.key", b"%")]);
    assert_eq!(
        expect_error(fetch(SecretLookup::Found(stored))),
        FetchError::DecodeError(SecretField::Certificate)
    );
}

#[test]
fn a_store_without_the_secret_is_not_found() {
    let lookup = SecretLookup::Refused { code: 404, message: "secrets \"tls-cert\" not found".to_string() };
    assert_eq!(expect_error(fetch(lookup)), FetchError::NotFound);
}

#[test]
fn other_refusals_carry_the_store_text() {
    let lookup = SecretLookup::Refused { code: 403, message: "forbidden".to_string() };
    assert_eq!(expect_error(fetch(lookup)), FetchError::Transport("forbidden".to_string()));
    let lookup = SecretLookup::Refused { code: 500, message: "boom".to_string() };
    assert_eq!(expect_error(fetch(lookup)), FetchError::Transport("boom".to_string()));
}

#[test]
fn an_unreachable_store_carries_the_failure_text() {
    let lookup = SecretLookup::Unreachable("connection refused".to_string());
    assert_eq!(
        expect_error(fetch(lookup)),
        FetchError::Transport("connection refused".to_string())
    );
}

#[test]
fn pem_text_reads_decoded_bytes_as_text() {
    assert_eq!(
        pem_text(SecretField::Certificate, Some(b"hello".to_vec())),
        Ok("hello".to_string())
    );
    assert_eq!(
        pem_text(SecretField::PrivateKey, Some("gr\u{fc}n".as_bytes().to_vec())),
        Ok("gr\u{fc}n".to_string())
    );
}

#[test]
fn pem_text_refuses_what_is_not_text() {
    assert_eq!(
        pem_text(SecretField::Certificate, None),
        Err(FetchError::DecodeError(SecretField::Certificate))
    );
    assert_eq!(
        pem_text(SecretField::PrivateKey, Some(vec![])),
        Err(FetchError::DecodeError(SecretField::PrivateKey))
    );
    assert_eq!(
        pem_text(SecretField::PrivateKey, Some(vec![0xc3])),
        Err(FetchError::DecodeError(SecretField::PrivateKey))
    );
    assert_eq!(
        pem_text(SecretField::Certificate, Some(vec![0xed, 0xa0, 0x80])),
        Err(FetchError::DecodeError(SecretField::Certificate))
    );
}

#[test]
fn material_is_never_empty() {
    assert!(CertificateMaterial::new(String::new(), KEY_PEM.to_string()).is_none());
    assert!(CertificateMaterial::new(CERT_PEM.to_string(), String::new()).is_none());
    assert!(CertificateMaterial::new(String::new(), String::new()).is_none());
    let material = CertificateMaterial::new("c".to_string(), "k".to_string()).unwrap();
    assert_eq!(material.certificate_pem(), "c");
    assert_eq!(material.private_key_pem(), "k");
}

#[test]
fn fetch_errors_say_what_went_wrong() {
    assert_eq!(FetchError::NotFound.message(), "secret not found");
    assert_eq!(
        FetchError::MissingField(SecretField::Certificate).message(),
        "tls.crt not found in secret"
    );
    assert_eq!(
        FetchError::MissingField(SecretField::PrivateKey).message(),
        "tls.key not found in secret"
    );
    assert_eq!(
        FetchError::DecodeError(SecretField::Certificate).message(),
        "tls.crt does not decode to PEM text"
    );
    assert_eq!(
        FetchError::DecodeError(SecretField::PrivateKey).message(),
        "tls.key does not decode to PEM text"
    );
    assert_eq!(FetchError::Transport("timed out".to_string()).message(), "timed out");
}
