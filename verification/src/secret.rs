//! Key material, and how it is read out of what the secret store answered.

use crate::codec::{base64_standard_decode, standard_decode, utf8_text};
use crate::search::{first_index, lemma_first_index, lemma_first_index_is};
use vstd::prelude::*;
use vstd::utf8::{decode_utf8, valid_utf8};

verus! {

/// The status with which the secret store says that it holds no such secret.
pub const NOT_FOUND: u16 = 404;

/// One of the two entries that a TLS secret must hold.
#[derive(Clone, Copy, Debug, PartialEq, Eq, Structural)]
pub enum SecretField {
    Certificate,
    PrivateKey,
}

impl SecretField {
    /// The key under which the store keeps this entry.
    pub open spec fn key(self) -> Seq<char> {
        match self {
            SecretField::Certificate => "tls.crt"@,
            SecretField::PrivateKey => "tls.key"@,
        }
    }

    /// The key under which the store keeps this entry.
    pub fn key_name(&self) -> (name: &'static str)
        ensures
            name@ == self.key(),
    {
        match self {
            SecretField::Certificate => "tls.crt",
            SecretField::PrivateKey => "tls.key",
        }
    }
}

/// One entry of a secret: its key, and its value as the store keeps it.
pub struct SecretEntry {
    pub key: String,
    pub value: Vec<u8>,
}

/// An entry as contracts see it.
pub struct SecretEntryView {
    pub key: Seq<char>,
    pub value: Seq<u8>,
}

impl View for SecretEntry {
    type V = SecretEntryView;

    open spec fn view(&self) -> SecretEntryView {
        SecretEntryView { key: self.key@, value: self.value@ }
    }
}

/// A secret as the store returned it. Where two entries share a key, the
/// first one counts.
pub struct StoredSecret {
    pub entries: Vec<SecretEntry>,
}

impl View for StoredSecret {
    type V = Seq<SecretEntryView>;

    open spec fn view(&self) -> Seq<SecretEntryView> {
        self.entries@.map_values(|entry: SecretEntry| entry@)
    }
}

/// What a lookup in the secret store came to.
pub enum SecretLookup {
    /// The store returned the secret.
    Found(StoredSecret),
    /// The store answered with an error status.
    Refused { code: u16, message: String },
    /// No answer came: the text of the failure.
    Unreachable(String),
}

/// A lookup as contracts see it.
pub enum SecretLookupView {
    Found(Seq<SecretEntryView>),
    Refused { code: u16, message: Seq<char> },
    Unreachable(Seq<char>),
}

impl View for SecretLookup {
    type V = SecretLookupView;

    open spec fn view(&self) -> SecretLookupView {
        match self {
            SecretLookup::Found(secret) => SecretLookupView::Found(secret@),
            SecretLookup::Refused { code, message } => SecretLookupView::Refused {
                code: *code,
                message: message@,
            },
            SecretLookup::Unreachable(text) => SecretLookupView::Unreachable(text@),
        }
    }
}

/// Why no key material could be had.
#[derive(Debug, PartialEq, Eq)]
pub enum FetchError {
    /// The store holds no such secret.
    NotFound,
    /// The secret has no entry for this field.
    MissingField(SecretField),
    /// The entry is not base64, or what it decodes to is not UTF-8 text, or
    /// it decodes to nothing.
    DecodeError(SecretField),
    /// The store could not be asked, or refused for another reason: its text.
    Transport(String),
}

/// A fetch error as contracts see it.
pub enum FetchErrorView {
    NotFound,
    MissingField(SecretField),
    DecodeError(SecretField),
    Transport(Seq<char>),
}

impl View for FetchError {
    type V = FetchErrorView;

    open spec fn view(&self) -> FetchErrorView {
        match self {
            FetchError::NotFound => FetchErrorView::NotFound,
            FetchError::MissingField(field) => FetchErrorView::MissingField(*field),
            FetchError::DecodeError(field) => FetchErrorView::DecodeError(*field),
            FetchError::Transport(text) => FetchErrorView::Transport(text@),
        }
    }
}

impl FetchErrorView {
    /// What the error says to the caller.
    pub open spec fn text(self) -> Seq<char> {
        match self {
            FetchErrorView::NotFound => "secret not found"@,
            FetchErrorView::MissingField(field) => field.key() + " not found in secret"@,
            FetchErrorView::DecodeError(field) => field.key() + " does not decode to PEM text"@,
            FetchErrorView::Transport(text) => text,
        }
    }
}

impl FetchError {
    /// What the error says to the caller.
    pub fn message(&self) -> (message: String)
        ensures
            message@ == self@.text(),
    {
        match self {
            FetchError::NotFound => String::from_str("secret not found"),
            FetchError::MissingField(field) => String::from_str(field.key_name()).concat(
                " not found in secret",
            ),
            FetchError::DecodeError(field) => String::from_str(field.key_name()).concat(
                " does not decode to PEM text",
            ),
            FetchError::Transport(text) => text.clone(),
        }
    }
}

/// Key material as contracts see it.
pub struct CertificateMaterialView {
    pub certificate_pem: Seq<char>,
    pub private_key_pem: Seq<char>,
}

impl CertificateMaterialView {
    /// Neither text is empty.
    pub open spec fn wf(self) -> bool {
        self.certificate_pem.len() > 0 && self.private_key_pem.len() > 0
    }
}

/// A certificate and its private key, as PEM text. Neither is ever empty.
/// The material cannot be printed.
pub struct CertificateMaterial {
    certificate_pem: String,
    private_key_pem: String,
}

impl View for CertificateMaterial {
    type V = CertificateMaterialView;

    closed spec fn view(&self) -> CertificateMaterialView {
        CertificateMaterialView {
            certificate_pem: self.certificate_pem@,
            private_key_pem: self.private_key_pem@,
        }
    }
}

impl CertificateMaterial {
    #[verifier::type_invariant]
    spec fn well_formed(self) -> bool {
        self@.wf()
    }

    /// Material made of the two texts, or `None` where one of them is empty.
    pub fn new(certificate_pem: String, private_key_pem: String) -> (r: Option<CertificateMaterial>)
        ensures
            r is Some <==> certificate_pem@.len() > 0 && private_key_pem@.len() > 0,
            r matches Some(material) ==> material@ == (CertificateMaterialView {
                certificate_pem: certificate_pem@,
                private_key_pem: private_key_pem@,
            }),
    {
        if certificate_pem.as_str().is_empty() || private_key_pem.as_str().is_empty() {
            None
        } else {
            Some(CertificateMaterial { certificate_pem, private_key_pem })
        }
    }

    /// The certificate.
    pub fn certificate_pem(&self) -> (text: &String)
        ensures
            text@ == self@.certificate_pem,
            self@.wf(),
    {
        proof {
            use_type_invariant(self);
        }
        &self.certificate_pem
    }

    /// The private key.
    pub fn private_key_pem(&self) -> (text: &String)
        ensures
            text@ == self@.private_key_pem,
            self@.wf(),
    {
        proof {
            use_type_invariant(self);
        }
        &self.private_key_pem
    }
}

/// The value of the first entry of `entries` kept under `key`.
pub open spec fn stored_value(entries: Seq<SecretEntryView>, key: Seq<char>) -> Option<Seq<u8>> {
    match first_index(entries, |entry: SecretEntryView| entry.key == key) {
        Some(i) => Some(entries[i].value),
        None => None,
    }
}

/// The bytes that a decoder gave, if it gave any.
pub open spec fn bytes_of(decoded: Option<Vec<u8>>) -> Option<Seq<u8>> {
    match decoded {
        Some(bytes) => Some(bytes@),
        None => None,
    }
}

/// The text that decoded bytes stand for: their characters, where the bytes
/// are UTF-8 and there is at least one.
pub open spec fn text_of(decoded: Option<Seq<u8>>) -> Option<Seq<char>> {
    match decoded {
        Some(bytes) if valid_utf8(bytes) && bytes.len() > 0 => Some(decode_utf8(bytes)),
        _ => None,
    }
}

/// The key material that a secret holds: both entries present, each decoded
/// from base64 to non-empty text. The certificate is looked at first, and
/// nothing is decoded while an entry is missing.
pub open spec fn material_of(entries: Seq<SecretEntryView>) -> Result<
    CertificateMaterialView,
    FetchErrorView,
> {
    match (
        stored_value(entries, SecretField::Certificate.key()),
        stored_value(entries, SecretField::PrivateKey.key()),
    ) {
        (None, _) => Err(FetchErrorView::MissingField(SecretField::Certificate)),
        (Some(_), None) => Err(FetchErrorView::MissingField(SecretField::PrivateKey)),
        (Some(certificate), Some(private_key)) => match (
            text_of(base64_standard_decode(certificate)),
            text_of(base64_standard_decode(private_key)),
        ) {
            (None, _) => Err(FetchErrorView::DecodeError(SecretField::Certificate)),
            (Some(_), None) => Err(FetchErrorView::DecodeError(SecretField::PrivateKey)),
            (Some(certificate_pem), Some(private_key_pem)) => Ok(
                CertificateMaterialView { certificate_pem, private_key_pem },
            ),
        },
    }
}

/// What a lookup comes to: the material of the secret found, `NotFound`
/// where the store says it has none, and the store's own text otherwise.
pub open spec fn fetched(lookup: SecretLookupView) -> Result<
    CertificateMaterialView,
    FetchErrorView,
> {
    match lookup {
        SecretLookupView::Found(entries) => material_of(entries),
        SecretLookupView::Refused { code, message } => if code == NOT_FOUND {
            Err(FetchErrorView::NotFound)
        } else {
            Err(FetchErrorView::Transport(message))
        },
        SecretLookupView::Unreachable(text) => Err(FetchErrorView::Transport(text)),
    }
}

/// A secret that holds both entries, each of them base64 of non-empty UTF-8
/// text, gives exactly the two texts that the entries decode to.
pub proof fn lemma_material_is_decoded_entries(
    entries: Seq<SecretEntryView>,
    certificate: Seq<u8>,
    private_key: Seq<u8>,
    certificate_bytes: Seq<u8>,
    private_key_bytes: Seq<u8>,
)
    requires
        stored_value(entries, SecretField::Certificate.key()) == Some(certificate),
        stored_value(entries, SecretField::PrivateKey.key()) == Some(private_key),
        base64_standard_decode(certificate) == Some(certificate_bytes),
        base64_standard_decode(private_key) == Some(private_key_bytes),
        valid_utf8(certificate_bytes) && certificate_bytes.len() > 0,
        valid_utf8(private_key_bytes) && private_key_bytes.len() > 0,
    ensures
        material_of(entries) == Ok::<_, FetchErrorView>(
            CertificateMaterialView {
                certificate_pem: decode_utf8(certificate_bytes),
                private_key_pem: decode_utf8(private_key_bytes),
            },
        ),
        fetched(SecretLookupView::Found(entries)) == material_of(entries),
{
}

/// A secret without an entry for a field is reported as missing that field,
/// whatever its other entry holds: nothing is decoded on the way. The
/// certificate is reported where both are missing.
pub proof fn lemma_missing_field_reported(entries: Seq<SecretEntryView>)
    ensures
        stored_value(entries, SecretField::Certificate.key()) is None ==> material_of(entries)
            == Err::<CertificateMaterialView, _>(
            FetchErrorView::MissingField(SecretField::Certificate),
        ),
        stored_value(entries, SecretField::Certificate.key()) is Some && stored_value(
            entries,
            SecretField::PrivateKey.key(),
        ) is None ==> material_of(entries) == Err::<CertificateMaterialView, _>(
            FetchErrorView::MissingField(SecretField::PrivateKey),
        ),
        material_of(entries) matches Err(FetchErrorView::MissingField(field)) ==> stored_value(
            entries,
            field.key(),
        ) is None,
{
}

/// Material that a lookup gives is never empty on either side.
pub proof fn lemma_fetched_material_wf(lookup: SecretLookupView)
    ensures
        fetched(lookup) matches Ok(material) ==> material.wf(),
{
    if let SecretLookupView::Found(entries) = lookup {
        if let Ok(material) = material_of(entries) {
            let certificate = stored_value(entries, SecretField::Certificate.key())->0;
            let private_key = stored_value(entries, SecretField::PrivateKey.key())->0;
            lemma_text_not_empty(base64_standard_decode(certificate));
            lemma_text_not_empty(base64_standard_decode(private_key));
        }
    }
}

/// Text that decoded bytes stand for has at least one character.
pub proof fn lemma_text_not_empty(decoded: Option<Seq<u8>>)
    ensures
        text_of(decoded) matches Some(text) ==> text.len() > 0,
{
}

/// Looks up the entry of `secret` kept under the key of `field`.
pub fn find_field(secret: &StoredSecret, field: SecretField) -> (r: Option<&Vec<u8>>)
    ensures
        match r {
            Some(value) => stored_value(secret@, field.key()) == Some(value@),
            None => stored_value(secret@, field.key()) is None,
        },
{
    let key = String::from_str(field.key_name());
    let ghost wanted = |entry: SecretEntryView| entry.key == field.key();
    proof {
        lemma_first_index(secret@, wanted);
    }
    let mut i: usize = 0;
    while i < secret.entries.len()
        invariant
            i <= secret.entries.len(),
            key@ == field.key(),
            wanted == (|entry: SecretEntryView| entry.key == field.key()),
            forall|j: int| 0 <= j < i ==> !wanted(#[trigger] secret@[j]),
        decreases secret.entries.len() - i,
    {
        if secret.entries[i].key == key {
            proof {
                lemma_first_index_is(secret@, wanted, i as int);
            }
            return Some(&secret.entries[i].value);
        }
        i = i + 1;
    }
    None
}

/// Reads decoded bytes as the PEM text of `field`.
///
/// `decoded` is what base64 made of the stored entry, `None` where it refused
/// the entry. The text is the characters that the bytes encode. Bytes that
/// are not UTF-8, and no bytes at all, are a decode error of `field`.
pub fn pem_text(field: SecretField, decoded: Option<Vec<u8>>) -> (r: Result<String, FetchError>)
    ensures
        match r {
            Ok(text) => text_of(bytes_of(decoded)) == Some(text@),
            Err(error) => text_of(bytes_of(decoded)) is None && error
                == FetchError::DecodeError(field),
        },
{
    match decoded {
        Some(bytes) => {
            if bytes.len() == 0 {
                return Err(FetchError::DecodeError(field));
            }
            match utf8_text(bytes) {
                Some(text) => Ok(text),
                None => Err(FetchError::DecodeError(field)),
            }
        },
        None => Err(FetchError::DecodeError(field)),
    }
}

/// Decodes one stored entry from base64 to the PEM text of `field`.
fn decode_field(field: SecretField, stored: &Vec<u8>) -> (r: Result<String, FetchError>)
    ensures
        match r {
            Ok(text) => text_of(base64_standard_decode(stored@)) == Some(text@),
            Err(error) => text_of(base64_standard_decode(stored@)) is None && error
                == FetchError::DecodeError(field),
        },
{
    let decoded = match standard_decode(stored) {
        Ok(bytes) => Some(bytes),
        Err(_) => None,
    };
    pem_text(field, decoded)
}

/// Reads the key material out of a secret.
pub fn read_material(secret: &StoredSecret) -> (r: Result<CertificateMaterial, FetchError>)
    ensures
        match r {
            Ok(material) => material_of(secret@) == Ok::<_, FetchErrorView>(material@),
            Err(error) => material_of(secret@) == Err::<CertificateMaterialView, _>(error@),
        },
{
    let certificate = match find_field(secret, SecretField::Certificate) {
        Some(value) => value,
        None => { return Err(FetchError::MissingField(SecretField::Certificate)); },
    };
    let private_key = match find_field(secret, SecretField::PrivateKey) {
        Some(value) => value,
        None => { return Err(FetchError::MissingField(SecretField::PrivateKey)); },
    };
    let certificate_pem = match decode_field(SecretField::Certificate, certificate) {
        Ok(text) => text,
        Err(error) => { return Err(error); },
    };
    let private_key_pem = match decode_field(SecretField::PrivateKey, private_key) {
        Ok(text) => text,
        Err(error) => { return Err(error); },
    };
    Ok(CertificateMaterial { certificate_pem, private_key_pem })
}

/// Turns what the secret store answered into key material.
pub fn fetch(lookup: SecretLookup) -> (r: Result<CertificateMaterial, FetchError>)
    ensures
        match r {
            Ok(material) => fetched(lookup@) == Ok::<_, FetchErrorView>(material@),
            Err(error) => fetched(lookup@) == Err::<CertificateMaterialView, _>(error@),
        },
{
    match lookup {
        SecretLookup::Found(secret) => read_material(&secret),
        SecretLookup::Refused { code, message } => {
            if code == NOT_FOUND {
                Err(FetchError::NotFound)
            } else {
                Err(FetchError::Transport(message))
            }
        },
        SecretLookup::Unreachable(text) => Err(FetchError::Transport(text)),
    }
}

} // verus!
