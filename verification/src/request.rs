//! Sync requests and their validation.

use vstd::prelude::*;

verus! {

/// Names the secret that holds the new key material.
#[derive(Debug, PartialEq, Eq)]
pub struct CertificateRequest {
    pub namespace: String,
    pub secret_name: String,
}

/// A request as contracts see it.
pub struct CertificateRequestView {
    pub namespace: Seq<char>,
    pub secret_name: Seq<char>,
}

impl View for CertificateRequest {
    type V = CertificateRequestView;

    open spec fn view(&self) -> CertificateRequestView {
        CertificateRequestView { namespace: self.namespace@, secret_name: self.secret_name@ }
    }
}

/// Why a request was refused.
#[derive(Clone, Copy, Debug, PartialEq, Eq, Structural)]
pub enum ValidationError {
    EmptyNamespace,
    EmptySecretName,
    InvalidNamespace,
    InvalidSecretName,
}

impl ValidationError {
    /// What the error says to the caller.
    pub open spec fn text(self) -> Seq<char> {
        match self {
            ValidationError::EmptyNamespace => "namespace cannot be empty"@,
            ValidationError::EmptySecretName => "secret_name cannot be empty"@,
            ValidationError::InvalidNamespace => "namespace contains invalid characters"@,
            ValidationError::InvalidSecretName => "secret_name contains invalid characters"@,
        }
    }

    /// What the error says to the caller.
    pub fn message(&self) -> (message: String)
        ensures
            message@ == self.text(),
    {
        match self {
            ValidationError::EmptyNamespace => String::from_str("namespace cannot be empty"),
            ValidationError::EmptySecretName => String::from_str("secret_name cannot be empty"),
            ValidationError::InvalidNamespace => String::from_str(
                "namespace contains invalid characters",
            ),
            ValidationError::InvalidSecretName => String::from_str(
                "secret_name contains invalid characters",
            ),
        }
    }
}

/// An ASCII letter or digit.
pub open spec fn is_ascii_alphanumeric(c: char) -> bool {
    ||| 'a' <= c <= 'z'
    ||| 'A' <= c <= 'Z'
    ||| '0' <= c <= '9'
}

/// A character that a namespace may hold: an ASCII letter, a digit or `-`.
pub open spec fn is_namespace_char(c: char) -> bool {
    is_ascii_alphanumeric(c) || c == '-'
}

/// A character that a secret name may hold: what a namespace may hold, or `.`.
pub open spec fn is_secret_name_char(c: char) -> bool {
    is_namespace_char(c) || c == '.'
}

/// Every character of `s` is one a namespace may hold.
pub open spec fn is_namespace_text(s: Seq<char>) -> bool {
    forall|i: int| 0 <= i < s.len() ==> is_namespace_char(#[trigger] s[i])
}

/// Every character of `s` is one a secret name may hold.
pub open spec fn is_secret_name_text(s: Seq<char>) -> bool {
    forall|i: int| 0 <= i < s.len() ==> is_secret_name_char(#[trigger] s[i])
}

/// The verdict on a request: the first rule that it breaks, in the order
/// empty namespace, empty secret name, bad namespace, bad secret name.
pub open spec fn validation(request: CertificateRequestView) -> Result<(), ValidationError> {
    if request.namespace.len() == 0 {
        Err(ValidationError::EmptyNamespace)
    } else if request.secret_name.len() == 0 {
        Err(ValidationError::EmptySecretName)
    } else if !is_namespace_text(request.namespace) {
        Err(ValidationError::InvalidNamespace)
    } else if !is_secret_name_text(request.secret_name) {
        Err(ValidationError::InvalidSecretName)
    } else {
        Ok(())
    }
}

/// A request is accepted exactly where both names are non-empty and hold
/// only characters that they may hold.
pub proof fn lemma_accepted(request: CertificateRequestView)
    ensures
        validation(request) is Ok <==> {
            &&& request.namespace.len() > 0
            &&& request.secret_name.len() > 0
            &&& is_namespace_text(request.namespace)
            &&& is_secret_name_text(request.secret_name)
        },
{
}

/// A request with an empty namespace or an empty secret name is refused.
pub proof fn lemma_empty_name_refused(request: CertificateRequestView)
    requires
        request.namespace.len() == 0 || request.secret_name.len() == 0,
    ensures
        validation(request) is Err,
{
}

/// A request whose namespace holds, at `i`, a character that a namespace
/// may not hold is refused.
pub proof fn lemma_foreign_namespace_char_refused(request: CertificateRequestView, i: int)
    requires
        0 <= i < request.namespace.len(),
        !is_namespace_char(request.namespace[i]),
    ensures
        validation(request) is Err,
{
}

/// A request whose secret name holds, at `i`, a character that a secret
/// name may not hold is refused.
pub proof fn lemma_foreign_secret_name_char_refused(request: CertificateRequestView, i: int)
    requires
        0 <= i < request.secret_name.len(),
        !is_secret_name_char(request.secret_name[i]),
    ensures
        validation(request) is Err,
{
}

fn allowed(c: char, dot: bool) -> (b: bool)
    ensures
        b == (is_namespace_char(c) || (dot && c == '.')),
{
    (c >= 'a' && c <= 'z') || (c >= 'A' && c <= 'Z') || (c >= '0' && c <= '9') || c == '-' || (dot
        && c == '.')
}

fn only_allowed(s: &str, dot: bool) -> (b: bool)
    ensures
        b == (forall|i: int|
            0 <= i < s@.len() ==> (is_namespace_char(#[trigger] s@[i]) || (dot && s@[i] == '.'))),
{
    let mut ok = true;
    for c in it: s.chars()
        invariant
            it.seq() == s@,
            ok == (forall|i: int|
                0 <= i < it.index() ==> (is_namespace_char(#[trigger] s@[i]) || (dot && s@[i]
                    == '.'))),
    {
        if !allowed(c, dot) {
            ok = false;
        }
    }
    ok
}

/// Checks a request before anything is asked of a remote service.
pub fn validate(request: &CertificateRequest) -> (r: Result<(), ValidationError>)
    ensures
        r == validation(request@),
{
    if request.namespace.as_str().is_empty() {
        return Err(ValidationError::EmptyNamespace);
    }
    if request.secret_name.as_str().is_empty() {
        return Err(ValidationError::EmptySecretName);
    }
    if !only_allowed(request.namespace.as_str(), false) {
        return Err(ValidationError::InvalidNamespace);
    }
    if !only_allowed(request.secret_name.as_str(), true) {
        return Err(ValidationError::InvalidSecretName);
    }
    Ok(())
}

} // verus!
