//! The reasons for which a validation fails.

use vstd::prelude::*;

verus! {

/// Why the key set could not be had. The three are one failure to the
/// pipeline; the distinction serves diagnostics.
#[derive(Clone, Copy, Debug, PartialEq, Eq, Structural)]
pub enum FetchFailure {
    /// The request did not reach the endpoint, or the answer did not arrive.
    Transport,
    /// The endpoint answered with this status, which is not a success.
    Status(u16),
    /// The answer is not a key-set document.
    Malformed,
}

/// Why a token was not accepted. Every path through a validation that does
/// not end in verified claims ends in exactly one of these.
#[derive(Clone, Debug, PartialEq, Eq)]
pub enum ValidationError {
    /// The token does not have three segments, or a segment does not decode.
    MalformedToken,
    /// The header names no key.
    MissingKeyId,
    /// The key set could not be fetched or read.
    KeySetUnavailable(FetchFailure),
    /// The key set holds no key under this identifier.
    KeyNotFound(String),
    /// The entry found holds no key material.
    KeyMaterialMissing,
    /// The key material of the entry found is not a key.
    KeyMaterialInvalid,
    /// The header declares an algorithm that the key cannot be used with.
    AlgorithmMismatch,
    /// The signature is not that of the key over the token.
    SignatureInvalid,
    /// The token's expiry time has passed.
    TokenExpired,
    /// The token was issued for another audience.
    AudienceMismatch,
}

/// The mathematical value of a `ValidationError`.
pub enum ErrorView {
    MalformedToken,
    MissingKeyId,
    KeySetUnavailable(FetchFailure),
    KeyNotFound(Seq<char>),
    KeyMaterialMissing,
    KeyMaterialInvalid,
    AlgorithmMismatch,
    SignatureInvalid,
    TokenExpired,
    AudienceMismatch,
}

impl View for ValidationError {
    type V = ErrorView;

    open spec fn view(&self) -> ErrorView {
        match self {
            ValidationError::MalformedToken => ErrorView::MalformedToken,
            ValidationError::MissingKeyId => ErrorView::MissingKeyId,
            ValidationError::KeySetUnavailable(f) => ErrorView::KeySetUnavailable(*f),
            ValidationError::KeyNotFound(kid) => ErrorView::KeyNotFound(kid@),
            ValidationError::KeyMaterialMissing => ErrorView::KeyMaterialMissing,
            ValidationError::KeyMaterialInvalid => ErrorView::KeyMaterialInvalid,
            ValidationError::AlgorithmMismatch => ErrorView::AlgorithmMismatch,
            ValidationError::SignatureInvalid => ErrorView::SignatureInvalid,
            ValidationError::TokenExpired => ErrorView::TokenExpired,
            ValidationError::AudienceMismatch => ErrorView::AudienceMismatch,
        }
    }
}

/// The words in which a fetch failure is reported.
pub open spec fn failure_text(failure: FetchFailure) -> Seq<char> {
    match failure {
        FetchFailure::Transport => "the endpoint could not be reached"@,
        FetchFailure::Status(_) => "the endpoint answered with an error status"@,
        FetchFailure::Malformed => "the answer is not a key-set document"@,
    }
}

/// The words in which an error is reported.
pub open spec fn reason_text(error: ErrorView) -> Seq<char> {
    match error {
        ErrorView::MalformedToken => "the token is malformed"@,
        ErrorView::MissingKeyId => "the token names no key"@,
        ErrorView::KeySetUnavailable(f) => "the key set is unavailable: "@ + failure_text(f),
        ErrorView::KeyNotFound(kid) => "the key set holds no key named "@ + kid,
        ErrorView::KeyMaterialMissing => "the key entry holds no key material"@,
        ErrorView::KeyMaterialInvalid => "the key material is not a key"@,
        ErrorView::AlgorithmMismatch => "the declared algorithm does not fit the key"@,
        ErrorView::SignatureInvalid => "the signature is invalid"@,
        ErrorView::TokenExpired => "the token has expired"@,
        ErrorView::AudienceMismatch => "the token is meant for another audience"@,
    }
}

impl FetchFailure {
    /// A sentence for a person to read.
    pub fn reason(&self) -> (text: String)
        ensures
            text@ == failure_text(*self),
    {
        match self {
            FetchFailure::Transport => String::from_str("the endpoint could not be reached"),
            FetchFailure::Status(_) => String::from_str(
                "the endpoint answered with an error status",
            ),
            FetchFailure::Malformed => String::from_str("the answer is not a key-set document"),
        }
    }
}

impl ValidationError {
    /// A sentence for a person to read.
    pub fn reason(&self) -> (text: String)
        ensures
            text@ == reason_text(self@),
    {
        match self {
            ValidationError::MalformedToken => String::from_str("the token is malformed"),
            ValidationError::MissingKeyId => String::from_str("the token names no key"),
            ValidationError::KeySetUnavailable(f) => {
                let detail = f.reason();
                String::from_str("the key set is unavailable: ").concat(detail.as_str())
            },
            ValidationError::KeyNotFound(kid) => String::from_str(
                "the key set holds no key named ",
            ).concat(kid.as_str()),
            ValidationError::KeyMaterialMissing => String::from_str(
                "the key entry holds no key material",
            ),
            ValidationError::KeyMaterialInvalid => String::from_str(
                "the key material is not a key",
            ),
            ValidationError::AlgorithmMismatch => String::from_str(
                "the declared algorithm does not fit the key",
            ),
            ValidationError::SignatureInvalid => String::from_str("the signature is invalid"),
            ValidationError::TokenExpired => String::from_str("the token has expired"),
            ValidationError::AudienceMismatch => String::from_str(
                "the token is meant for another audience",
            ),
        }
    }
}

} // verus!
