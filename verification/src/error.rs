//! The ways a fetch of seat assignments can fail.

use vstd::prelude::*;

verus! {

/// Why a fetch ended without a seat list.
///
/// Every failure is final: a fetch that fails hands out no seats, not even
/// those of pages that were received before the failure.
#[derive(Clone, Debug, PartialEq, Eq)]
pub enum AppError {
    /// No access token was supplied.
    MissingCredential,
    /// The API knows no organization of this name, or the token may not see
    /// its billing data; the API does not tell the two apart.
    OrganizationNotFound(String),
    /// The API answered with a status other than success or "not found".
    /// `body` is the text of the answer, or a placeholder where the text
    /// could not be read.
    RequestFailed { status: u16, body: String },
    /// The request never produced an answer; the text says why.
    TransportError(String),
    /// The API reported success, but what it sent is no page of seats; the
    /// text says why.
    MalformedResponse(String),
}

/// What an [`AppError`] says, with every text as a sequence of characters.
pub enum FetchError {
    MissingCredential,
    OrganizationNotFound(Seq<char>),
    RequestFailed { status: u16, body: Seq<char> },
    TransportError(Seq<char>),
    MalformedResponse(Seq<char>),
}

impl View for AppError {
    type V = FetchError;

    open spec fn view(&self) -> FetchError {
        match *self {
            AppError::MissingCredential => FetchError::MissingCredential,
            AppError::OrganizationNotFound(org) => FetchError::OrganizationNotFound(org@),
            AppError::RequestFailed { status, body } => FetchError::RequestFailed {
                status,
                body: body@,
            },
            AppError::TransportError(detail) => FetchError::TransportError(detail@),
            AppError::MalformedResponse(detail) => FetchError::MalformedResponse(detail@),
        }
    }
}

} // verus!
