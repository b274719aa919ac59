//! The failures a request can end in, and how each is surfaced.

use vstd::prelude::*;

verus! {

/// A field of a request body that validation can object to.
#[derive(Clone, Copy, Debug, PartialEq, Eq, Structural)]
pub enum Field {
    Name,
    Description,
    Status,
    Username,
}

/// Why a request was not served.
#[derive(Debug)]
pub enum ApiError {
    /// The owner header is absent.
    MissingOwnerHeader,
    /// The owner header is present but is not a positive integer.
    InvalidOwnerHeader,
    /// A body field is absent or not acceptable.
    ValidationFailure(Field),
    /// No row matches the request within the owner's scope.
    NotFound,
    /// The store failed; the text is the store's own message.
    StoreError(String),
}

/// The mathematical value of an [`ApiError`].
pub enum ApiErrorView {
    MissingOwnerHeader,
    InvalidOwnerHeader,
    ValidationFailure(Field),
    NotFound,
    StoreError(Seq<char>),
}

impl View for ApiError {
    type V = ApiErrorView;

    open spec fn view(&self) -> ApiErrorView {
        match self {
            ApiError::MissingOwnerHeader => ApiErrorView::MissingOwnerHeader,
            ApiError::InvalidOwnerHeader => ApiErrorView::InvalidOwnerHeader,
            ApiError::ValidationFailure(field) => ApiErrorView::ValidationFailure(*field),
            ApiError::NotFound => ApiErrorView::NotFound,
            ApiError::StoreError(text) => ApiErrorView::StoreError(text@),
        }
    }
}

impl ApiErrorView {
    /// The HTTP status under which the failure is surfaced: client errors for
    /// the owner header, unprocessable entity for the body, not found for an
    /// empty match, server error for the store.
    pub open spec fn status(self) -> u16 {
        match self {
            ApiErrorView::MissingOwnerHeader => 400,
            ApiErrorView::InvalidOwnerHeader => 400,
            ApiErrorView::ValidationFailure(_) => 422,
            ApiErrorView::NotFound => 404,
            ApiErrorView::StoreError(_) => 500,
        }
    }

    /// The human-readable message that the failure envelope carries.
    pub open spec fn message(self) -> Seq<char> {
        match self {
            ApiErrorView::MissingOwnerHeader => "Invalid header"@,
            ApiErrorView::InvalidOwnerHeader => "Invalid header"@,
            ApiErrorView::ValidationFailure(field) => match field {
                Field::Name => "Missing or empty field: name"@,
                Field::Description => "Missing or empty field: description"@,
                Field::Status => "Missing or unknown field: status"@,
                Field::Username => "Missing field: username"@,
            },
            ApiErrorView::NotFound => "Workspace not found"@,
            ApiErrorView::StoreError(text) => text,
        }
    }
}

impl ApiError {
    /// The HTTP status under which the failure is surfaced.
    pub fn status(&self) -> (r: u16)
        ensures
            r == self@.status(),
    {
        match self {
            ApiError::MissingOwnerHeader => 400,
            ApiError::InvalidOwnerHeader => 400,
            ApiError::ValidationFailure(_) => 422,
            ApiError::NotFound => 404,
            ApiError::StoreError(_) => 500,
        }
    }

    /// The human-readable message of the failure.
    pub fn message(&self) -> (r: String)
        ensures
            r@ == self@.message(),
    {
        match self {
            ApiError::MissingOwnerHeader => "Invalid header".to_owned(),
            ApiError::InvalidOwnerHeader => "Invalid header".to_owned(),
            ApiError::ValidationFailure(field) => match field {
                Field::Name => "Missing or empty field: name".to_owned(),
                Field::Description => "Missing or empty field: description".to_owned(),
                Field::Status => "Missing or unknown field: status".to_owned(),
                Field::Username => "Missing field: username".to_owned(),
            },
            ApiError::NotFound => "Workspace not found".to_owned(),
            ApiError::StoreError(text) => text.clone(),
        }
    }
}

/// The text of an optional string.
pub open spec fn option_text(field: Option<String>) -> Option<Seq<char>> {
    match field {
        Some(text) => Some(text@),
        None => None,
    }
}

/// The value of an outcome: the value of what was made, or of the failure.
pub open spec fn outcome_view<T: View>(outcome: Result<T, ApiError>) -> Result<
    T::V,
    ApiErrorView,
> {
    match outcome {
        Ok(value) => Ok(value@),
        Err(error) => Err(error@),
    }
}

} // verus!
