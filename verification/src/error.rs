//! Errors the agent reports back to the Conductor.

use vstd::prelude::*;

verus! {

/// Spec-level shape of an [`ApiError`], over character sequences.
pub enum ApiErrorView {
    RepositoryInvalid(Seq<char>),
    EngineError(Seq<char>),
    UserProvisioningFailed(Seq<char>),
    InternalError(Seq<char>),
    InvalidLifecycle,
}

/// What can go wrong while serving a workspace operation.
///
/// `RepositoryInvalid` carries a message meant for the end user (a broken
/// devcontainer or compose file, a failed image build); `EngineError` carries
/// the body of a non-success container-engine response;
/// `UserProvisioningFailed` reports a failed account setup; `InternalError`
/// covers everything the user cannot act on; `InvalidLifecycle` rejects an
/// object-form lifecycle command on a non-compose build.
#[derive(Debug)]
pub enum ApiError {
    RepositoryInvalid(String),
    EngineError(String),
    UserProvisioningFailed(String),
    InternalError(String),
    InvalidLifecycle,
}

impl View for ApiError {
    type V = ApiErrorView;

    open spec fn view(&self) -> ApiErrorView {
        match self {
            ApiError::RepositoryInvalid(m) => ApiErrorView::RepositoryInvalid(m@),
            ApiError::EngineError(m) => ApiErrorView::EngineError(m@),
            ApiError::UserProvisioningFailed(m) => ApiErrorView::UserProvisioningFailed(m@),
            ApiError::InternalError(m) => ApiErrorView::InternalError(m@),
            ApiError::InvalidLifecycle => ApiErrorView::InvalidLifecycle,
        }
    }
}

impl ApiError {
    /// The message carried by the error, for reports and logs.
    pub fn message(&self) -> (r: &str)
        ensures
            match self@ {
                ApiErrorView::RepositoryInvalid(m) => r@ == m,
                ApiErrorView::EngineError(m) => r@ == m,
                ApiErrorView::UserProvisioningFailed(m) => r@ == m,
                ApiErrorView::InternalError(m) => r@ == m,
                ApiErrorView::InvalidLifecycle => r@ == "can't use object cmd for non compose"@,
            },
    {
        match self {
            ApiError::RepositoryInvalid(m) => m.as_str(),
            ApiError::EngineError(m) => m.as_str(),
            ApiError::UserProvisioningFailed(m) => m.as_str(),
            ApiError::InternalError(m) => m.as_str(),
            ApiError::InvalidLifecycle => "can't use object cmd for non compose",
        }
    }
}

} // verus!
