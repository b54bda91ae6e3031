//! The ways one completion attempt can fail.
use vstd::prelude::*;

verus! {

/// A failure that ends one invocation.
#[derive(Debug)]
pub enum ChatError {
    /// The identity token is not three non-empty dot-separated segments.
    MalformedToken,
    /// The token's payload is not base64url, or not JSON.
    TokenDecodeError,
    /// The token's payload lacks the account claim.
    MissingAccountClaim,
    /// A reply holds no `output_text` piece with text.
    NoOutputText,
    /// A reply body is not a well-formed reply document.
    MalformedReply { body: String },
    /// An event stream yielded no text.
    EmptyStreamResult { body: String },
    /// The backend answered 401.
    Unauthorized,
    /// The backend answered with another failure status.
    BackendError { status: u16, body: String },
    /// A refresh was needed but the bundle has no refresh token.
    NoRefreshToken,
    /// The token endpoint refused the refresh, or answered with no usable bundle.
    RefreshFailed { status: u16, body: String },
    /// The backend answered 401 again after a refresh.
    RefreshRejected,
}

/// A failure, with its texts as character sequences.
pub enum ChatErrorView {
    MalformedToken,
    TokenDecodeError,
    MissingAccountClaim,
    NoOutputText,
    MalformedReply { body: Seq<char> },
    EmptyStreamResult { body: Seq<char> },
    Unauthorized,
    BackendError { status: u16, body: Seq<char> },
    NoRefreshToken,
    RefreshFailed { status: u16, body: Seq<char> },
    RefreshRejected,
}

impl View for ChatError {
    type V = ChatErrorView;

    open spec fn view(&self) -> ChatErrorView {
        match self {
            ChatError::MalformedToken => ChatErrorView::MalformedToken,
            ChatError::TokenDecodeError => ChatErrorView::TokenDecodeError,
            ChatError::MissingAccountClaim => ChatErrorView::MissingAccountClaim,
            ChatError::NoOutputText => ChatErrorView::NoOutputText,
            ChatError::MalformedReply { body } => ChatErrorView::MalformedReply { body: body@ },
            ChatError::EmptyStreamResult { body } => ChatErrorView::EmptyStreamResult {
                body: body@,
            },
            ChatError::Unauthorized => ChatErrorView::Unauthorized,
            ChatError::BackendError { status, body } => ChatErrorView::BackendError {
                status: *status,
                body: body@,
            },
            ChatError::NoRefreshToken => ChatErrorView::NoRefreshToken,
            ChatError::RefreshFailed { status, body } => ChatErrorView::RefreshFailed {
                status: *status,
                body: body@,
            },
            ChatError::RefreshRejected => ChatErrorView::RefreshRejected,
        }
    }
}

/// An answer or a failure, as plain values.
pub open spec fn outcome_view(r: Result<String, ChatError>) -> Result<Seq<char>, ChatErrorView> {
    match r {
        Ok(t) => Ok(t@),
        Err(e) => Err(e@),
    }
}

} // verus!
