//! The failures that the adapter reports to its host.

use vstd::prelude::*;

verus! {

/// Why an operation of the adapter failed.
#[derive(Debug, PartialEq, Eq)]
pub enum ProviderError {
    /// The configuration, or what came of using it, is not acceptable.
    InvalidConfiguration(String),
    /// The service holds no secret under the name that was asked for.
    SecretNotFound(String),
    /// Any other failure of the transport or the service, as its text.
    ClientError(String),
}

/// What a `ProviderError` holds, as mathematical strings.
pub enum ProviderErrorView {
    InvalidConfiguration(Seq<char>),
    SecretNotFound(Seq<char>),
    ClientError(Seq<char>),
}

impl View for ProviderError {
    type V = ProviderErrorView;

    open spec fn view(&self) -> ProviderErrorView {
        match *self {
            ProviderError::InvalidConfiguration(m) => ProviderErrorView::InvalidConfiguration(m@),
            ProviderError::SecretNotFound(n) => ProviderErrorView::SecretNotFound(n@),
            ProviderError::ClientError(c) => ProviderErrorView::ClientError(c@),
        }
    }
}

/// The text that the host shows for an error.
pub open spec fn error_text(e: ProviderErrorView) -> Seq<char> {
    match e {
        ProviderErrorView::InvalidConfiguration(m) => "Invalid configuration: "@ + m,
        ProviderErrorView::SecretNotFound(n) => "Secret not found: "@ + n,
        ProviderErrorView::ClientError(c) => "Provider internal error: "@ + c,
    }
}

impl ProviderError {
    /// The text that the host shows for this error.
    pub fn message(&self) -> (out: String)
        ensures
            out@ == error_text(self@),
    {
        match self {
            ProviderError::InvalidConfiguration(m) => "Invalid configuration: ".to_owned().concat(
                m.as_str(),
            ),
            ProviderError::SecretNotFound(n) => "Secret not found: ".to_owned().concat(n.as_str()),
            ProviderError::ClientError(c) => "Provider internal error: ".to_owned().concat(
                c.as_str(),
            ),
        }
    }
}

} // verus!
