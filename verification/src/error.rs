//! The failures the gateway reports, and the text each one is reported with.

use vstd::prelude::*;

verus! {

/// A failure of the gateway. Where a failure was raised by a collaborator
/// (the store, the transport, the decoder), the variant carries the
/// collaborator's own message.
#[derive(Clone, Debug, PartialEq, Eq)]
pub enum ServiceError {
    /// The listening address could not be parsed.
    AddrParse(String),
    /// The command names an entity kind, or carries a payload, that the
    /// attempted operation does not take.
    BadRequest(String),
    /// An input or output operation failed.
    IOError(String),
    /// The store failed.
    Rpel(String),
    /// The request body is not a well-formed message.
    SJError(String),
    /// No session answers to the token, or no user to the credentials.
    NotAuth,
    /// The caller's role does not allow the command.
    NotPermission,
    /// The transport failed while the request was read.
    Hyper(String),
    /// The response could not be assembled.
    HyperHttp(String),
    /// The request came without the shared state.
    NoState,
    /// The routes could not be assembled.
    Router,
    /// Any other failure of a collaborator.
    Std(String),
}

/// The mathematical value of a [`ServiceError`].
pub enum ServiceErrorView {
    AddrParse(Seq<char>),
    BadRequest(Seq<char>),
    IOError(Seq<char>),
    Rpel(Seq<char>),
    SJError(Seq<char>),
    NotAuth,
    NotPermission,
    Hyper(Seq<char>),
    HyperHttp(Seq<char>),
    NoState,
    Router,
    Std(Seq<char>),
}

impl View for ServiceError {
    type V = ServiceErrorView;

    open spec fn view(&self) -> ServiceErrorView {
        match self {
            ServiceError::AddrParse(detail) => ServiceErrorView::AddrParse(detail@),
            ServiceError::BadRequest(detail) => ServiceErrorView::BadRequest(detail@),
            ServiceError::IOError(detail) => ServiceErrorView::IOError(detail@),
            ServiceError::Rpel(detail) => ServiceErrorView::Rpel(detail@),
            ServiceError::SJError(detail) => ServiceErrorView::SJError(detail@),
            ServiceError::NotAuth => ServiceErrorView::NotAuth,
            ServiceError::NotPermission => ServiceErrorView::NotPermission,
            ServiceError::Hyper(detail) => ServiceErrorView::Hyper(detail@),
            ServiceError::HyperHttp(detail) => ServiceErrorView::HyperHttp(detail@),
            ServiceError::NoState => ServiceErrorView::NoState,
            ServiceError::Router => ServiceErrorView::Router,
            ServiceError::Std(detail) => ServiceErrorView::Std(detail@),
        }
    }
}

impl ServiceErrorView {
    /// The text a failure is reported with: a fixed phrase for its kind,
    /// followed by the collaborator's message where there is one.
    pub open spec fn message(self) -> Seq<char> {
        match self {
            ServiceErrorView::AddrParse(detail) => "Socket address parse: "@ + detail,
            ServiceErrorView::BadRequest(detail) => "Bad request: "@ + detail,
            ServiceErrorView::IOError(detail) => "IO: "@ + detail,
            ServiceErrorView::Rpel(detail) => "Rpel: "@ + detail,
            ServiceErrorView::SJError(detail) => "Serde JSON: "@ + detail,
            ServiceErrorView::NotAuth => "Not auth"@,
            ServiceErrorView::NotPermission => "Not permission"@,
            ServiceErrorView::Hyper(detail) => "Hyper: "@ + detail,
            ServiceErrorView::HyperHttp(detail) => "Hyper http: "@ + detail,
            ServiceErrorView::NoState => "Request not contain state"@,
            ServiceErrorView::Router => "No build router"@,
            ServiceErrorView::Std(detail) => "std "@ + detail,
        }
    }
}

/// `phrase` followed by `detail`.
fn phrase_with(phrase: &str, detail: &String) -> (text: String)
    ensures
        text@ == phrase@ + detail@,
{
    let mut text = phrase.to_owned();
    text.append(detail.as_str());
    text
}

impl ServiceError {
    /// The text this failure is reported with.
    pub fn to_string(&self) -> (text: String)
        ensures
            text@ == self@.message(),
    {
        match self {
            ServiceError::AddrParse(detail) => phrase_with("Socket address parse: ", detail),
            ServiceError::BadRequest(detail) => phrase_with("Bad request: ", detail),
            ServiceError::IOError(detail) => phrase_with("IO: ", detail),
            ServiceError::Rpel(detail) => phrase_with("Rpel: ", detail),
            ServiceError::SJError(detail) => phrase_with("Serde JSON: ", detail),
            ServiceError::NotAuth => "Not auth".to_owned(),
            ServiceError::NotPermission => "Not permission".to_owned(),
            ServiceError::Hyper(detail) => phrase_with("Hyper: ", detail),
            ServiceError::HyperHttp(detail) => phrase_with("Hyper http: ", detail),
            ServiceError::NoState => "Request not contain state".to_owned(),
            ServiceError::Router => "No build router".to_owned(),
            ServiceError::Std(detail) => phrase_with("std ", detail),
        }
    }
}

} // verus!
