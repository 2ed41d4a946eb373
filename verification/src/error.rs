//! The errors an operation can end with.

use vstd::prelude::*;

verus! {

/// The model of an error: its kind and the detail text it carries.
pub enum KvErrorView {
    Transport(Seq<char>),
    Protocol(Seq<char>),
    RemoteRejection(Seq<char>),
    NotFound(Seq<char>),
}

/// What an operation against the service can fail with.
#[derive(Debug, Clone, PartialEq, Eq)]
pub enum KvError {
    /// The transport failed: no connection, a timeout, or a response body
    /// that could not be parsed as JSON.
    Transport(String),
    /// The response was well-formed JSON but an expected field was missing or
    /// had the wrong type; the detail names the field.
    Protocol(String),
    /// The service answered with a well-formed envelope whose `success` flag
    /// was false; the detail is the whole envelope, serialized.
    RemoteRejection(String),
    /// A value read answered with HTTP status 404; the detail is the response
    /// body, serialized.
    NotFound(String),
}

impl View for KvError {
    type V = KvErrorView;

    open spec fn view(&self) -> KvErrorView {
        match self {
            KvError::Transport(s) => KvErrorView::Transport(s@),
            KvError::Protocol(s) => KvErrorView::Protocol(s@),
            KvError::RemoteRejection(s) => KvErrorView::RemoteRejection(s@),
            KvError::NotFound(s) => KvErrorView::NotFound(s@),
        }
    }
}

impl DeepView for KvError {
    type V = KvErrorView;

    open spec fn deep_view(&self) -> KvErrorView {
        self.view()
    }
}

/// The detail text of an error, whatever its kind.
pub open spec fn detail_of(e: KvErrorView) -> Seq<char> {
    match e {
        KvErrorView::Transport(s) => s,
        KvErrorView::Protocol(s) => s,
        KvErrorView::RemoteRejection(s) => s,
        KvErrorView::NotFound(s) => s,
    }
}

impl KvError {
    /// The detail text this error carries.
    pub fn detail(&self) -> (r: &String)
        ensures
            r@ == detail_of(self@),
    {
        match self {
            KvError::Transport(s) => s,
            KvError::Protocol(s) => s,
            KvError::RemoteRejection(s) => s,
            KvError::NotFound(s) => s,
        }
    }
}

} // verus!
