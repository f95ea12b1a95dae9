//! The closed set of failure kinds that every component reports.

use vstd::prelude::*;

verus! {

/// The kind of a failure. The set is closed: every call site can map a kind
/// onto a fixed outcome.
#[derive(Clone, Copy, Debug, PartialEq, Eq, Structural)]
pub enum Kind {
    BadInput,
    AuthFailed,
    NotFound,
    Conflict,
    Internal,
}

/// Where an internal failure arose, with the text of the lower-level failure
/// where there is one. It serves local diagnostics and never reaches a client.
#[derive(Clone, Debug, PartialEq, Eq)]
pub enum Cause {
    /// A payload could not be written as JSON, or what was written is not
    /// one JSON value.
    Encoding(String),
    /// The signer refused to sign.
    Signing(String),
    /// The hashing primitive failed.
    Hashing(String),
    /// A secret does not hash to the stored record.
    HashMismatch,
    /// A stored record is not in the format the hasher writes.
    MalformedRecord,
    /// Any other lower-level failure.
    Other(String),
}

/// The mathematical value of a [`Cause`].
pub enum CauseView {
    Encoding(Seq<char>),
    Signing(Seq<char>),
    Hashing(Seq<char>),
    HashMismatch,
    MalformedRecord,
    Other(Seq<char>),
}

impl View for Cause {
    type V = CauseView;

    open spec fn view(&self) -> CauseView {
        match *self {
            Cause::Encoding(s) => CauseView::Encoding(s@),
            Cause::Signing(s) => CauseView::Signing(s@),
            Cause::Hashing(s) => CauseView::Hashing(s@),
            Cause::HashMismatch => CauseView::HashMismatch,
            Cause::MalformedRecord => CauseView::MalformedRecord,
            Cause::Other(s) => CauseView::Other(s@),
        }
    }
}

/// A failure of one of the five kinds.
#[derive(Clone, Debug, PartialEq, Eq)]
pub enum Error {
    /// An input is at fault; `msg` says how.
    BadInput { msg: String },
    /// Authentication or authorization failed. Carries no detail on purpose.
    AuthFailed,
    /// The named resource does not exist.
    NotFound { resource: &'static str },
    /// The named resource is in conflict.
    Conflict { resource: &'static str },
    /// Something inside is at fault.
    Internal(Cause),
}

/// The mathematical value of an [`Error`].
pub enum ErrorView {
    BadInput { msg: Seq<char> },
    AuthFailed,
    NotFound { resource: Seq<char> },
    Conflict { resource: Seq<char> },
    Internal(CauseView),
}

impl ErrorView {
    /// The kind of the failure.
    pub open spec fn kind(self) -> Kind {
        match self {
            ErrorView::BadInput { .. } => Kind::BadInput,
            ErrorView::AuthFailed => Kind::AuthFailed,
            ErrorView::NotFound { .. } => Kind::NotFound,
            ErrorView::Conflict { .. } => Kind::Conflict,
            ErrorView::Internal(_) => Kind::Internal,
        }
    }
}

impl View for Error {
    type V = ErrorView;

    open spec fn view(&self) -> ErrorView {
        match *self {
            Error::BadInput { msg } => ErrorView::BadInput { msg: msg@ },
            Error::AuthFailed => ErrorView::AuthFailed,
            Error::NotFound { resource } => ErrorView::NotFound { resource: resource@ },
            Error::Conflict { resource } => ErrorView::Conflict { resource: resource@ },
            Error::Internal(cause) => ErrorView::Internal(cause@),
        }
    }
}

/// A result with the value and the failure each taken by its view.
pub open spec fn outcome<T: View>(r: Result<T, Error>) -> Result<T::V, ErrorView> {
    match r {
        Ok(value) => Ok(value@),
        Err(e) => Err(e@),
    }
}

impl Error {
    /// An input is at fault.
    pub fn bad_input(msg: String) -> (e: Error)
        ensures
            e@ == (ErrorView::BadInput { msg: msg@ }),
    {
        Error::BadInput { msg }
    }

    /// Authentication or authorization failed.
    pub fn auth_failed() -> (e: Error)
        ensures
            e == Error::AuthFailed,
            e@ == ErrorView::AuthFailed,
    {
        Error::AuthFailed
    }

    /// The resource `resource` does not exist.
    pub fn not_found(resource: &'static str) -> (e: Error)
        ensures
            e@ == (ErrorView::NotFound { resource: resource@ }),
    {
        Error::NotFound { resource }
    }

    /// The resource `resource` is in conflict.
    pub fn conflict(resource: &'static str) -> (e: Error)
        ensures
            e@ == (ErrorView::Conflict { resource: resource@ }),
    {
        Error::Conflict { resource }
    }

    /// Wraps a lower-level failure. Its cause stays with the value and is
    /// dropped when the value crosses the transport boundary.
    pub fn internal(cause: Cause) -> (e: Error)
        ensures
            e@ == ErrorView::Internal(cause@),
    {
        Error::Internal(cause)
    }

    /// The kind of this failure.
    pub fn kind(&self) -> (k: Kind)
        ensures
            k == self@.kind(),
    {
        match self {
            Error::BadInput { .. } => Kind::BadInput,
            Error::AuthFailed => Kind::AuthFailed,
            Error::NotFound { .. } => Kind::NotFound,
            Error::Conflict { .. } => Kind::Conflict,
            Error::Internal(_) => Kind::Internal,
        }
    }
}

} // verus!
