//! The transport boundary: the one place where a failure becomes a status
//! code and a message for a client.

use crate::error::{CauseView, ErrorView, Kind};
use vstd::prelude::*;

verus! {

/// The status of a request that cannot be understood.
pub const BAD_REQUEST: u16 = 400;

/// The status of a request that is not authenticated.
pub const UNAUTHORIZED: u16 = 401;

/// The status of a request for something that does not exist.
pub const NOT_FOUND: u16 = 404;

/// The status of a request that conflicts with what exists.
pub const CONFLICT: u16 = 409;

/// The status of a request that failed through no fault of the client.
pub const INTERNAL_SERVER_ERROR: u16 = 500;

/// What a client is told of a failure: a status code and a message.
#[derive(Clone, Debug, PartialEq, Eq)]
pub struct Error {
    pub status: u16,
    pub msg: String,
}

/// The mathematical value of an [`Error`].
pub struct Reply {
    pub status: u16,
    pub msg: Seq<char>,
}

impl View for Error {
    type V = Reply;

    open spec fn view(&self) -> Reply {
        Reply { status: self.status, msg: self.msg@ }
    }
}

/// The outcome of each kind of failure. A bad input is reported with its own
/// message, a missing or conflicting resource by its name, an authentication
/// failure without a word, and an internal failure with one fixed message
/// that holds nothing of its cause.
pub open spec fn translate(e: ErrorView) -> Reply {
    match e {
        ErrorView::BadInput { msg } => Reply { status: BAD_REQUEST, msg },
        ErrorView::AuthFailed => Reply { status: UNAUTHORIZED, msg: Seq::empty() },
        ErrorView::NotFound { resource } => Reply {
            status: NOT_FOUND,
            msg: resource + " is not found"@,
        },
        ErrorView::Conflict { resource } => Reply {
            status: CONFLICT,
            msg: resource + " is conflict"@,
        },
        ErrorView::Internal(_) => Reply {
            status: INTERNAL_SERVER_ERROR,
            msg: "internal server error"@,
        },
    }
}

/// The status that stands for a kind of failure.
pub open spec fn status_of(kind: Kind) -> u16 {
    match kind {
        Kind::BadInput => BAD_REQUEST,
        Kind::AuthFailed => UNAUTHORIZED,
        Kind::NotFound => NOT_FOUND,
        Kind::Conflict => CONFLICT,
        Kind::Internal => INTERNAL_SERVER_ERROR,
    }
}

/// The status of a failure depends on its kind alone, and two kinds never
/// share a status.
pub proof fn lemma_status_follows_kind(e: ErrorView, other: ErrorView)
    ensures
        translate(e).status == status_of(e.kind()),
        translate(e).status == translate(other).status <==> e.kind() == other.kind(),
{
}

/// Whatever caused an internal failure, the client is told the same: nothing
/// of the cause is in the status or in the message.
pub proof fn lemma_internal_cause_is_dropped(cause: CauseView, other: CauseView)
    ensures
        translate(ErrorView::Internal(cause)) == translate(ErrorView::Internal(other)),
        translate(ErrorView::Internal(cause)) == (Reply {
            status: INTERNAL_SERVER_ERROR,
            msg: "internal server error"@,
        }),
{
}

/// An authentication failure is reported without a word.
pub proof fn lemma_auth_failure_is_silent()
    ensures
        translate(ErrorView::AuthFailed).status == UNAUTHORIZED,
        translate(ErrorView::AuthFailed).msg.len() == 0,
{
}

impl Error {
    /// A failure with the given status and message.
    pub fn new(status: u16, msg: String) -> (e: Error)
        ensures
            e@ == (Reply { status, msg: msg@ }),
    {
        Error { status, msg }
    }

    /// Something does not exist.
    pub fn not_found(msg: &'static str) -> (e: Error)
        ensures
            e@ == (Reply { status: NOT_FOUND, msg: msg@ }),
    {
        Error::new(NOT_FOUND, msg.to_owned())
    }

    /// The request cannot be understood.
    pub fn bad_request(msg: &'static str) -> (e: Error)
        ensures
            e@ == (Reply { status: BAD_REQUEST, msg: msg@ }),
    {
        Error::new(BAD_REQUEST, msg.to_owned())
    }

    /// The request is not authenticated. The message is empty.
    pub fn unauthorized() -> (e: Error)
        ensures
            e@ == (Reply { status: UNAUTHORIZED, msg: Seq::empty() }),
    {
        Error::new(UNAUTHORIZED, String::new())
    }

    /// The request conflicts with what exists.
    pub fn conflict(msg: &'static str) -> (e: Error)
        ensures
            e@ == (Reply { status: CONFLICT, msg: msg@ }),
    {
        Error::new(CONFLICT, msg.to_owned())
    }

    /// The request failed through no fault of the client.
    pub fn internal_server_error(msg: &'static str) -> (e: Error)
        ensures
            e@ == (Reply { status: INTERNAL_SERVER_ERROR, msg: msg@ }),
    {
        Error::new(INTERNAL_SERVER_ERROR, msg.to_owned())
    }

    /// Adds a note on a line of its own. The status stays.
    pub fn add_msg(self, msg: &str) -> (e: Error)
        ensures
            e@ == (Reply { status: self.status, msg: self.msg@ + "\n"@ + msg@ }),
    {
        let mut text = self.msg;
        text.append("\n");
        text.append(msg);
        Error::new(self.status, text)
    }
}

impl From<crate::error::Error> for Error {
    /// Translates a failure into what the client is told of it.
    fn from(e: crate::error::Error) -> (r: Error)
        ensures
            r@ == translate(e@),
    {
        match e {
            crate::error::Error::BadInput { msg } => Error::new(BAD_REQUEST, msg),
            crate::error::Error::AuthFailed => Error::unauthorized(),
            crate::error::Error::NotFound { resource } => {
                let mut msg = resource.to_owned();
                msg.append(" is not found");
                Error::new(NOT_FOUND, msg)
            },
            crate::error::Error::Conflict { resource } => {
                let mut msg = resource.to_owned();
                msg.append(" is conflict");
                Error::new(CONFLICT, msg)
            },
            crate::error::Error::Internal(_) => Error::internal_server_error(
                "internal server error",
            ),
        }
    }
}

/// A message is known by its view only, so `from` states its result over
/// views, on the function itself, and not through `from_spec`.
impl vstd::std_specs::convert::FromSpecImpl<crate::error::Error> for Error {
    open spec fn obeys_from_spec() -> bool {
        false
    }

    open spec fn from_spec(e: crate::error::Error) -> Error {
        arbitrary()
    }
}

} // verus!
