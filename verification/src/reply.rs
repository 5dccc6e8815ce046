//! What a request is answered when it is not served, and the status codes of
//! the answers.

use vstd::prelude::*;

verus! {

/// The HTTP statuses that the server names.
#[derive(Clone, Copy, Debug, PartialEq, Eq, Structural)]
pub enum Status {
    Created,
    BadRequest,
    Unauthorized,
    Forbidden,
    NotFound,
    Conflict,
    PayloadTooLarge,
    UnsupportedMediaType,
    InternalServerError,
}

/// The number of a status on the wire.
pub open spec fn status_code(status: Status) -> int {
    match status {
        Status::Created => 201,
        Status::BadRequest => 400,
        Status::Unauthorized => 401,
        Status::Forbidden => 403,
        Status::NotFound => 404,
        Status::Conflict => 409,
        Status::PayloadTooLarge => 413,
        Status::UnsupportedMediaType => 415,
        Status::InternalServerError => 500,
    }
}

impl Status {
    /// The number of the status on the wire.
    pub fn code(self) -> (number: u16)
        ensures
            number == status_code(self),
    {
        match self {
            Status::Created => 201,
            Status::BadRequest => 400,
            Status::Unauthorized => 401,
            Status::Forbidden => 403,
            Status::NotFound => 404,
            Status::Conflict => 409,
            Status::PayloadTooLarge => 413,
            Status::UnsupportedMediaType => 415,
            Status::InternalServerError => 500,
        }
    }
}

/// The answer to a request that is not served: a status and the text of the
/// `error` field.
#[derive(Debug)]
pub struct Rejection {
    pub status: Status,
    pub error: String,
}

/// A rejection with its text as a sequence of characters.
pub struct RejectionView {
    pub status: Status,
    pub error: Seq<char>,
}

impl View for Rejection {
    type V = RejectionView;

    open spec fn view(&self) -> RejectionView {
        RejectionView { status: self.status, error: self.error@ }
    }
}

/// The rejection with this status and this text.
pub open spec fn rejection(status: Status, error: Seq<char>) -> RejectionView {
    RejectionView { status, error }
}

/// What the client is told when the database, the password hash or the disk
/// fails: the text of the failure, as an internal error.
pub open spec fn failure(error: Seq<char>) -> RejectionView {
    rejection(Status::InternalServerError, error)
}

/// A result that may be a rejection, with the rejection by its view.
pub open spec fn reply_of<T>(result: Result<T, Rejection>) -> Result<T, RejectionView> {
    match result {
        Ok(value) => Ok(value),
        Err(refused) => Err(refused@),
    }
}

/// A result that may be a rejection, with both sides by their views.
pub open spec fn reply_view<T: View>(result: Result<T, Rejection>) -> Result<T::V, RejectionView> {
    match result {
        Ok(value) => Ok(value@),
        Err(refused) => Err(refused@),
    }
}

/// An answer from outside, with the text of its failure by its view.
pub open spec fn answer_of<T>(answer: Result<T, String>) -> Result<T, Seq<char>> {
    match answer {
        Ok(value) => Ok(value),
        Err(error) => Err(error@),
    }
}

/// A result in which no rejection carries the status of a success.
pub open spec fn refuses_with_error<T>(result: Result<T, RejectionView>) -> bool {
    result matches Err(refused) ==> 400 <= status_code(refused.status) < 600
}

/// Builds a rejection from a literal text.
pub fn reject(status: Status, error: &str) -> (refused: Rejection)
    ensures
        refused@ == rejection(status, error@),
{
    Rejection { status, error: error.to_string() }
}

/// Reports the text of a failure as an internal error.
pub fn fail(error: String) -> (refused: Rejection)
    ensures
        refused@ == failure(error@),
{
    Rejection { status: Status::InternalServerError, error }
}

/// An answer that is handed on as it is, or the text of a failure.
pub open spec fn handed_on<T>(answer: Result<T, Seq<char>>) -> Result<T, RejectionView> {
    match answer {
        Err(error) => Err(failure(error)),
        Ok(value) => Ok(value),
    }
}

/// Hands an answer on as it is, or reports the text of a failure.
pub fn hand_on<T>(answer: Result<T, String>) -> (reply: Result<T, Rejection>)
    ensures
        reply_of(reply) == handed_on(answer_of(answer)),
{
    match answer {
        Err(error) => Err(fail(error)),
        Ok(value) => Ok(value),
    }
}

} // verus!
