//! Replies of the service: refusals carry an HTTP status and a text.

use vstd::prelude::*;
use vstd::string::StringExecFns;

verus! {

/// The HTTP statuses the service refuses a request with.
#[derive(Clone, Copy, Debug, PartialEq, Eq, Structural)]
pub enum Status {
    BadRequest,
    Unauthorized,
    NotFound,
    UnprocessableEntity,
    InternalServerError,
}

pub open spec fn status_code(s: Status) -> u16 {
    match s {
        Status::BadRequest => 400,
        Status::Unauthorized => 401,
        Status::NotFound => 404,
        Status::UnprocessableEntity => 422,
        Status::InternalServerError => 500,
    }
}

impl Status {
    /// The numeric HTTP code.
    pub fn code(&self) -> (res: u16)
        ensures
            res == status_code(*self),
    {
        match self {
            Status::BadRequest => 400,
            Status::Unauthorized => 401,
            Status::NotFound => 404,
            Status::UnprocessableEntity => 422,
            Status::InternalServerError => 500,
        }
    }
}

/// A refused request: the status and the text sent back.
#[derive(Debug)]
pub struct ApiError {
    pub status: Status,
    pub message: String,
}

pub struct ApiErrorView {
    pub status: Status,
    pub message: Seq<char>,
}

impl View for ApiError {
    type V = ApiErrorView;

    open spec fn view(&self) -> ApiErrorView {
        ApiErrorView { status: self.status, message: self.message@ }
    }
}

pub open spec fn api_error(status: Status, message: Seq<char>) -> ApiErrorView {
    ApiErrorView { status, message }
}

/// The view of a reply whose success is a text.
pub open spec fn text_reply_view(r: Result<String, ApiError>) -> Result<Seq<char>, ApiErrorView> {
    match r {
        Ok(s) => Ok(s@),
        Err(e) => Err(e@),
    }
}

impl ApiError {
    /// A refusal with the given status and text.
    pub fn new(status: Status, message: &str) -> (res: ApiError)
        ensures
            res@ == api_error(status, message@),
    {
        ApiError { status, message: String::from_str(message) }
    }
}

/// A reply whose success is the given text.
pub fn text_ok(message: &str) -> (res: Result<String, ApiError>)
    ensures
        text_reply_view(res) == Ok::<Seq<char>, ApiErrorView>(message@),
{
    Ok(String::from_str(message))
}

/// A refusal with the given status and text.
pub fn refuse<T>(status: Status, message: &str) -> (res: Result<T, ApiError>)
    ensures
        res matches Err(e) && e@ == api_error(status, message@),
{
    Err(ApiError::new(status, message))
}

/// Text answered to a request whose body could not be read.
pub fn bad_request() -> (res: &'static str)
    ensures
        res@ == "Bad Request. It's OK with your JSON?"@,
{
    "Bad Request. It's OK with your JSON?"
}

/// Text answered to a request whose body did not fit the expected form.
pub fn unprocessable_entity() -> (res: &'static str)
    ensures
        res@ == "Unprocessable Entity. It's OK with your JSON?"@,
{
    "Unprocessable Entity. It's OK with your JSON?"
}

} // verus!
