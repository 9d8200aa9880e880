use vstd::prelude::*;

verus! {

/// The transport-level status codes this API uses.
#[derive(Debug, Clone, Copy, PartialEq, Eq, Structural)]
pub enum HttpStatus {
    Okay,
    Created,
    NoContent,
    BadRequest,
    Unauthorized,
    Forbidden,
    NotFound,
    TooManyRequests,
    InternalServerError,
}

impl HttpStatus {
    /// The numeric code of each status.
    pub open spec fn spec_code(&self) -> u16 {
        match self {
            HttpStatus::Okay => 200,
            HttpStatus::Created => 201,
            HttpStatus::NoContent => 204,
            HttpStatus::BadRequest => 400,
            HttpStatus::Unauthorized => 401,
            HttpStatus::Forbidden => 403,
            HttpStatus::NotFound => 404,
            HttpStatus::TooManyRequests => 429,
            HttpStatus::InternalServerError => 500,
        }
    }

    pub fn code(&self) -> (c: u16)
        ensures
            c == self.spec_code(),
    {
        match self {
            HttpStatus::Okay => 200,
            HttpStatus::Created => 201,
            HttpStatus::NoContent => 204,
            HttpStatus::BadRequest => 400,
            HttpStatus::Unauthorized => 401,
            HttpStatus::Forbidden => 403,
            HttpStatus::NotFound => 404,
            HttpStatus::TooManyRequests => 429,
            HttpStatus::InternalServerError => 500,
        }
    }

    /// The canonical name of each status.
    pub open spec fn spec_name(&self) -> Seq<char> {
        match self {
            HttpStatus::Okay => "OK"@,
            HttpStatus::Created => "Created"@,
            HttpStatus::NoContent => "NoContent"@,
            HttpStatus::BadRequest => "BadRequest"@,
            HttpStatus::Unauthorized => "Unauthorized"@,
            HttpStatus::Forbidden => "Forbidden"@,
            HttpStatus::NotFound => "NotFound"@,
            HttpStatus::TooManyRequests => "TooManyRequests"@,
            HttpStatus::InternalServerError => "InternalServerError"@,
        }
    }

    pub fn name(&self) -> (n: &'static str)
        ensures
            n@ == self.spec_name(),
    {
        match self {
            HttpStatus::Okay => "OK",
            HttpStatus::Created => "Created",
            HttpStatus::NoContent => "NoContent",
            HttpStatus::BadRequest => "BadRequest",
            HttpStatus::Unauthorized => "Unauthorized",
            HttpStatus::Forbidden => "Forbidden",
            HttpStatus::NotFound => "NotFound",
            HttpStatus::TooManyRequests => "TooManyRequests",
            HttpStatus::InternalServerError => "InternalServerError",
        }
    }
}

/// The envelope uniformly wrapping both success and error payloads.
#[derive(Debug, Clone)]
pub struct HttpResponse<T> {
    pub status: HttpStatus,
    pub detail: String,
    pub content: T,
}

} // verus!
