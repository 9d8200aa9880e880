use vstd::prelude::*;

use crate::app_error::AppError;
use crate::app_error::ErrorType;
use crate::create_user_service::CreateUserService;
use crate::http_status_code::HttpResponse;
use crate::http_status_code::HttpStatus;
use crate::user_model::UserForCreation;
use crate::user_model::UserPublic;

verus! {

/// The status each kind of domain error maps to.
pub open spec fn status_for(kind: ErrorType) -> HttpStatus {
    match kind {
        ErrorType::ClientError => HttpStatus::BadRequest,
        ErrorType::ServerError => HttpStatus::InternalServerError,
    }
}

/// Wraps a created user in the success envelope: status Created, the fixed
/// success detail, and the public user unchanged as content.
pub fn success_envelope(created_user: UserPublic) -> (resp: HttpResponse<UserPublic>)
    ensures
        resp.status == HttpStatus::Created,
        resp.detail@ == "User created successfully"@,
        resp.content == created_user,
{
    HttpResponse {
        status: HttpStatus::Created,
        detail: "User created successfully".to_owned(),
        content: created_user,
    }
}

/// Wraps a domain error in the error envelope: its kind decides the status,
/// its detail is repeated as the envelope's detail, and the error itself is
/// echoed back as content.
pub fn error_envelope(err: AppError) -> (resp: HttpResponse<AppError>)
    ensures
        resp.status == status_for(err.error_type),
        resp.detail == err.detail,
        resp.content == err,
{
    let status = match err.error_type {
        ErrorType::ClientError => HttpStatus::BadRequest,
        ErrorType::ServerError => HttpStatus::InternalServerError,
    };
    HttpResponse {
        status: status,
        detail: err.detail.clone(),
        content: err,
    }
}

/// Adapts a deserialized creation request into the workflow call and wraps
/// the result in the uniform response envelope. The transport layer only
/// serializes what comes back.
pub trait CreateUserHandler {
    /// A successful creation answers Created with the fixed success detail
    /// and the public user as content. A domain error is echoed back as
    /// the content of an error envelope, its kind mapped to the status:
    /// ClientError to BadRequest, ServerError to InternalServerError; the
    /// envelope's detail always repeats the error's own detail.
    fn execute(&self, user_for_creation: UserForCreation) -> (r: Result<
        HttpResponse<UserPublic>,
        HttpResponse<AppError>,
    >)
        ensures
            r matches Ok(resp) ==> resp.status == HttpStatus::Created
                && resp.detail@ == "User created successfully"@
                && resp.content.email@ == user_for_creation.email@
                && resp.content.role == user_for_creation.role
                && resp.content.created_at == resp.content.updated_at,
            r matches Err(resp) ==> resp.detail == resp.content.detail
                && ((resp.status == HttpStatus::BadRequest
                    && resp.content.error_type == ErrorType::ClientError
                    && resp.detail@ == "User with this email already exists"@)
                || (resp.status == HttpStatus::InternalServerError
                    && resp.content.error_type == ErrorType::ServerError
                    && resp.detail@ == "Internal error"@)),
    ;
}

/// The handler over an injected workflow.
pub struct CreateUserHandlerImpl<S> {
    pub create_user_service: S,
}

impl<S: CreateUserService> CreateUserHandler for CreateUserHandlerImpl<S> {
    fn execute(&self, user_for_creation: UserForCreation) -> (r: Result<
        HttpResponse<UserPublic>,
        HttpResponse<AppError>,
    >) {
        match self.create_user_service.execute(user_for_creation) {
            Ok(created_user) => Ok(success_envelope(created_user)),
            Err(err) => Err(error_envelope(err)),
        }
    }
}

} // verus!
