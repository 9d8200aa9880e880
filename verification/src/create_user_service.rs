use vstd::prelude::*;

use crate::app_error::AppError;
use crate::app_error::ErrorType;
use crate::create_user_repository::CreateUserRepository;
use crate::encryptor::Encryptor;
use crate::find_user_by_email_repository::FindUserByEmailRepository;
use crate::user_model::assemble_user;
use crate::user_model::Timestamp;
use crate::user_model::User;
use crate::user_model::UserForCreation;
use crate::user_model::UserPublic;
use crate::uuid_generator::UuidGenerator;

verus! {

/// Relies on chrono::Utc::now: the current wall-clock instant, reduced to
/// milliseconds since the Unix epoch. Nothing is promised of a clock
/// reading.
#[verifier::external_body]
fn current_timestamp() -> Timestamp {
    Timestamp { millis: chrono::Utc::now().timestamp_millis() }
}

/// The workflow's policy for a dependency's outcome: a success passes
/// through unchanged, and any failure is terminal, surfaced as a
/// ServerError whose visible detail is the fixed generic string.
pub fn dependency_outcome<T>(step: Result<T, String>) -> (r: Result<T, AppError>)
    ensures
        step is Ok <==> r is Ok,
        r is Ok ==> r->Ok_0 == step->Ok_0,
        r matches Err(e) ==> e.error_type == ErrorType::ServerError && e.detail@ == "Internal error"@,
{
    match step {
        Ok(v) => Ok(v),
        Err(cause) => Err(AppError::server_error(cause)),
    }
}

/// The duplicate policy: a user already holding the requested email rejects
/// the request with the specific caller-visible detail; otherwise creation
/// may proceed.
pub fn duplicate_check(existing: Option<User>) -> (r: Result<(), AppError>)
    ensures
        existing is None <==> r is Ok,
        r matches Err(e) ==> e.error_type == ErrorType::ClientError
            && e.detail@ == "User with this email already exists"@,
{
    match existing {
        Some(_) => Err(AppError::client_error("User with this email already exists".to_owned())),
        None => Ok(()),
    }
}

/// The create-user use case: check for a duplicate, generate an id, hash
/// the password, persist, and surface domain errors.
pub trait CreateUserService {
    /// On success the caller receives a public projection carrying the
    /// request's email and role and one single instant for both stamps --
    /// and never any password field. On failure the error is either the
    /// one caller-visible duplicate rejection or the generic internal one.
    fn execute(&self, user_for_creation: UserForCreation) -> (r: Result<UserPublic, AppError>)
        ensures
            r matches Ok(p) ==> p.email@ == user_for_creation.email@
                && p.role == user_for_creation.role
                && p.created_at == p.updated_at,
            r matches Err(e) ==> (e.error_type == ErrorType::ClientError
                && e.detail@ == "User with this email already exists"@)
                || (e.error_type == ErrorType::ServerError && e.detail@ == "Internal error"@),
    ;
}

/// The workflow over its four injected capabilities.
pub struct CreateUserServiceImpl<C, F, E, G> {
    pub create_user_repository: C,
    pub find_user_by_email_repository: F,
    pub encryptor: E,
    pub uuid_generator: G,
}

impl<
    C: CreateUserRepository,
    F: FindUserByEmailRepository,
    E: Encryptor,
    G: UuidGenerator,
> CreateUserService for CreateUserServiceImpl<C, F, E, G> {
    fn execute(&self, user_for_creation: UserForCreation) -> (r: Result<UserPublic, AppError>) {
        let lookup = self.find_user_by_email_repository.execute(user_for_creation.email.clone());
        let existing = match dependency_outcome(lookup) {
            Ok(v) => v,
            Err(e) => {
                return Err(e);
            },
        };

        if let Err(e) = duplicate_check(existing) {
            return Err(e);
        }

        let user_id = match dependency_outcome(self.uuid_generator.generate()) {
            Ok(v) => v,
            Err(e) => {
                return Err(e);
            },
        };

        let hashed_password = match dependency_outcome(
            self.encryptor.encrypt(user_for_creation.password.as_str()),
        ) {
            Ok(v) => v,
            Err(e) => {
                return Err(e);
            },
        };

        let now = current_timestamp();
        let user = assemble_user(user_for_creation, user_id, hashed_password, now);

        let user_created = match dependency_outcome(self.create_user_repository.execute(user)) {
            Ok(v) => v,
            Err(e) => {
                return Err(e);
            },
        };

        Ok(user_created)
    }
}

} // verus!
