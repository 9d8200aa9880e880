use user_service::app_error::AppError;
use user_service::app_error::ErrorType;
use user_service::encryptor::BcryptEncryptor;
use user_service::encryptor::Encryptor;
use user_service::http_status_code::HttpResponse;
use user_service::http_status_code::HttpStatus;
use user_service::uuid_generator::UuidGenerator;
use user_service::uuid_generator::UuidV4Generator;

#[test]
fn status_codes_are_exact() {
    assert_eq!(HttpStatus::Okay.code(), 200);
    assert_eq!(HttpStatus::Created.code(), 201);
    assert_eq!(HttpStatus::NoContent.code(), 204);
    assert_eq!(HttpStatus::BadRequest.code(), 400);
    assert_eq!(HttpStatus::Unauthorized.code(), 401);
    assert_eq!(HttpStatus::Forbidden.code(), 403);
    assert_eq!(HttpStatus::NotFound.code(), 404);
    assert_eq!(HttpStatus::TooManyRequests.code(), 429);
    assert_eq!(HttpStatus::InternalServerError.code(), 500);
}

#[test]
fn status_names_are_exact() {
    assert_eq!(HttpStatus::Okay.name(), "OK");
    assert_eq!(HttpStatus::Created.name(), "Created");
    assert_eq!(HttpStatus::NoContent.name(), "NoContent");
    assert_eq!(HttpStatus::BadRequest.name(), "BadRequest");
    assert_eq!(HttpStatus::Unauthorized.name(), "Unauthorized");
    assert_eq!(HttpStatus::Forbidden.name(), "Forbidden");
    assert_eq!(HttpStatus::NotFound.name(), "NotFound");
    assert_eq!(HttpStatus::TooManyRequests.name(), "TooManyRequests");
    assert_eq!(HttpStatus::InternalServerError.name(), "InternalServerError");
}

#[test]
fn client_error_keeps_its_detail() {
    let error = AppError::client_error("email is taken".to_string());
    assert!(matches!(error.error_type, ErrorType::ClientError));
    assert_eq!(error.detail, "email is taken");
}

#[test]
fn server_error_hides_its_cause() {
    let error = AppError::server_error("connection refused by 10.0.0.5".to_string());
    assert!(matches!(error.error_type, ErrorType::ServerError));
    assert_eq!(error.detail, "Internal error");
    assert!(!error.detail.contains("10.0.0.5"));
}

#[test]
fn response_envelope_wraps_any_content() {
    let response = HttpResponse {
        status: HttpStatus::Okay,
        detail: "fine".to_string(),
        content: 17u32,
    };
    assert_eq!(response.status.code(), 200);
    assert_eq!(response.content, 17u32);
}

#[test]
fn bcrypt_round_trip_accepts_the_password() {
    let encryptor = BcryptEncryptor;
    let hash = encryptor.encrypt("correct horse").unwrap();
    assert_ne!(hash, "correct horse");
    assert_eq!(hash.len(), 60);
    assert_eq!(encryptor.verify("correct horse", &hash), Ok(true));
}

#[test]
fn bcrypt_rejects_a_wrong_password() {
    let encryptor = BcryptEncryptor;
    let hash = encryptor.encrypt("correct horse").unwrap();
    assert_eq!(encryptor.verify("battery staple", &hash), Ok(false));
}

#[test]
fn bcrypt_reports_a_malformed_hash() {
    let encryptor = BcryptEncryptor;
    assert!(encryptor.verify("anything", "not-a-bcrypt-hash").is_err());
}

#[test]
fn generated_identifiers_are_canonical_and_distinct() {
    let generator = UuidV4Generator;
    let first = generator.generate().unwrap();
    let second = generator.generate().unwrap();
    assert_eq!(first.len(), 36);
    assert_eq!(second.len(), 36);
    assert_ne!(first, second);
    for (index, character) in first.chars().enumerate() {
        if index == 8 || index == 13 || index == 18 || index == 23 {
            assert_eq!(character, '-');
        } else {
            assert!(character.is_ascii_hexdigit());
            assert!(!character.is_ascii_uppercase());
        }
        if index == 14 {
            assert_eq!(character, '4');
        }
        if index == 19 {
            assert!(matches!(character, '8' | '9' | 'a' | 'b'));
        }
    }
}
