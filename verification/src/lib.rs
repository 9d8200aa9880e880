pub mod app_error;
pub mod create_user_handler;
pub mod create_user_repository;
pub mod create_user_service;
pub mod encryptor;
pub mod find_user_by_email_repository;
pub mod http_status_code;
pub mod user_model;
pub mod uuid_generator;
