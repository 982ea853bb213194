//! The authentication core of a user-facing web backend: signed session
//! tokens with access and refresh classes, the guard that admits requests
//! to protected endpoints, password hashing, and a credential store that
//! hides soft-deleted accounts. Every function is verified against its
//! contract; what is taken on trust of `jsonwebtoken`, `bcrypt`, `uuid`,
//! `chrono` and `String::from_utf8` is stated where it is called.

pub mod bearer;
pub mod clock;
pub mod database;
pub mod entities;
pub mod errors;
pub mod extract_user_uuid;
pub mod handlers;
pub mod identifier;
pub mod jwt_service;
pub mod middleware;
pub mod password;
pub mod reply;
pub mod services;
pub mod traits;
pub mod user_repository;
