//! Authentication core of a user-facing API: password hashing, signed
//! bearer tokens, credential extraction from request headers, and the
//! decisions behind the register, login and listing endpoints.
//!
//! Every function here is verified. Calls into the cryptographic, time,
//! identifier and header crates go through small trusted wrappers, one per
//! module of that name; the contracts of the public functions are stated over
//! the results those wrappers name.

pub mod auth;
pub mod clock;
pub mod error;
pub mod headers;
pub mod ids;
pub mod jwt;
pub mod models;
pub mod phc;
pub mod users;
pub mod utils;
