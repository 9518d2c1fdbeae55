//! Session tokens and per-request identity for the counter service.
//!
//! The crate mints signed, time-bounded tokens that bind a numeric user id,
//! verifies them, and turns the `Authorization` header of a request into a
//! verified user id or a typed rejection. Time and the signing secret are
//! always passed in explicitly, so every operation is a function of its
//! arguments.

pub mod api;
pub mod bearer;
pub mod codec;
pub mod decimal;
pub mod text;
