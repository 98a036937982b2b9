//! Verified core of a small HTTP service with two routes: a constant
//! greeting, and a handler that validates a JSON person record and
//! answers with a formatted message.

pub mod digits;
pub mod json_in;
pub mod json_out;
pub mod person;
pub mod routes;
