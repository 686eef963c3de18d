//! What every request carries along.

pub mod request_tracing;
