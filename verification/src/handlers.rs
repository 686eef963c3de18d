//! The operations that a request asks for, on parsed arguments.

pub mod child;
pub mod path_not_found;
pub mod record_transaction;
pub mod websocket;
