//! The data model: amounts, transactions, errors and subscriber messages.

pub mod amount;
pub mod decimal;
pub mod error;
pub mod transaction;
pub mod websocket_msg;
