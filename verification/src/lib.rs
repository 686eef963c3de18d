//! A small custodial ledger: exact fixed-point money amounts, a ledger of
//! transactions per named account that never lets a balance go negative, and
//! a registry of live subscribers that every recorded transaction is fanned
//! out to.

pub mod appstate;
pub mod db;
pub mod handlers;
pub mod middleware;
pub mod model;
pub mod text;
