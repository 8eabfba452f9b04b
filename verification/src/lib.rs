//! Verified core of the Okane banking service: money arithmetic, the ledger
//! balance, PayMongo webhook signatures, password and session rules, and the
//! decisions that the HTTP handlers take around their database calls.

pub mod errors;
pub mod amount;
pub mod ledger;
pub mod paymongo;
pub mod checkout;
pub mod auth;
pub mod accounts;
pub mod handlers;
pub mod cookies;
