//! Message classification, reaction requests and process supervision for a
//! chat reaction service, with every decision stated as a contract.

pub mod auth;
pub mod client;
pub mod event_loop;
pub mod filter;
pub mod json;
pub mod number;
pub mod price;
pub mod requests;
pub mod supervisor;
pub mod text;

