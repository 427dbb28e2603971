//! Verified core of the EasyMall storefront backend: the decisions that the
//! HTTP handlers make, separated from the database and network calls that
//! surround them.

pub mod text;
pub mod wallet;
pub mod session;
pub mod redirect;
pub mod checkout;
pub mod order_status;
pub mod dashboard;
pub mod cart;
pub mod api_keys;
pub mod catalog;
pub mod login;
pub mod messaging;
pub mod account;
