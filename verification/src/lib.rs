//! Verified core logic of the Kaspa NG wallet interface: networks and
//! their consensus figures, notifications, metrics ranges, payment request
//! URIs, and the decisions of its pages as state machines (wallet creation
//! and opening, account creation, secret change, export, scanning, the
//! account manager and its send panel), with the text and list helpers they
//! rest on.

pub mod account;
pub mod account_create;
pub mod account_manager;
pub mod descriptor;
pub mod error;
pub mod export;
pub mod import;
pub mod metrics;
pub mod modules;
pub mod network;
pub mod node;
pub mod notifications;
pub mod overview;
pub mod request;
pub mod scanner;
pub mod send;
pub mod settings;
pub mod text;
pub mod transaction;
pub mod wallet_create;
pub mod wallet_open;
pub mod wallet_secret;
