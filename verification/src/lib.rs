//! A small ledger-account viewer library: validation of Base58Check-style
//! account addresses, normalization of ledger-reported balances and
//! timestamps into display-ready values, and projection of raw transaction
//! records for display. Transport, argument parsing and console output are
//! left to the calling application.

pub mod address;
pub mod calendar;
pub mod config;
pub mod display;
pub mod models;
pub mod numeral;
pub mod text;
