//! Typed access to Yahoo Finance market data, in the style of Python's `yfinance`.
//!
//! This crate holds the verified core of the client: the retry/backoff policy,
//! request building, identifier resolution (MIC suffixes, ISINs), the JSON
//! model and the readers of every reply field (numbers kept as sent), the
//! statement and time-series tables, and the decisions of the live stream.
//! Network transport, the sqlite cache and the floating-point arithmetic of
//! price bars live in the companion application crate.

pub mod cache;
pub mod calendars;
pub mod client;
pub mod config;
pub mod dates;
pub mod domain;
pub mod earnings;
pub mod error;
pub mod fundamentals;
pub mod history;
pub mod http;
pub mod isin;
pub mod json;
pub mod laws;
pub mod live;
pub mod lookup;
pub mod mic;
pub mod news;
pub mod options;
pub mod parity;
pub mod quote;
pub mod records;
pub mod screener;
pub mod search;
pub mod shares;
pub mod summary;
pub mod text;

pub use error::YfError;
