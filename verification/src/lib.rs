//! Market data ingestion and backtesting logic for GMO Coin feeds.

pub mod auth;
pub mod backtest;
pub mod config;
pub mod health;
pub mod ingest;
pub mod json;
pub mod logging;
pub mod market;
pub mod replay;
pub mod rows;
pub mod service;
pub mod sql;
pub mod testutils;
pub mod text;
pub mod merge_sort;
pub mod metrics;
pub mod model;
