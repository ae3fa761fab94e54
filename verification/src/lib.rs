//! TinyCMS core logic: the query pipeline (parameter expansion, SQL validation and
//! translation), schema field validation, authentication helpers and the
//! command-line renderings, each with its contract.

pub mod text;
pub mod json;
pub mod models;
pub mod schema;
pub mod query;
pub mod auth;
pub mod error;
pub mod cli;
pub mod config;
pub mod api;
pub mod storage;
