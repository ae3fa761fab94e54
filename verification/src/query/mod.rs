//! The query pipeline: named and positional parameters are expanded, the SQL is parsed,
//! checked against what the caller's role may read, and translated to the SQL that runs.

pub mod error;
pub mod sql;
pub mod lower;
pub mod parser;
pub mod preprocessor;
pub mod validator;
pub mod translator;
pub mod executor;
pub mod laws;
pub mod numbering;
