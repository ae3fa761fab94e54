//! The records the CMS stores and the edits it accepts, as far as they hold plain values.

pub mod media;
pub mod user;
pub mod workspace;
