//! An in-memory student record store with derived academic statistics and a
//! fixed-layout report document builder.

pub mod numfmt;
pub mod parse;
pub mod record;
pub mod render;
pub mod shell;
pub mod store;
