//! Rewrites the text of JSON records with an ordered list of regular-expression
//! replacements that are compiled once and then applied to every record.

pub mod engine;
pub mod error;
pub mod json;
pub mod text;
pub mod template;
pub mod rule;
pub mod config;
pub mod operation;
pub mod pipeline;
pub mod stage;
pub mod laws;
