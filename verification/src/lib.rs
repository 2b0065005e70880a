//! Tabular export of per-subject records: a configurable transformer that
//! renders integer attributes and boolean trait flags as a column-ordered
//! text matrix, together with the small data model and configuration types
//! around it.

pub mod config;
pub mod db_utils;
pub mod decimal;
pub mod errors;
pub mod export;
pub mod logging;
pub mod matrix;
pub mod models;
