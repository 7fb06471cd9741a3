//! Validation, paging, error codes and log redaction for the `demo_item`
//! desktop tool, with their contracts checked by Verus.

pub mod db;
pub mod demo_item;
pub mod error;
pub mod logging;
pub mod text;
