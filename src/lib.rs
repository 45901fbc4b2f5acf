//! Event ingestion: decoding, validation, de-duplication and dispatch of
//! newline-delimited event records, and the partition of a log among workers.
pub mod json;
pub mod models;
pub mod validation;
pub mod decode;
pub mod dispatch;
pub mod dedup;
pub mod pipeline;
pub mod report;
pub mod partition;
