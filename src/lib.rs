//! Upload ingestion for a small file-sharing web service: safe names for
//! uploaded files, and the per-request decisions of the multipart upload
//! handler as a verified state machine.

pub mod naming;
pub mod session;
pub mod config;
