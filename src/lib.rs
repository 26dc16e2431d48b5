//! A small media-asset store: untrusted file names are checked before they reach
//! storage, multipart uploads are decoded under a size ceiling, and a flat journal of
//! asset records is kept in step with the stored files by two orchestrators.
pub mod name;
pub mod record;
pub mod journal;
pub mod upload;
pub mod ingest;
pub mod delete;
pub mod laws;
