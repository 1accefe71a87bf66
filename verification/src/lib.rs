//! Ingestion of the people-with-significant-control snapshot: naming the
//! daily archive, extracting it, decoding its records and exporting them
//! as a flat table.

pub mod archive;
pub mod calendar;
pub mod decode;
pub mod export;
pub mod fetch;
pub mod flatten;
pub mod json;
pub mod naming;
pub mod pipeline;
pub mod reader;
pub mod record;
pub mod text;
