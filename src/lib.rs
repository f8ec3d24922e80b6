//! Feed ingestion: detection of RSS and Atom documents and their
//! normalization into one uniform `Feed` model.

pub mod detect;
pub mod error;
pub mod laws;
pub mod models;
pub mod normalize;
pub mod pipeline;
pub mod sources;
