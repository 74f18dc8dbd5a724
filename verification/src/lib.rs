//! Extraction of zip archives whose entry names are stored in a legacy
//! text encoding: a fixed table of candidate encodings, a filter that
//! keeps the encodings able to decode every entry name, and the
//! per-entry decisions of extraction and reporting.
pub mod archive;
pub mod encodings;
pub mod errors;
pub mod extract;
pub mod filter;

pub use archive::Archive;
pub use extract::{ExtractStep, Extractor};
pub use encodings::EncodingId;
pub use errors::UnzipError;
