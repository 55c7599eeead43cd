//! Verified core of a batch asset-import pipeline.
//!
//! Flat input records reference a slash-delimited location path; the library
//! decomposes such paths, renders the search request that resolves the
//! matching parent entity, picks the parent identifier out of the search
//! results, builds the asset-creation document, and sequences the whole batch
//! so that one record's failure never stops the records after it.  All
//! network traffic and file handling stays outside, in the surrounding
//! binary, which feeds plain values in and carries request bodies out.

pub mod batch;
pub mod config;
pub mod path;
pub mod payload;
pub mod search;
pub mod text;
