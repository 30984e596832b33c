//! Watcher core for a data-availability batch pipeline: decodes
//! `BatchConfirmed` log events out of committed chain blocks and drives the
//! sequential blob-retrieval protocol for each confirmed batch.

pub mod bytes;
pub mod decode;
pub mod extract;
pub mod extract_laws;
pub mod pad;
pub mod pipeline;
pub mod retrieve;
pub mod types;
