//! The decision core of a streaming archive extractor.
//!
//! An extraction is a machine: it tells its driver what to do next (look at
//! a path, advance the read session, pull a block, write it to the sink) and
//! is handed back what the driver observed. Every decision is taken here:
//! how a codec status is classified, which failures end the whole
//! extraction and which only one entry, what is recorded for each entry,
//! and in which order the sessions are released. Talking to the codec and
//! to the file system is left to the driver.
//!
//! Each machine has a mathematical model; the executable machine follows
//! it step by step, and the laws are proved of the model.

pub mod archive;
pub mod disk;
pub mod error;
pub mod laws;
pub mod memory;
pub mod path;
pub mod protocol;
pub mod report;
pub mod script;
pub mod sink_script;

pub use archive::{Archive, ArchiveExt};
pub use error::{LibArchiveError, LibArchiveInternalStatus, LibArchiveResult};
pub use report::{DecompressedData, FileInfo};
