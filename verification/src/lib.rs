//! A forensic, recovery-tolerant structural parser for the ZIP archive
//! container format.
//!
//! Given the raw bytes of a file purported to be a ZIP archive, the parser
//! produces a structured model of every recognizable record: the entries
//! stored in the body, the central-directory index at the tail, the
//! end-of-central-directory trailer, an optional archive extra-data record
//! and an optional digital signature, together with cross-reference
//! metadata that lets callers detect inconsistencies between the body and
//! the index. It is a read-only analyzer: it does not decompress entry
//! payloads, verify checksums, or write archives.

pub mod constants;
pub mod cursor;
pub mod errors;
pub mod format;
pub mod model;
pub mod props;
pub mod reader;
pub mod util;
