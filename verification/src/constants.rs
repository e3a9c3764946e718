//! The 32-bit signature values that frame each ZIP record kind.
//!
//! Signatures appear in the byte stream in little-endian order; the values
//! below are the decoded integers.

use vstd::prelude::*;

verus! {

/// The signature of a local file header.
pub const SIGNATURE_HEADER_LOCAL_FILE: u32 = 0x04034b50;

/// The signature of the archive extra data record.
pub const SIGNATURE_ARCHIVE_EXTRA_DATA_RECORD: u32 = 0x08064b50;

/// The signature of a central directory file header.
pub const SIGNATURE_HEADER_CENTRAL_DIRECTORY: u32 = 0x02014b50;

/// The digital signature, optionally stored after all central directory
/// file headers.
pub const SIGNATURE_CENTRAL_DIRECTORY_DIGITAL_SIGNATURE: u32 = 0x05054b50;

/// The signature of an end-of-central-directory record.
pub const SIGNATURE_END_OF_CENTRAL_DIRECTORY_RECORD: u32 = 0x06054b50;

/// The signature of an end-of-central-directory record in a ZIP64 archive
/// (recognized but not decoded).
pub const SIGNATURE_ZIP64_END_OF_CENTRAL_DIRECTORY_RECORD: u32 = 0x06064b50;

} // verus!
