//! Error kinds reported by the primitive decoders and the record readers.

use vstd::prelude::*;

verus! {

/// An error from decoding a fixed-width integer out of a byte slice.
#[derive(Clone, Copy, Debug, PartialEq, Eq, Structural)]
pub enum ReadNumberFromBytesError {
    /// The slice holds fewer bytes than the integer needs.
    NotEnoughBytes,
    /// The slice holds more bytes than the integer needs.
    TooManyBytes,
}

/// The kinds of failure a record reader can report.
#[derive(Clone, Copy, Debug, PartialEq, Eq, Structural)]
pub enum ArchiveReadError {
    /// The input ended before a fixed-width field could be read in full.
    InputTruncated,
    /// A byte slice handed to a primitive integer decoder had the wrong
    /// length. This indicates a broken caller, not a damaged archive.
    IntegerDecode,
    /// A required record (the end-of-central-directory trailer inside a
    /// central-directory section) is absent.
    SectionMissing,
    /// The cursor rejected a seek or rewind.
    SeekFailure,
}

} // verus!
