//! A bounds-aware positioned cursor over the in-memory bytes of an archive.

use vstd::prelude::*;

use crate::errors::ArchiveReadError;

verus! {

/// A positioned read head over the raw bytes of an archive held in memory.
///
/// The cursor is the single source of positional truth for the parser:
/// every decoder reports offsets relative to it. Reads past the end of the
/// input return a short chunk (possibly empty); rewinds past the start
/// fail.
pub struct ByteCursor {
    /// The raw bytes of the input.
    pub data: Vec<u8>,
    /// The position of the next byte to read, always within
    /// `0 ..= data.len()`.
    pub pos: usize,
}

impl ByteCursor {
    /// The read position stays within the bounds of the buffer.
    pub open spec fn wf(&self) -> bool {
        self.pos <= self.data@.len()
    }

    /// Wraps a byte buffer, with the read position at its start.
    pub fn new(data: Vec<u8>) -> (cursor: ByteCursor)
        ensures
            cursor.wf(),
            cursor.data@ == data@,
            cursor.pos == 0,
    {
        ByteCursor { data, pos: 0 }
    }

    /// The absolute position of the next byte to be read.
    pub fn stream_position(&self) -> (p: usize)
        ensures
            p == self.pos,
    {
        self.pos
    }

    /// Moves the read position to an absolute offset. Seeking past the
    /// end of the input fails and leaves the cursor unchanged.
    pub fn seek(&mut self, position: usize) -> (r: Result<(), ArchiveReadError>)
        requires
            old(self).wf(),
        ensures
            final(self).wf(),
            final(self).data@ == old(self).data@,
            position <= old(self).data@.len() ==> (r matches Ok(_) && final(self).pos
                == position),
            position > old(self).data@.len() ==> (r matches Err(e) && e
                == ArchiveReadError::SeekFailure && final(self).pos == old(self).pos),
    {
        if position > self.data.len() {
            return Err(ArchiveReadError::SeekFailure);
        }
        self.pos = position;
        Ok(())
    }

    /// The number of bytes between the read position and the end of the
    /// input.
    pub fn remaining(&self) -> (n: usize)
        requires
            self.wf(),
        ensures
            n == self.data@.len() - self.pos,
    {
        self.data.len() - self.pos
    }
}

} // verus!
