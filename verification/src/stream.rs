//! Stream-side values: the seek request a position maps to, and the error
//! a failed position change surfaces as.

use vstd::prelude::*;

use crate::error::E_FAIL;
use crate::error::Hresult;
use crate::error::S_OK;

verus! {

/// A failed attempt to change a stream's position at the given offset.
#[derive(Debug, Clone, Copy, PartialEq, Eq, Structural)]
pub enum StreamError {
    Offset,
}

/// Where a seek is asked to move the position.
#[derive(Debug, Clone, Copy, PartialEq, Eq, Structural)]
pub enum SeekPos {
    Start(u64),
    End(i64),
    Current(i64),
}

/// The wire form of a seek origin.
#[derive(Debug, Clone, Copy, PartialEq, Eq, Structural)]
pub enum StreamSeekFrom {
    Beginning,
    Current,
    End,
}

/// Reads a seek's boundary status: success means the position changed, the
/// failure status means the offset could not be reached.
pub fn seek_outcome(status: Hresult) -> (r: Result<(), StreamError>)
    requires
        status.0 == S_OK || status.0 == E_FAIL,
    ensures
        status.0 == S_OK <==> r is Ok,
        r is Err ==> r->Err_0 == StreamError::Offset,
{
    if status.0 == S_OK {
        Ok(())
    } else {
        Err(StreamError::Offset)
    }
}

/// Maps a seek position to the offset and origin the wire call takes.
pub fn seek_request(pos: SeekPos) -> (r: (i64, StreamSeekFrom))
    requires
        pos is Start ==> pos->Start_0 <= i64::MAX,
    ensures
        match pos {
            SeekPos::Start(offset) => r == (offset as i64, StreamSeekFrom::Beginning),
            SeekPos::End(offset) => r == (offset, StreamSeekFrom::End),
            SeekPos::Current(offset) => r == (offset, StreamSeekFrom::Current),
        },
{
    match pos {
        SeekPos::Start(offset) => (offset as i64, StreamSeekFrom::Beginning),
        SeekPos::End(offset) => (offset, StreamSeekFrom::End),
        SeekPos::Current(offset) => (offset, StreamSeekFrom::Current),
    }
}

} // verus!
