//! Connection-bound BLOB and character LOB locators.
//!
//! A LOB owns a native locator descriptor (of the caller's type `L`). The
//! checks made before a LOB transfer, the sizes and offsets handed to the
//! client, the interpretation of its replies, and the chunking of whole-value
//! reads are decided here; the caller performs the native calls.

use vstd::prelude::*;
use vstd::string::*;

use crate::error::Error;
use crate::ffi::YacTempLobType;

verus! {

/// The position and sizes of one LOB transfer.
#[derive(Clone, Copy, Debug, PartialEq, Eq, Structural)]
pub struct LobIo {
    /// One-based offset (bytes for a BLOB, characters for a text LOB); unused
    /// by an append.
    pub offset: u64,
    /// Number of bytes to transfer.
    pub byte_size: u64,
    /// Number of characters to transfer (zero for a BLOB).
    pub char_size: u64,
}

/// How to obtain a new LOB: allocate a locator descriptor and, for a
/// temporary LOB, create a temporary LOB of the given kind on it.
#[derive(Clone, Copy, Debug, PartialEq, Eq, Structural)]
pub struct LobRequest {
    /// The kind of LOB.
    pub lob_type: YacTempLobType,
    /// Whether a temporary server LOB must be created on the new descriptor.
    pub create_temporary: bool,
}

/// A native call on a live LOB locator.
#[derive(Clone, Copy, Debug, PartialEq, Eq, Structural)]
pub enum LobCall {
    /// Read the length (bytes for a BLOB, characters for a text LOB).
    Length,
    /// Truncate to the given length.
    Trim(u64),
    /// Ask whether the locator refers to a temporary LOB; when it does, the
    /// temporary LOB is freed (see [`Lob::must_free_temporary`]).
    CheckTemporary,
}

/// The error for a one-based offset of zero.
pub open spec fn offset_error(e: Error) -> bool {
    e matches Error::InvalidArgument(msg) && msg@ == "LOB offset must start at 1"@
}

/// The error for a locator that was already transferred out.
pub open spec fn released_error(e: Error) -> bool {
    e matches Error::Internal(msg) && msg@ == "LOB locator was already released"@
}

fn offset_must_start_at_one() -> (result: Error)
    ensures
        offset_error(result),
{
    Error::InvalidArgument("LOB offset must start at 1".to_owned())
}

/// The transfer that appends `data` to a BLOB: `None` when `data` is
/// empty, since an empty append makes no call.
pub fn blob_append_plan(data: &[u8]) -> (result: Option<LobIo>)
    ensures
        data@.len() == 0 ==> result is None,
        data@.len() != 0 ==> result == Some(
            LobIo { offset: 0, byte_size: data@.len() as u64, char_size: 0 },
        ),
{
    if data.len() == 0 {
        return None;
    }
    Some(LobIo { offset: 0, byte_size: data.len() as u64, char_size: 0 })
}

/// A LOB locator descriptor, present until it is transferred out.
#[derive(Debug)]
pub struct Lob<L> {
    locator: Option<L>,
}

impl<L> Lob<L> {
    /// The held locator, if it was not transferred out.
    pub closed spec fn spec_locator(&self) -> Option<L> {
        self.locator
    }

    /// A LOB holding a freshly allocated descriptor.
    pub fn new(locator: L) -> (result: Lob<L>)
        ensures
            result.spec_locator() == Some(locator),
    {
        Lob { locator: Some(locator) }
    }

    /// Transfer the locator out into a new LOB, leaving this one released.
    pub fn take(&mut self) -> (result: Option<Lob<L>>)
        ensures
            final(self).spec_locator() is None,
            match old(self).spec_locator() {
                Some(l) => result matches Some(lob) && lob.spec_locator() == Some(l),
                None => result is None,
            },
    {
        match self.locator.take() {
            Some(locator) => Some(Lob { locator: Some(locator) }),
            None => None,
        }
    }

    /// Whether the locator is still held.
    pub fn is_live(&self) -> (result: bool)
        ensures
            result == self.spec_locator() is Some,
    {
        self.locator.is_some()
    }

    /// The held locator, or an internal error once it was transferred out.
    pub fn locator(&self) -> (result: Result<&L, Error>)
        ensures
            match self.spec_locator() {
                Some(l) => result == Ok::<&L, Error>(&l),
                None => result matches Err(e) && released_error(e),
            },
    {
        match &self.locator {
            Some(locator) => Ok(locator),
            None => Err(Error::Internal("LOB locator was already released".to_owned())),
        }
    }

    /// Give up the descriptor so that it can be freed.
    pub fn into_locator(self) -> (result: Option<L>)
        ensures
            result == self.spec_locator(),
    {
        self.locator
    }

    /// Whether releasing this LOB must free a temporary server LOB, given
    /// the client's report of whether the locator is temporary. A released
    /// locator needs nothing.
    pub fn must_free_temporary(&self, reported_temporary: bool) -> (result: bool)
        ensures
            result == (self.spec_locator() is Some && reported_temporary),
    {
        self.locator.is_some() && reported_temporary
    }
}

/// Whether a whole-value transfer of `length` bytes fits in memory.
pub open spec fn addressable(length: int) -> bool {
    length <= isize::MAX
}

/// A connection-bound binary large object locator.
#[derive(Debug)]
pub struct Blob<L> {
    lob: Lob<L>,
}

impl<L> Blob<L> {
    /// The held locator, if not transferred out.
    pub closed spec fn spec_locator(&self) -> Option<L> {
        self.lob.spec_locator()
    }

    /// How to allocate a BLOB locator for a non-nullable output parameter:
    /// only a client-side descriptor, no temporary server LOB.
    pub fn output() -> (result: LobRequest)
        ensures
            result == (LobRequest { lob_type: YacTempLobType::Blob, create_temporary: false }),
    {
        LobRequest { lob_type: YacTempLobType::Blob, create_temporary: false }
    }

    /// How to create an empty temporary BLOB.
    pub fn temporary() -> (result: LobRequest)
        ensures
            result == (LobRequest { lob_type: YacTempLobType::Blob, create_temporary: true }),
    {
        LobRequest { lob_type: YacTempLobType::Blob, create_temporary: true }
    }

    /// A BLOB that owns a LOB's locator.
    pub fn from_lob(lob: Lob<L>) -> (result: Blob<L>)
        ensures
            result.spec_locator() == lob.spec_locator(),
    {
        Blob { lob }
    }

    /// The underlying LOB.
    pub fn lob(&self) -> (result: &Lob<L>)
        ensures
            result.spec_locator() == self.spec_locator(),
    {
        &self.lob
    }

    /// Give up the underlying LOB for release.
    pub fn into_lob(self) -> (result: Lob<L>)
        ensures
            result.spec_locator() == self.spec_locator(),
    {
        self.lob
    }

    /// Read the length: the call to make on the live locator.
    pub fn len(&self) -> (result: Result<LobCall, Error>)
        ensures
            self.spec_locator() is Some ==> result == Ok::<LobCall, Error>(LobCall::Length),
            self.spec_locator() is None ==> (result matches Err(e) && released_error(e)),
    {
        match self.lob.locator() {
            Ok(_) => Ok(LobCall::Length),
            Err(e) => Err(e),
        }
    }

    /// Truncate to `len`: the call to make on the live locator.
    pub fn truncate(&mut self, len: u64) -> (result: Result<LobCall, Error>)
        ensures
            final(self).spec_locator() == old(self).spec_locator(),
            old(self).spec_locator() is Some ==> result == Ok::<LobCall, Error>(LobCall::Trim(len)),
            old(self).spec_locator() is None ==> (result matches Err(e) && released_error(e)),
    {
        match self.lob.locator() {
            Ok(_) => Ok(LobCall::Trim(len)),
            Err(e) => Err(e),
        }
    }

    /// Explicitly release the locator: a live locator is checked for a
    /// temporary LOB to free (the descriptor itself is freed when the LOB is
    /// released); a released one needs nothing.
    pub fn finish(&self) -> (result: Option<LobCall>)
        ensures
            self.spec_locator() is Some ==> result == Some(LobCall::CheckTemporary),
            self.spec_locator() is None ==> result is None,
    {
        if self.lob.is_live() {
            Some(LobCall::CheckTemporary)
        } else {
            None
        }
    }

    /// Whether this BLOB is empty, from its length in bytes.
    pub fn is_empty(&self, length: Result<u64, Error>) -> (result: Result<bool, Error>)
        ensures
            match length {
                Ok(n) => result == Ok::<bool, Error>(n == 0),
                Err(e) => result == Err::<bool, Error>(e),
            },
    {
        match length {
            Ok(n) => Ok(n == 0),
            Err(e) => Err(e),
        }
    }

    /// Whether this BLOB refers to a temporary LOB, from the client's flag.
    pub fn is_temporary(&self, reported: i32) -> (result: bool)
        ensures
            result == (reported != 0),
    {
        reported != 0
    }

    /// The client-recommended transfer chunk size in bytes.
    pub fn chunk_size(&self, reported: Result<u16, Error>) -> (result: Result<usize, Error>)
        ensures
            match reported {
                Ok(n) => result == Ok::<usize, Error>(n as usize),
                Err(e) => result == Err::<usize, Error>(e),
            },
    {
        match reported {
            Ok(n) => Ok(n as usize),
            Err(e) => Err(e),
        }
    }

    /// Plan a read from a one-based byte offset into a buffer of
    /// `buffer_len` bytes: `Ok(None)` when the buffer is empty (nothing is
    /// read), otherwise the transfer to request.
    pub fn read_at(&self, offset: u64, buffer_len: usize) -> (result: Result<Option<LobIo>, Error>)
        ensures
            offset == 0 ==> (result matches Err(e) && offset_error(e)),
            offset != 0 && buffer_len == 0 ==> result == Ok::<Option<LobIo>, Error>(None),
            offset != 0 && buffer_len != 0 ==> result == Ok::<Option<LobIo>, Error>(
                Some(LobIo { offset, byte_size: buffer_len as u64, char_size: 0 }),
            ),
    {
        if offset == 0 {
            return Err(offset_must_start_at_one());
        }
        if buffer_len == 0 {
            return Ok(None);
        }
        Ok(Some(LobIo { offset, byte_size: buffer_len as u64, char_size: 0 }))
    }

    /// Plan a write of `data` at a one-based byte offset: `Ok(None)` when
    /// `data` is empty (nothing is written).
    pub fn write_at(&self, offset: u64, data: &[u8]) -> (result: Result<Option<LobIo>, Error>)
        ensures
            offset == 0 ==> (result matches Err(e) && offset_error(e)),
            offset != 0 && data@.len() == 0 ==> result == Ok::<Option<LobIo>, Error>(None),
            offset != 0 && data@.len() != 0 ==> result == Ok::<Option<LobIo>, Error>(
                Some(LobIo { offset, byte_size: data@.len() as u64, char_size: 0 }),
            ),
    {
        if offset == 0 {
            return Err(offset_must_start_at_one());
        }
        if data.len() == 0 {
            return Ok(None);
        }
        Ok(Some(LobIo { offset, byte_size: data.len() as u64, char_size: 0 }))
    }

    /// Plan an append of `data`: `None` when `data` is empty.
    pub fn append(&self, data: &[u8]) -> (result: Option<LobIo>)
        ensures
            data@.len() == 0 ==> result is None,
            data@.len() != 0 ==> result == Some(
                LobIo { offset: 0, byte_size: data@.len() as u64, char_size: 0 },
            ),
    {
        blob_append_plan(data)
    }

    /// Start reading the complete BLOB of `length` bytes in chunks of the
    /// client-recommended `chunk_size`; a BLOB that cannot fit in memory is
    /// rejected.
    pub fn read_to_end(&self, length: u64, chunk_size: usize) -> (result: Result<BlobReader, Error>)
        ensures
            !addressable(length as int) ==> result == Err::<BlobReader, Error>(
                Error::LobTooLarge { length },
            ),
            addressable(length as int) ==> (result matches Ok(r) && r.wf() && r.spec_capacity()
                == length && r.spec_filled() == 0 && r.spec_chunk() == (if chunk_size == 0 {
                1
            } else {
                chunk_size as int
            }) && !r.spec_done()),
    {
        if length > isize::MAX as u64 {
            return Err(Error::LobTooLarge { length });
        }
        let chunk = if chunk_size == 0 {
            1
        } else {
            chunk_size
        };
        Ok(BlobReader { capacity: length as usize, chunk, filled: 0, done: false })
    }
}

/// Whether the client's reported transfer fits the supplied buffer.
pub fn read_fits(bytes: u64, buffer_len: usize) -> (result: Result<usize, Error>)
    ensures
        bytes <= buffer_len ==> result == Ok::<usize, Error>(bytes as usize),
        bytes > buffer_len ==> (result matches Err(Error::Internal(msg)) && msg@
            == "yacLobRead2 returned more bytes than the supplied buffer"@),
{
    if bytes > buffer_len as u64 {
        Err(Error::Internal("yacLobRead2 returned more bytes than the supplied buffer".to_owned()))
    } else {
        Ok(bytes as usize)
    }
}

/// Reading a whole BLOB chunk by chunk into the spare capacity of an output
/// buffer.
///
/// Reads are contiguous from offset 1, never extend past the BLOB length,
/// and stop at the length, at an empty read, or at a short read.
#[derive(Debug)]
pub struct BlobReader {
    capacity: usize,
    chunk: usize,
    filled: usize,
    done: bool,
}

impl BlobReader {
    /// Total bytes expected.
    pub closed spec fn spec_capacity(&self) -> int {
        self.capacity as int
    }

    /// Chunk size in bytes.
    pub closed spec fn spec_chunk(&self) -> int {
        self.chunk as int
    }

    /// Bytes read so far.
    pub closed spec fn spec_filled(&self) -> int {
        self.filled as int
    }

    /// Whether reading stopped.
    pub closed spec fn spec_done(&self) -> bool {
        self.done
    }

    /// The internal consistency of the reader.
    pub closed spec fn wf(&self) -> bool {
        &&& self.filled <= self.capacity
        &&& self.capacity <= isize::MAX
        &&& self.chunk >= 1
    }

    /// The next chunk to read: its one-based offset and its length, or
    /// `None` when reading is over.
    pub fn next(&self) -> (result: Option<(u64, usize)>)
        requires
            self.wf(),
        ensures
            (self.spec_done() || self.spec_filled() == self.spec_capacity()) ==> result is None,
            !(self.spec_done() || self.spec_filled() == self.spec_capacity()) ==> (result matches Some(
                (offset, len),
            ) && offset == self.spec_filled() + 1 && len == min(
                self.spec_capacity() - self.spec_filled(),
                self.spec_chunk(),
            ) && len >= 1),
    {
        if self.done || self.filled >= self.capacity {
            return None;
        }
        let remaining = self.capacity - self.filled;
        let len = if remaining < self.chunk {
            remaining
        } else {
            self.chunk
        };
        Some(((self.filled as u64) + 1, len))
    }

    /// Record the result of the chunk read returned by [`Self::next`]: the
    /// client reported `count` bytes for a chunk of `len` bytes.
    pub fn advance(&mut self, len: usize, count: u64) -> (result: Result<usize, Error>)
        requires
            old(self).wf(),
            !old(self).spec_done(),
            old(self).spec_filled() < old(self).spec_capacity(),
            len == min(old(self).spec_capacity() - old(self).spec_filled(), old(self).spec_chunk()),
        ensures
            final(self).wf(),
            final(self).spec_capacity() == old(self).spec_capacity(),
            final(self).spec_chunk() == old(self).spec_chunk(),
            count > len ==> (result matches Err(Error::Internal(msg)) && msg@
                == "yacLobRead2 returned more bytes than the supplied buffer"@)
                && final(self).spec_filled() == old(self).spec_filled() && final(self).spec_done()
                == old(self).spec_done(),
            count <= len ==> result == Ok::<usize, Error>(count as usize) && final(self).spec_filled()
                == old(self).spec_filled() + count && final(self).spec_done() == (count == 0 || count
                < len),
            final(self).spec_filled() >= old(self).spec_filled(),
    {
        let counted = read_fits(count, len);
        match counted {
            Ok(n) => {
                self.filled = self.filled + n;
                if n == 0 || n < len {
                    self.done = true;
                }
                Ok(n)
            },
            Err(e) => Err(e),
        }
    }

    /// Bytes read so far.
    pub fn filled(&self) -> (result: usize)
        ensures
            result == self.spec_filled(),
    {
        self.filled
    }
}

/// A whole-BLOB read never fills more than the BLOB's length, and each
/// chunk it asks for is non-empty and ends within the length.
pub proof fn blob_reads_stay_within_length(r: BlobReader)
    requires
        r.wf(),
    ensures
        0 <= r.spec_filled() <= r.spec_capacity(),
        !r.spec_done() && r.spec_filled() < r.spec_capacity() ==> {
            let len = min(r.spec_capacity() - r.spec_filled(), r.spec_chunk());
            1 <= len && r.spec_filled() + len <= r.spec_capacity()
        },
{
}

/// The smaller of two integers.
pub open spec fn min(a: int, b: int) -> int {
    if a < b {
        a
    } else {
        b
    }
}

/// A connection-bound character large object locator (CLOB or NCLOB).
#[derive(Debug)]
pub struct Clob<L> {
    lob: Lob<L>,
    lob_type: YacTempLobType,
}

/// Bytes per character assumed for a national character LOB: the client
/// returns UTF-16 converted to UTF-8, where a character takes up to 4 bytes.
pub const NCLOB_CHARSET_RATIO: u64 = 4;

impl<L> Clob<L> {
    /// The held locator, if not transferred out.
    pub closed spec fn spec_locator(&self) -> Option<L> {
        self.lob.spec_locator()
    }

    /// The kind of character LOB.
    pub closed spec fn spec_lob_type(&self) -> YacTempLobType {
        self.lob_type
    }

    /// The internal consistency of a character LOB: it is never a BLOB.
    pub closed spec fn wf(&self) -> bool {
        self.lob_type != YacTempLobType::Blob
    }

    /// How to allocate a CLOB locator for a non-nullable output parameter.
    pub fn output() -> (result: LobRequest)
        ensures
            result == (LobRequest { lob_type: YacTempLobType::Clob, create_temporary: false }),
    {
        LobRequest { lob_type: YacTempLobType::Clob, create_temporary: false }
    }

    /// How to create an empty temporary CLOB.
    pub fn temporary() -> (result: LobRequest)
        ensures
            result == (LobRequest { lob_type: YacTempLobType::Clob, create_temporary: true }),
    {
        LobRequest { lob_type: YacTempLobType::Clob, create_temporary: true }
    }

    /// A character LOB of the given kind that owns a LOB's locator.
    pub fn from_lob(lob: Lob<L>, lob_type: YacTempLobType) -> (result: Clob<L>)
        requires
            lob_type != YacTempLobType::Blob,
        ensures
            result.wf(),
            result.spec_locator() == lob.spec_locator(),
            result.spec_lob_type() == lob_type,
    {
        Clob { lob, lob_type }
    }

    /// The underlying LOB.
    pub fn lob(&self) -> (result: &Lob<L>)
        ensures
            result.spec_locator() == self.spec_locator(),
    {
        &self.lob
    }

    /// Give up the underlying LOB for release.
    pub fn into_lob(self) -> (result: Lob<L>)
        ensures
            result.spec_locator() == self.spec_locator(),
    {
        self.lob
    }

    /// Read the length: the call to make on the live locator.
    pub fn len(&self) -> (result: Result<LobCall, Error>)
        ensures
            self.spec_locator() is Some ==> result == Ok::<LobCall, Error>(LobCall::Length),
            self.spec_locator() is None ==> (result matches Err(e) && released_error(e)),
    {
        match self.lob.locator() {
            Ok(_) => Ok(LobCall::Length),
            Err(e) => Err(e),
        }
    }

    /// Truncate to `len`: the call to make on the live locator.
    pub fn truncate(&mut self, len: u64) -> (result: Result<LobCall, Error>)
        ensures
            final(self).spec_locator() == old(self).spec_locator(),
            old(self).spec_locator() is Some ==> result == Ok::<LobCall, Error>(LobCall::Trim(len)),
            old(self).spec_locator() is None ==> (result matches Err(e) && released_error(e)),
    {
        match self.lob.locator() {
            Ok(_) => Ok(LobCall::Trim(len)),
            Err(e) => Err(e),
        }
    }

    /// Explicitly release the locator: a live locator is checked for a
    /// temporary LOB to free (the descriptor itself is freed when the LOB is
    /// released); a released one needs nothing.
    pub fn finish(&self) -> (result: Option<LobCall>)
        ensures
            self.spec_locator() is Some ==> result == Some(LobCall::CheckTemporary),
            self.spec_locator() is None ==> result is None,
    {
        if self.lob.is_live() {
            Some(LobCall::CheckTemporary)
        } else {
            None
        }
    }

    /// Whether this text LOB is empty, from its length in characters.
    pub fn is_empty(&self, length: Result<u64, Error>) -> (result: Result<bool, Error>)
        ensures
            match length {
                Ok(n) => result == Ok::<bool, Error>(n == 0),
                Err(e) => result == Err::<bool, Error>(e),
            },
    {
        match length {
            Ok(n) => Ok(n == 0),
            Err(e) => Err(e),
        }
    }

    /// Whether this text LOB refers to a temporary LOB, from the client's flag.
    pub fn is_temporary(&self, reported: i32) -> (result: bool)
        ensures
            result == (reported != 0),
    {
        reported != 0
    }

    /// The client-recommended transfer chunk size in bytes.
    pub fn chunk_size(&self, reported: Result<u16, Error>) -> (result: Result<usize, Error>)
        ensures
            match reported {
                Ok(n) => result == Ok::<usize, Error>(n as usize),
                Err(e) => result == Err::<usize, Error>(e),
            },
    {
        match reported {
            Ok(n) => Ok(n as usize),
            Err(e) => Err(e),
        }
    }

    /// Whether the bytes-per-character ratio comes from the connection's
    /// database character set (a CLOB) rather than being fixed (an NCLOB).
    pub fn uses_database_ratio(&self) -> (result: bool)
        ensures
            result == (self.spec_lob_type() == YacTempLobType::Clob),
    {
        match self.lob_type {
            YacTempLobType::Clob => true,
            _ => false,
        }
    }

    /// The maximum bytes per character used to size text buffers. For a CLOB
    /// it is the connection's database character set ratio (at least 1); for
    /// an NCLOB it is 4.
    pub fn charset_ratio(&self, database_ratio: Option<Result<u32, Error>>) -> (result: Result<u64, Error>)
        requires
            self.wf(),
            self.spec_lob_type() == YacTempLobType::Clob ==> database_ratio is Some,
        ensures
            self.spec_lob_type() == YacTempLobType::NClob ==> result == Ok::<u64, Error>(4),
            self.spec_lob_type() == YacTempLobType::Clob ==> match database_ratio {
                Some(Ok(r)) => result == Ok::<u64, Error>(if r == 0 {
                    1u64
                } else {
                    r as u64
                }),
                Some(Err(e)) => result == Err::<u64, Error>(e),
                None => false,
            },
            result matches Ok(r) ==> r >= 1,
    {
        match self.lob_type {
            YacTempLobType::Clob => match database_ratio {
                Some(Ok(r)) => Ok(if r == 0 {
                    1
                } else {
                    r as u64
                }),
                Some(Err(e)) => Err(e),
                None => Err(Error::Internal("missing database character set ratio".to_owned())),
            },
            _ => Ok(NCLOB_CHARSET_RATIO),
        }
    }

    /// Plan a read of up to `max_chars` characters from a one-based
    /// character offset, with `ratio` bytes per character: `Ok(None)` when
    /// `max_chars` is zero, an error when the byte size cannot fit in memory.
    pub fn read_at(&self, offset: u64, max_chars: u64, ratio: u64) -> (result: Result<Option<LobIo>, Error>)
        requires
            ratio >= 1,
        ensures
            offset == 0 ==> (result matches Err(e) && offset_error(e)),
            offset != 0 && max_chars == 0 ==> result == Ok::<Option<LobIo>, Error>(None),
            offset != 0 && max_chars != 0 && !addressable(max_chars * ratio) ==> result == Err::<
                Option<LobIo>,
                Error,
            >(Error::LobTooLarge { length: max_chars }),
            offset != 0 && max_chars != 0 && addressable(max_chars * ratio) ==> result == Ok::<
                Option<LobIo>,
                Error,
            >(Some(LobIo { offset, byte_size: (max_chars * ratio) as u64, char_size: max_chars })),
    {
        if offset == 0 {
            return Err(offset_must_start_at_one());
        }
        if max_chars == 0 {
            return Ok(None);
        }
        match max_chars.checked_mul(ratio) {
            Some(bytes) => {
                if bytes > isize::MAX as u64 {
                    Err(Error::LobTooLarge { length: max_chars })
                } else {
                    Ok(Some(LobIo { offset, byte_size: bytes, char_size: max_chars }))
                }
            },
            None => Err(Error::LobTooLarge { length: max_chars }),
        }
    }

    /// Plan a write of UTF-8 text at a one-based character offset: the byte
    /// and character counts of `value`.
    pub fn write_at(&self, offset: u64, value: &str) -> (result: Result<LobIo, Error>)
        ensures
            offset == 0 ==> (result matches Err(e) && offset_error(e)),
            offset != 0 ==> result == Ok::<LobIo, Error>(
                LobIo { offset, byte_size: value.len() as u64, char_size: value@.len() as u64 },
            ),
    {
        if offset == 0 {
            return Err(offset_must_start_at_one());
        }
        Ok(LobIo { offset, byte_size: value.len() as u64, char_size: value.unicode_len() as u64 })
    }

    /// Plan an append of UTF-8 text: its byte and character counts.
    pub fn append(&self, value: &str) -> (result: LobIo)
        ensures
            result == (LobIo { offset: 0, byte_size: value.len() as u64, char_size: value@.len() as u64 }),
    {
        LobIo { offset: 0, byte_size: value.len() as u64, char_size: value.unicode_len() as u64 }
    }

    /// Start reading the complete text LOB of `length` characters, with
    /// `ratio` bytes per character and a client chunk size of `chunk_size`
    /// bytes. Returns the reader and the number of bytes to reserve in the
    /// output; a LOB that cannot fit in memory is rejected.
    pub fn read_to_string(&self, length: u64, ratio: u64, chunk_size: usize) -> (result: Result<(ClobReader, usize), Error>)
        requires
            ratio >= 1,
        ensures
            !addressable(length * ratio) ==> result == Err::<(ClobReader, usize), Error>(
                Error::LobTooLarge { length },
            ),
            addressable(length * ratio) ==> (result matches Ok((r, reserve)) && reserve == length
                * ratio && r.spec_length() == length && r.spec_offset() == 1 && r.spec_chunk_chars()
                == (if (chunk_size as u64) / ratio == 0 {
                1
            } else {
                (chunk_size as u64) / ratio
            }) && !r.spec_done()),
    {
        let bytes = match length.checked_mul(ratio) {
            Some(b) => b,
            None => {
                return Err(Error::LobTooLarge { length });
            },
        };
        if bytes > isize::MAX as u64 {
            return Err(Error::LobTooLarge { length });
        }
        let per_chunk = chunk_size as u64 / ratio;
        let chunk_chars = if per_chunk == 0 {
            1
        } else {
            per_chunk
        };
        Ok((ClobReader { length, chunk_chars, offset: 1, done: false }, bytes as usize))
    }
}

/// Reading a whole text LOB chunk by chunk: reads start at character 1 and
/// continue at the next unread character until the length is passed or the
/// client returns no characters.
#[derive(Debug)]
pub struct ClobReader {
    length: u64,
    chunk_chars: u64,
    offset: u64,
    done: bool,
}

impl ClobReader {
    /// Total characters.
    pub closed spec fn spec_length(&self) -> u64 {
        self.length
    }

    /// Characters requested per read.
    pub closed spec fn spec_chunk_chars(&self) -> u64 {
        self.chunk_chars
    }

    /// One-based offset of the next read.
    pub closed spec fn spec_offset(&self) -> u64 {
        self.offset
    }

    /// Whether reading stopped.
    pub closed spec fn spec_done(&self) -> bool {
        self.done
    }

    /// The next read: one-based character offset and maximum characters, or
    /// `None` when reading is over.
    pub fn next(&self) -> (result: Option<(u64, u64)>)
        ensures
            (self.spec_done() || self.spec_offset() > self.spec_length()) ==> result is None,
            !(self.spec_done() || self.spec_offset() > self.spec_length()) ==> result == Some(
                (self.spec_offset(), self.spec_chunk_chars()),
            ),
    {
        if self.done || self.offset > self.length {
            None
        } else {
            Some((self.offset, self.chunk_chars))
        }
    }

    /// Record that the last read returned `count` characters.
    pub fn advance(&mut self, count: u64)
        ensures
            final(self).spec_length() == old(self).spec_length(),
            final(self).spec_chunk_chars() == old(self).spec_chunk_chars(),
            count == 0 ==> final(self).spec_done() && final(self).spec_offset() == old(
                self,
            ).spec_offset(),
            count != 0 && old(self).spec_offset() + count <= u64::MAX ==> final(self).spec_offset()
                == old(self).spec_offset() + count && final(self).spec_done() == old(self).spec_done(),
            count != 0 && old(self).spec_offset() + count > u64::MAX ==> final(self).spec_done()
                && final(self).spec_offset() == old(self).spec_offset(),
    {
        if count == 0 {
            self.done = true;
        } else {
            match self.offset.checked_add(count) {
                Some(next) => {
                    self.offset = next;
                },
                None => {
                    self.done = true;
                },
            }
        }
    }
}

} // verus!
