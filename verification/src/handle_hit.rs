use crate::error::{CacheError, CacheErrorView, ErrorType};
use crate::metrics::{counter_sum, CacheMetrics};
use crate::text::{decimal, decimal_string};
use vstd::prelude::*;
use vstd::string::StringExecFns;

verus! {

/// What a hit handler needs from the file before it can answer `read_body`.
#[derive(Clone, Copy, Debug, PartialEq, Eq, Structural)]
pub enum ReadAction {
    /// Move the file's cursor to this offset from the start.
    Seek(u64),
    /// Read at most this many bytes at the cursor.
    Read(usize),
    /// Nothing: the range is exhausted.
    EndOfStream,
}

/// A streaming reader over the body of a cached object. It serves the bytes
/// `range_start..range_end` of a body of `total_len` bytes, in chunks.
///
/// `seek` only records the range asked for; the file is moved when the next
/// `read_body` is served.
#[derive(Clone, Copy, Debug, PartialEq, Eq, Structural)]
pub struct DiskHitHandler {
    pub total_len: u64,
    pub range_start: u64,
    pub range_end: u64,
    /// Offset of the next byte to read; stale while a seek is pending.
    pub pos: u64,
    /// Whether the file still has to be moved to `range_start`.
    pub pending_seek: bool,
    /// Largest number of bytes read at once.
    pub chunk: usize,
}

/// The explanation of a refused `seek` whose end lies beyond the body.
pub open spec fn seek_end_context(end: nat, total_len: nat) -> Seq<char> {
    "seek end > length: "@ + decimal(end) + " > "@ + decimal(total_len)
}

/// The explanation of a refused `seek` whose start lies beyond its end.
pub open spec fn seek_start_context(start: nat, end: nat) -> Seq<char> {
    "seek start > end: "@ + decimal(start) + " > "@ + decimal(end)
}

impl DiskHitHandler {
    /// The number of bytes to ask for next, given that some are left.
    pub open spec fn next_len(self) -> int {
        if self.chunk <= self.range_end - self.pos {
            self.chunk as int
        } else {
            self.range_end - self.pos
        }
    }

    /// What `read_body` needs next.
    pub open spec fn next_read(self) -> ReadAction {
        if self.pending_seek {
            ReadAction::Seek(self.range_start)
        } else if self.pos >= self.range_end {
            ReadAction::EndOfStream
        } else {
            ReadAction::Read(self.next_len() as usize)
        }
    }

    /// The handler once the file has been moved to the start of the range.
    pub open spec fn after_seek(self) -> DiskHitHandler {
        DiskHitHandler { pos: self.range_start, pending_seek: false, ..self }
    }

    /// The handler once a read has returned `n` bytes: none means that the
    /// file has ended, so the range counts as exhausted.
    pub open spec fn after_read(self, n: nat) -> DiskHitHandler {
        if n == 0 {
            DiskHitHandler { pos: self.range_end, ..self }
        } else {
            DiskHitHandler { pos: (self.pos + n) as u64, ..self }
        }
    }

    /// The end that a `seek` asks for: the one given, else the end of the
    /// body.
    pub open spec fn seek_end(self, end: Option<usize>) -> nat {
        match end {
            Some(e) => e as nat,
            None => self.total_len as nat,
        }
    }

    /// Whether a `seek` is accepted: `start <= end <= total_len`.
    pub open spec fn seek_accepted(self, start: usize, end: Option<usize>) -> bool {
        start <= self.seek_end(end) <= self.total_len
    }

    /// The failure with which a `seek` is refused: an end beyond the body is
    /// named first, a start beyond the end otherwise.
    pub open spec fn seek_refusal(self, start: usize, end: Option<usize>) -> CacheErrorView {
        CacheErrorView {
            etype: ErrorType::InternalError,
            context: if self.seek_end(end) > self.total_len {
                seek_end_context(self.seek_end(end), self.total_len as nat)
            } else {
                seek_start_context(start as nat, self.seek_end(end))
            },
            retry: false,
        }
    }

    /// The handler once a `seek` is accepted.
    pub open spec fn after_seek_request(self, start: usize, end: Option<usize>) -> DiskHitHandler {
        DiskHitHandler {
            range_start: start as u64,
            range_end: self.seek_end(end) as u64,
            pending_seek: true,
            ..self
        }
    }

    /// A handler over a whole body of `total_len` bytes, read in chunks of at
    /// most `chunk` bytes. No seek is pending.
    pub fn new(total_len: u64, chunk: usize) -> (h: DiskHitHandler)
        ensures
            h == (DiskHitHandler {
                total_len,
                range_start: 0,
                range_end: total_len,
                pos: 0,
                pending_seek: false,
                chunk,
            }),
    {
        DiskHitHandler {
            total_len,
            range_start: 0,
            range_end: total_len,
            pos: 0,
            pending_seek: false,
            chunk,
        }
    }

    /// What the file must do before the next chunk can be handed out: a
    /// pending seek first, then a read of at most `chunk` bytes and no more
    /// than what is left of the range; nothing once the range is exhausted.
    pub fn read_body(&self) -> (r: ReadAction)
        ensures
            r == self.next_read(),
    {
        if self.pending_seek {
            ReadAction::Seek(self.range_start)
        } else if self.pos >= self.range_end {
            ReadAction::EndOfStream
        } else {
            let left: u64 = self.range_end - self.pos;
            if self.chunk as u64 <= left {
                ReadAction::Read(self.chunk)
            } else {
                ReadAction::Read(left as usize)
            }
        }
    }

    /// Takes the outcome of the seek that `read_body` asked for. A failed
    /// seek is an `InternalError` and leaves the seek pending.
    pub fn seek_done(&mut self, outcome: Result<(), String>) -> (r: Result<(), CacheError>)
        ensures
            match outcome {
                Ok(()) => r is Ok && *final(self) == old(self).after_seek(),
                Err(e) => *final(self) == *old(self) && (r matches Err(err) && err@ == (
                CacheErrorView {
                    etype: ErrorType::InternalError,
                    context: "seek failed: "@ + e@,
                    retry: false,
                })),
            },
    {
        match outcome {
            Ok(()) => {
                self.pos = self.range_start;
                self.pending_seek = false;
                Ok(())
            },
            Err(e) => {
                let mut context = "seek failed: ".to_owned();
                context.append(e.as_str());
                Err(CacheError::internal(context))
            },
        }
    }

    /// Takes the outcome of the read that `read_body` asked for and hands
    /// out the chunk: exactly the bytes read. A read of no bytes means that
    /// the file has ended: the range is exhausted and no chunk is handed
    /// out. A failed read is an `InternalError`.
    pub fn read_done(&mut self, outcome: Result<Vec<u8>, String>) -> (r: Result<
        Option<Vec<u8>>,
        CacheError,
    >)
        requires
            old(self).next_read() is Read,
            outcome matches Ok(data) ==> data@.len() <= old(self).next_len(),
        ensures
            match outcome {
                Ok(data) => {
                    &&& *final(self) == old(self).after_read(data@.len())
                    &&& data@.len() == 0 ==> r == Ok::<Option<Vec<u8>>, CacheError>(None)
                    &&& data@.len() > 0 ==> r == Ok::<Option<Vec<u8>>, CacheError>(Some(data))
                },
                Err(e) => *final(self) == *old(self) && (r matches Err(err) && err@ == (
                CacheErrorView {
                    etype: ErrorType::InternalError,
                    context: "read of cache file failed: "@ + e@,
                    retry: false,
                })),
            },
    {
        match outcome {
            Ok(data) => {
                let n: usize = data.len();
                if n == 0 {
                    self.pos = self.range_end;
                    Ok(None)
                } else {
                    self.pos = self.pos + n as u64;
                    Ok(Some(data))
                }
            },
            Err(e) => {
                let mut context = "read of cache file failed: ".to_owned();
                context.append(e.as_str());
                Err(CacheError::internal(context))
            },
        }
    }

    /// Counts the hit as served and releases the handler.
    pub fn finish(self, metrics: &mut CacheMetrics)
        ensures
            *final(metrics) == (CacheMetrics {
                served_hits: counter_sum(old(metrics).served_hits, 1),
                ..*old(metrics)
            }),
    {
        metrics.record_served_hit();
    }

    /// Range reads are always supported.
    pub fn can_seek(&self) -> (r: bool)
        ensures
            r,
    {
        true
    }

    /// Asks for the bytes `start..end` of the body, `end` being the end of
    /// the body where none is given. The range must lie within the body and
    /// must not be reversed; otherwise the request is refused with an
    /// `InternalError` and nothing changes. The file itself is moved by the
    /// next `read_body`.
    pub fn seek(&mut self, start: usize, end: Option<usize>) -> (r: Result<(), CacheError>)
        ensures
            old(self).seek_accepted(start, end) ==> r is Ok && *final(self) == old(
                self,
            ).after_seek_request(start, end),
            !old(self).seek_accepted(start, end) ==> (r matches Err(err) && err@ == old(
                self,
            ).seek_refusal(start, end)),
            !old(self).seek_accepted(start, end) ==> *final(self) == *old(self),
    {
        let end: u64 = match end {
            Some(e) => {
                if e as u64 > self.total_len {
                    let mut context = "seek end > length: ".to_owned();
                    context.append(decimal_string(e as u128).as_str());
                    context.append(" > ");
                    context.append(decimal_string(self.total_len as u128).as_str());
                    return Err(CacheError::internal(context));
                }
                e as u64
            },
            None => self.total_len,
        };
        if start as u64 > end {
            let mut context = "seek start > end: ".to_owned();
            context.append(decimal_string(start as u128).as_str());
            context.append(" > ");
            context.append(decimal_string(end as u128).as_str());
            return Err(CacheError::internal(context));
        }
        self.range_start = start as u64;
        self.range_end = end;
        self.pending_seek = true;
        Ok(())
    }

    /// The weight of the object for eviction: the length of its body, or the
    /// largest `usize` where the length does not fit.
    pub fn get_eviction_weight(&self) -> (r: usize)
        ensures
            r == (if self.total_len <= usize::MAX {
                self.total_len as int
            } else {
                usize::MAX as int
            }),
    {
        if self.total_len > usize::MAX as u64 {
            usize::MAX
        } else {
            self.total_len as usize
        }
    }
}

/// The bytes that a file holding `content` gives to a read of at most `len`
/// bytes at offset `pos`, when nothing goes wrong: as many as are asked for,
/// or as are left.
pub open spec fn file_read(content: Seq<u8>, pos: int, len: int) -> Seq<u8> {
    if 0 <= pos <= content.len() && 0 <= len {
        content.subrange(
            pos,
            if pos + len <= content.len() {
                pos + len
            } else {
                content.len() as int
            },
        )
    } else {
        Seq::empty()
    }
}

impl DiskHitHandler {
    /// The handler with its pending seek, if any, carried out.
    pub open spec fn settled(self) -> DiskHitHandler {
        if self.pending_seek {
            self.after_seek()
        } else {
            self
        }
    }

    /// All the bytes that the handler hands out, chunk after chunk, until it
    /// reports the end of the stream, over a file that holds `content` and
    /// never fails.
    pub open spec fn drained(self, content: Seq<u8>) -> Seq<u8>
        decreases self.range_end - self.pos,
    {
        if !self.pending_seek && self.pos < self.range_end {
            let data = file_read(content, self.pos as int, self.next_len());
            if 0 < data.len() <= self.next_len() {
                data + self.after_read(data.len()).drained(content)
            } else {
                Seq::empty()
            }
        } else {
            Seq::empty()
        }
    }
}

/// Reading a handler to its end hands out exactly the bytes of its range
/// that are still ahead, in order and without gaps, whatever the size of
/// the chunks.
pub proof fn law_drain_yields_range(h: DiskHitHandler, content: Seq<u8>)
    requires
        !h.pending_seek,
        h.pos <= h.range_end <= content.len(),
        h.chunk > 0,
    ensures
        h.drained(content) == content.subrange(h.pos as int, h.range_end as int),
    decreases h.range_end - h.pos,
{
    if h.pos < h.range_end {
        let data = file_read(content, h.pos as int, h.next_len());
        assert(data.len() == h.next_len());
        let next = h.after_read(data.len());
        law_drain_yields_range(next, content);
        assert(data + content.subrange(next.pos as int, h.range_end as int) =~= content.subrange(
            h.pos as int,
            h.range_end as int,
        ));
    } else {
        assert(content.subrange(h.pos as int, h.range_end as int) =~= Seq::<u8>::empty());
    }
}

/// After an accepted `seek` the handler hands out exactly the bytes
/// `start..end` of the body.
pub proof fn law_seek_then_drain(
    h: DiskHitHandler,
    start: usize,
    end: Option<usize>,
    content: Seq<u8>,
)
    requires
        h.seek_accepted(start, end),
        h.total_len == content.len(),
        h.chunk > 0,
    ensures
        h.after_seek_request(start, end).next_read() == ReadAction::Seek(start as u64),
        h.after_seek_request(start, end).settled().drained(content) == content.subrange(
            start as int,
            h.seek_end(end) as int,
        ),
{
    law_drain_yields_range(h.after_seek_request(start, end).settled(), content);
}

/// A `seek` to the very end of the body is accepted, and the next
/// `read_body`, once the file is moved, reports the end of the stream.
pub proof fn law_seek_to_end_is_empty(h: DiskHitHandler)
    requires
        h.total_len <= usize::MAX,
    ensures
        h.seek_accepted(h.total_len as usize, None),
        h.after_seek_request(h.total_len as usize, None).next_read() == ReadAction::Seek(
            h.total_len,
        ),
        h.after_seek_request(h.total_len as usize, None).after_seek().next_read()
            == ReadAction::EndOfStream,
{
}

} // verus!
