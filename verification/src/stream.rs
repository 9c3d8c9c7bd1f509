//! The streaming receivers: bounded-memory delivery of a large payload to a
//! sink through a fixed-size buffer, in the two mutually exclusive wire
//! shapes a revision can select.
//!
//! Single-length mode announces one total up front; the receiver then asks
//! for fixed-size blocks, the last one cut to the exact remainder, and never
//! past the declared total. Chunked mode frames every chunk with a fresh
//! response header and a remaining-total/chunk-length pair; each header is
//! validated before its bytes are consumed, and the stream ends exactly when
//! the remaining total equals the chunk's own length.
//!
//! The receivers hold no payload bytes: the caller reads each block and
//! passes it through, and a ghost sequence records what has been handed to
//! the sink, in order.

use vstd::prelude::*;

use crate::codec::{spec_be_u32, spec_be_u64, spec_response_status, parse_response, read_u32_be, read_u64_be, FRAME_LEN};
use crate::protocol::{Revision, Status};

verus! {

/// Size in bytes of the fixed I/O buffer used for streamed payloads.
pub const BLOCK_SIZE: usize = 32768;

/// Length in bytes of a chunk's remaining-total/chunk-length pair.
pub const CHUNK_META_LEN: usize = 12;

/// Number of block reads a single-length transfer of `n` bytes takes:
/// `n / BLOCK_SIZE` rounded up.
pub open spec fn spec_reads_for(n: u64) -> int {
    (n + BLOCK_SIZE - 1) / (BLOCK_SIZE as int)
}

/// Receiver for single-length mode: one 8-byte total, then exactly that many
/// bytes in blocks of at most `BLOCK_SIZE`, in order.
pub struct SingleReceiver {
    /// The declared total, fixed at construction.
    pub total: u64,
    /// Bytes accepted so far; never exceeds `total`.
    pub received: u64,
    /// Block reads performed so far.
    pub reads: u64,
    /// Everything handed to the sink, in stream order.
    pub written: Ghost<Seq<u8>>,
}

impl SingleReceiver {
    /// All but the last block are full, so the block count is determined:
    /// before the end it is exactly the full blocks seen, and at the end it
    /// is the rounded-up total.
    pub open spec fn wf(&self) -> bool {
        &&& self.received <= self.total
        &&& self.written@.len() == self.received
        &&& self.received < self.total ==> self.received == self.reads * (BLOCK_SIZE as int)
        &&& self.received == self.total ==> self.reads == spec_reads_for(self.total)
    }

    /// True when every declared byte has been accepted.
    pub open spec fn spec_done(&self) -> bool {
        self.received == self.total
    }

    /// Size of the next block to read: a full buffer, or the exact remainder
    /// when less than a buffer is left. Zero only when done.
    pub open spec fn spec_next_len(&self) -> int {
        if self.total - self.received < BLOCK_SIZE {
            self.total - self.received
        } else {
            BLOCK_SIZE as int
        }
    }

    /// A fresh receiver for a declared total.
    pub fn new(total: u64) -> (r: SingleReceiver)
        ensures
            r.wf(),
            r.total == total,
            r.received == 0,
            r.reads == 0,
            r.written@ == Seq::<u8>::empty(),
    {
        SingleReceiver { total, received: 0, reads: 0, written: Ghost(Seq::empty()) }
    }

    /// True when every declared byte has been accepted.
    pub fn done(&self) -> (r: bool)
        ensures
            r == self.spec_done(),
    {
        self.received == self.total
    }

    /// How many bytes the caller must read next; never past the declared
    /// total and never more than one buffer.
    pub fn next_read_len(&self) -> (n: usize)
        requires
            self.wf(),
        ensures
            n == self.spec_next_len(),
            self.spec_done() ==> n == 0,
            !self.spec_done() ==> 1 <= n <= BLOCK_SIZE,
    {
        let rem = self.total - self.received;
        if rem < BLOCK_SIZE as u64 {
            rem as usize
        } else {
            BLOCK_SIZE
        }
    }

    /// Accepts the next block, exactly the size `next_read_len` asked for,
    /// as one more read appended to the sink in stream order.
    pub fn accept(&mut self, block: &Vec<u8>)
        requires
            old(self).wf(),
            !old(self).spec_done(),
            block@.len() == old(self).spec_next_len(),
        ensures
            final(self).wf(),
            final(self).total == old(self).total,
            final(self).received == old(self).received + block@.len(),
            final(self).reads == old(self).reads + 1,
            final(self).written@ == old(self).written@ + block@,
            final(self).spec_done() <==> old(self).received + block@.len() == old(self).total,
    {
        let len = block.len() as u64;
        proof {
            if self.received < self.total {
                // the read count stays bounded by the bytes seen
                assert(self.reads * (BLOCK_SIZE as int) >= self.reads);
            }
        }
        self.received = self.received + len;
        self.reads = self.reads + 1;
        self.written = Ghost(self.written@ + block@);
        proof {
            if self.received == self.total {
                // total == (reads - 1) * BLOCK_SIZE + len with 1 <= len <= BLOCK_SIZE,
                // so total + BLOCK_SIZE - 1 = reads * BLOCK_SIZE + (len - 1)
                let b = BLOCK_SIZE as int;
                let q = old(self).reads as int;
                let l = len as int;
                assert(self.total == q * b + l);
                assert(self.total + b - 1 == (q + 1) * b + (l - 1)) by (nonlinear_arith)
                    requires
                        self.total == q * b + l,
                        b == BLOCK_SIZE,
                ;
                vstd::arithmetic::div_mod::lemma_fundamental_div_mod_converse(
                    self.total + b - 1,
                    b,
                    q + 1,
                    l - 1,
                );
            }
        }
    }
}

/// Exact read count and sink size of a completed single-length transfer: a
/// receiver that has reached its declared total `n` has performed exactly
/// `n / BLOCK_SIZE` rounded-up block reads — none at all when `n` is 0 — and
/// has handed the sink exactly `n` bytes, in stream order.
pub proof fn lemma_single_length_read_count(r: SingleReceiver)
    requires
        r.wf(),
        r.spec_done(),
    ensures
        r.reads == spec_reads_for(r.total),
        r.written@.len() == r.total,
        r.total == 0 ==> r.reads == 0,
{
}

/// Why a chunked transfer was aborted mid-stream. Bytes already written to
/// the sink stay written; the receiver only stops consuming.
#[derive(Copy, Clone, Debug, PartialEq, Eq, Structural)]
pub enum StreamFailure {
    /// A chunk's frame header was not the expected magic/version pair.
    Framing,
    /// A chunk's frame carried a status other than the game-payload code.
    WrongStatus(Status),
    /// A chunk's length fields contradict each other or the running total.
    MalformedChunk,
}

/// What a chunked-mode receiver expects next.
#[derive(Copy, Clone, Debug, PartialEq, Eq, Structural)]
pub enum ChunkState {
    /// A fresh 15-byte response frame, validated before the chunk is read.
    AwaitFrame,
    /// The 12-byte remaining-total/chunk-length pair.
    AwaitMeta,
    /// Chunk bytes: (remaining total, chunk length, bytes of it got so far).
    AwaitData(u64, u32, u32),
    /// The stream ended: a chunk's remaining total equalled its own length.
    Done,
    /// The transfer was aborted.
    Failed(StreamFailure),
}

/// Receiver for chunked mode. The first chunk's response frame is the one
/// that announced the game payload, already validated by the dispatcher, so
/// a fresh receiver starts at the chunk's meta pair; every later chunk is
/// preceded by its own frame, validated here.
pub struct ChunkedReceiver {
    /// The revision whose header every chunk frame must carry.
    pub rev: Revision,
    /// What is expected next.
    pub state: ChunkState,
    /// The remaining total the next chunk must announce: `None` before the
    /// first chunk (its announcement defines the total), then the running
    /// remainder.
    pub expected: Option<u64>,
    /// Chunks fully consumed so far.
    pub chunks: Ghost<int>,
    /// Everything handed to the sink, in stream order.
    pub written: Ghost<Seq<u8>>,
}

impl ChunkedReceiver {
    /// A chunk in progress never claims more than the remaining total and
    /// never reads past its own declared length.
    pub open spec fn wf(&self) -> bool {
        match self.state {
            ChunkState::AwaitData(rem, len, got) => got < len && len <= rem,
            _ => true,
        }
    }

    /// A fresh receiver, right after the dispatcher validated the response
    /// frame that announced the game payload.
    pub fn new(rev: Revision) -> (r: ChunkedReceiver)
        ensures
            r.wf(),
            r.rev == rev,
            r.state == ChunkState::AwaitMeta,
            r.expected is None,
            r.chunks@ == 0,
            r.written@ == Seq::<u8>::empty(),
    {
        ChunkedReceiver {
            rev,
            state: ChunkState::AwaitMeta,
            expected: None,
            chunks: Ghost(0),
            written: Ghost(Seq::empty()),
        }
    }

    /// How many bytes the caller must read next: 0 when the stream is over
    /// or aborted, otherwise the next frame, meta pair, or data block, the
    /// latter never more than one buffer and never past the chunk's length.
    pub fn next_read_len(&self) -> (n: usize)
        requires
            self.wf(),
        ensures
            self.state is AwaitFrame ==> n == FRAME_LEN,
            self.state is AwaitMeta ==> n == CHUNK_META_LEN,
            self.state matches ChunkState::AwaitData(_, len, got) ==> n == (
                if len - got < BLOCK_SIZE {
                    (len - got) as int
                } else {
                    BLOCK_SIZE as int
                }),
            self.state is Done || self.state is Failed ==> n == 0,
            n <= BLOCK_SIZE,
    {
        match self.state {
            ChunkState::AwaitFrame => FRAME_LEN,
            ChunkState::AwaitMeta => CHUNK_META_LEN,
            ChunkState::AwaitData(_, len, got) => {
                let left = len - got;
                if (left as usize) < BLOCK_SIZE {
                    left as usize
                } else {
                    BLOCK_SIZE
                }
            },
            ChunkState::Done => 0,
            ChunkState::Failed(_) => 0,
        }
    }

    /// Validates the fresh response frame before a chunk: the expected
    /// header byte for byte, and the game-payload status. A bad header or a
    /// wrong status aborts the transfer without touching what was written.
    pub fn accept_frame(&mut self, frame: &Vec<u8>)
        requires
            old(self).wf(),
            old(self).state is AwaitFrame,
            frame@.len() == FRAME_LEN,
        ensures
            final(self).wf(),
            final(self).rev == old(self).rev,
            final(self).expected == old(self).expected,
            final(self).chunks == old(self).chunks,
            final(self).written == old(self).written,
            final(self).state == match spec_response_status(old(self).rev, frame@) {
                Option::<Status>::None => ChunkState::Failed(StreamFailure::Framing),
                Some(Status::Game) => ChunkState::AwaitMeta,
                Some(st) => ChunkState::Failed(StreamFailure::WrongStatus(st)),
            },
    {
        self.state = match parse_response(self.rev, frame) {
            None => ChunkState::Failed(StreamFailure::Framing),
            Some(Status::Game) => ChunkState::AwaitMeta,
            Some(st) => ChunkState::Failed(StreamFailure::WrongStatus(st)),
        };
    }

    /// Takes a chunk's remaining-total/chunk-length pair, both big-endian. A
    /// chunk that claims more than the remaining total, or a remaining total
    /// that contradicts the running remainder, is malformed and aborts the
    /// transfer. A zero-length terminal chunk completes the stream at once.
    pub fn accept_meta(&mut self, meta: &Vec<u8>)
        requires
            old(self).wf(),
            old(self).state is AwaitMeta,
            meta@.len() == CHUNK_META_LEN,
        ensures
            final(self).wf(),
            final(self).rev == old(self).rev,
            final(self).written == old(self).written,
            ({
                let rem = spec_be_u64(meta@.subrange(0, 8)) as u64;
                let len = spec_be_u32(meta@.subrange(8, 12)) as u32;
                if (old(self).expected matches Some(e) && e != rem) || len > rem {
                    &&& final(self).state == ChunkState::Failed(StreamFailure::MalformedChunk)
                    &&& final(self).chunks == old(self).chunks
                    &&& final(self).expected == old(self).expected
                } else if len == 0 {
                    &&& final(self).chunks@ == old(self).chunks@ + 1
                    &&& (final(self).state == ChunkState::Done <==> rem == len)
                    &&& rem != len ==> final(self).state == ChunkState::AwaitFrame
                        && final(self).expected == Some(rem)
                } else {
                    &&& final(self).state == ChunkState::AwaitData(rem, len, 0)
                    &&& final(self).chunks == old(self).chunks
                    &&& final(self).expected == old(self).expected
                }
            }),
    {
        let rem = read_u64_be(meta, 0);
        let len = read_u32_be(meta, 8);
        let consistent = match self.expected {
            Some(e) => e == rem,
            None => true,
        };
        if !consistent || (len as u64) > rem {
            self.state = ChunkState::Failed(StreamFailure::MalformedChunk);
        } else if len == 0 {
            self.chunks = Ghost(self.chunks@ + 1);
            if rem == 0 {
                self.state = ChunkState::Done;
            } else {
                self.state = ChunkState::AwaitFrame;
                self.expected = Some(rem);
            }
        } else {
            self.state = ChunkState::AwaitData(rem, len, 0);
        }
    }

    /// Accepts the next block of the current chunk, exactly the size
    /// `next_read_len` asked for, appended to the sink in stream order. When
    /// the block completes the chunk, the stream is over exactly when the
    /// chunk's remaining total equalled its own length; otherwise the next
    /// chunk's frame follows and the running remainder shrinks by the chunk.
    pub fn accept_data(&mut self, block: &Vec<u8>)
        requires
            old(self).wf(),
            old(self).state matches ChunkState::AwaitData(rem, len, got) && block@.len() == (
                if len - got < BLOCK_SIZE {
                    (len - got) as int
                } else {
                    BLOCK_SIZE as int
                }),
        ensures
            final(self).wf(),
            final(self).rev == old(self).rev,
            final(self).written@ == old(self).written@ + block@,
            ({
                let rem = old(self).state->AwaitData_0;
                let len = old(self).state->AwaitData_1;
                let got = old(self).state->AwaitData_2;
                let done_chunk = got + block@.len() == len;
                if done_chunk {
                    &&& final(self).chunks@ == old(self).chunks@ + 1
                    &&& (final(self).state == ChunkState::Done <==> rem == len)
                    &&& rem != len ==> final(self).state == ChunkState::AwaitFrame
                        && final(self).expected == Some((rem - len) as u64)
                } else {
                    &&& final(self).state == ChunkState::AwaitData(
                        rem,
                        len,
                        (got + block@.len()) as u32,
                    )
                    &&& final(self).chunks == old(self).chunks
                    &&& final(self).expected == old(self).expected
                }
            }),
    {
        let (rem, len, got) = match self.state {
            ChunkState::AwaitData(r, l, g) => (r, l, g),
            _ => {
                proof {
                    assert(false);
                }
                (0u64, 0u32, 0u32)
            },
        };
        self.written = Ghost(self.written@ + block@);
        let new_got = got + block.len() as u32;
        if new_got == len {
            self.chunks = Ghost(self.chunks@ + 1);
            if (len as u64) == rem {
                self.state = ChunkState::Done;
            } else {
                self.state = ChunkState::AwaitFrame;
                self.expected = Some(rem - (len as u64));
            }
        } else {
            self.state = ChunkState::AwaitData(rem, len, new_got);
        }
    }

    /// True when the stream completed normally.
    pub fn done(&self) -> (r: bool)
        ensures
            r == (self.state is Done),
    {
        matches!(self.state, ChunkState::Done)
    }

    /// The failure that aborted the transfer, if one did.
    pub fn failure(&self) -> (r: Option<StreamFailure>)
        ensures
            self.state matches ChunkState::Failed(f) ==> r == Some(f),
            !(self.state is Failed) ==> r is None,
    {
        match self.state {
            ChunkState::Failed(f) => Some(f),
            _ => None,
        }
    }
}

} // verus!
