//! The serial-console streaming writer and receiver bookkeeping.
//!
//! A write hands the SP its bytes in packet-sized chunks. Each chunk
//! advances a cursor by the bytes packed; the SP's ack then names its
//! cumulative accepted byte count, and the cursor is rewound by whatever
//! tail the SP did not accept. Throughout, the accepted offset plus the
//! bytes still to send equals the bytes originally given: when the
//! cursor empties, the offset has advanced by exactly the whole payload.

use crate::error::CommunicationError;
use vstd::prelude::*;

verus! {

/// Trailing-data bytes that fit in a single packet after the message
/// header.
pub const MIN_TRAILING_DATA_LEN: usize = 512;

/// A caller's payload with a position: the bytes at and after `pos` are
/// still to be sent.
#[derive(Clone, Debug)]
pub struct WriteCursor {
    pub data: Vec<u8>,
    pub pos: usize,
}

impl WriteCursor {
    pub open spec fn wf(self) -> bool {
        self.pos <= self.data@.len()
    }

    /// The bytes still to be sent.
    pub open spec fn remaining_view(self) -> Seq<u8> {
        self.data@.skip(self.pos as int)
    }

    pub fn new(data: Vec<u8>) -> (c: WriteCursor)
        ensures
            c.data@ == data@,
            c.pos == 0,
            c.wf(),
    {
        WriteCursor { data, pos: 0 }
    }

    /// How many bytes are still to be sent.
    pub fn remaining_len(&self) -> (n: usize)
        requires
            self.wf(),
        ensures
            n == self.remaining_view().len(),
    {
        self.data.len() - self.pos
    }

    pub fn is_empty(&self) -> (r: bool)
        requires
            self.wf(),
        ensures
            r == (self.remaining_view().len() == 0),
    {
        self.pos >= self.data.len()
    }

    /// Packs the next chunk: takes as many remaining bytes as fit in one
    /// packet's trailing-data region, advancing the cursor past them.
    pub fn pack_chunk(&mut self) -> (chunk: Vec<u8>)
        requires
            old(self).wf(),
        ensures
            final(self).wf(),
            final(self).data@ == old(self).data@,
            chunk@.len() == (if old(self).remaining_view().len() <= MIN_TRAILING_DATA_LEN {
                old(self).remaining_view().len() as int
            } else {
                MIN_TRAILING_DATA_LEN as int
            }),
            chunk@ == old(self).remaining_view().take(chunk@.len() as int),
            final(self).pos == old(self).pos + chunk@.len(),
    {
        let n: usize = if self.data.len() - self.pos <= MIN_TRAILING_DATA_LEN {
            self.data.len() - self.pos
        } else {
            MIN_TRAILING_DATA_LEN
        };
        let chunk = vstd::slice::slice_to_vec(
            vstd::slice::slice_subrange(self.data.as_slice(), self.pos, self.pos + n),
        );
        proof {
            assert(chunk@ =~= self.remaining_view().take(n as int));
        }
        self.pos = self.pos + n;
        chunk
    }

    /// Puts the unaccepted tail of the last chunk back.
    pub fn rewind(&mut self, n: usize)
        requires
            old(self).wf(),
            n <= old(self).pos,
        ensures
            final(self).wf(),
            final(self).data@ == old(self).data@,
            final(self).pos == old(self).pos - n,
    {
        self.pos = self.pos - n;
    }
}

/// The sending half of an attached serial console: the connection key and
/// the stream offset the SP has accepted up to.
#[derive(Clone, Copy, Debug, PartialEq, Eq, Structural)]
pub struct AttachedSerialConsoleSend {
    pub key: u64,
    pub tx_offset: u64,
}

impl AttachedSerialConsoleSend {
    /// Digests the SP's ack for one chunk of `data_sent` bytes: the ack's
    /// cumulative count `n` must fall in
    /// `[tx_offset, tx_offset + data_sent]`, the cursor is rewound by the
    /// unaccepted tail, and the offset advances to `n`.
    ///
    /// On success the accepted offset plus the remaining bytes is
    /// conserved: it equals what it was before the chunk was packed.
    pub fn write_ack(&mut self, cursor: &mut WriteCursor, data_sent: u64, n: u64) -> (r: Result<
        (),
        CommunicationError,
    >)
        requires
            old(cursor).wf(),
            data_sent <= old(cursor).pos,
            old(self).tx_offset + data_sent <= u64::MAX,
        ensures
            final(cursor).wf(),
            final(cursor).data@ == old(cursor).data@,
            if n < old(self).tx_offset || n - old(self).tx_offset > data_sent {
                &&& r == Err::<(), CommunicationError>(
                    CommunicationError::BogusSerialConsoleState,
                )
                &&& *final(self) == *old(self)
                &&& *final(cursor) == *old(cursor)
            } else {
                &&& r == Ok::<(), CommunicationError>(())
                &&& final(self).key == old(self).key
                &&& final(self).tx_offset == n
                &&& final(cursor).pos == old(cursor).pos - (data_sent - (n - old(
                    self,
                ).tx_offset))
                &&& final(self).tx_offset + final(cursor).remaining_view().len() == old(
                    self,
                ).tx_offset + old(cursor).remaining_view().len() + data_sent
            },
    {
        if n < self.tx_offset {
            return Err(CommunicationError::BogusSerialConsoleState);
        }
        let bytes_accepted = n - self.tx_offset;
        if bytes_accepted > data_sent {
            return Err(CommunicationError::BogusSerialConsoleState);
        }
        if bytes_accepted < data_sent {
            let rewind = data_sent - bytes_accepted;
            cursor.rewind(rewind as usize);
        }
        self.tx_offset = n;
        Ok(())
    }
}

/// The offset and remaining count left after a succession of write
/// steps, each accepting `k` of the bytes in flight.
pub open spec fn spec_apply_write_steps(tx_offset: int, remaining: int, accepted: Seq<int>) -> (
    int,
    int,
)
    decreases accepted.len(),
{
    if accepted.len() == 0 {
        (tx_offset, remaining)
    } else {
        spec_apply_write_steps(
            tx_offset + accepted[0],
            remaining - accepted[0],
            accepted.drop_first(),
        )
    }
}

/// Law: each write step moves bytes from "remaining" to "accepted" and
/// nothing else, so their sum never changes; in particular, once the
/// cursor is empty the offset has advanced by exactly the bytes given.
pub proof fn lemma_write_conservation(tx_offset: int, remaining: int, accepted: Seq<int>)
    ensures
        spec_apply_write_steps(tx_offset, remaining, accepted).0 + spec_apply_write_steps(
            tx_offset,
            remaining,
            accepted,
        ).1 == tx_offset + remaining,
    decreases accepted.len(),
{
    if accepted.len() > 0 {
        lemma_write_conservation(
            tx_offset + accepted[0],
            remaining - accepted[0],
            accepted.drop_first(),
        );
    }
}

/// The receiving half of an attached serial console: tracks the stream
/// offset to spot gaps from dropped packets.
#[derive(Clone, Copy, Debug, PartialEq, Eq, Structural)]
pub struct AttachedSerialConsoleRecv {
    pub rx_offset: u64,
}

impl AttachedSerialConsoleRecv {
    /// Digests one received packet; reports whether there was a gap (a
    /// dropped packet or buffer overrun), which the driver logs.
    pub fn recv(&mut self, offset: u64, len: u64) -> (gap: bool)
        requires
            offset + len <= u64::MAX,
        ensures
            gap == (offset != old(self).rx_offset),
            final(self).rx_offset == offset + len,
    {
        let gap = offset != self.rx_offset;
        self.rx_offset = offset + len;
        gap
    }
}

/// An attached serial console, ready to be split into its two halves.
#[derive(Clone, Copy, Debug, PartialEq, Eq, Structural)]
pub struct AttachedSerialConsole {
    pub key: u64,
}

impl AttachedSerialConsole {
    pub fn split(self) -> (r: (AttachedSerialConsoleSend, AttachedSerialConsoleRecv))
        ensures
            r.0 == (AttachedSerialConsoleSend { key: self.key, tx_offset: 0u64 }),
            r.1 == (AttachedSerialConsoleRecv { rx_offset: 0u64 }),
    {
        (
            AttachedSerialConsoleSend { key: self.key, tx_offset: 0 },
            AttachedSerialConsoleRecv { rx_offset: 0 },
        )
    }
}

} // verus!
