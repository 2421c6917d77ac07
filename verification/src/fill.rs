//! Filling a buffer of any length from a generator that hands out a bounded
//! number of bytes per transfer.
//!
//! The buffer is cut into consecutive chunks: as many full ones as fit, and
//! a last one for what is left. Each chunk is one transfer, and the first
//! transfer that does not bring its whole chunk ends the fill with an
//! error. Nothing is retried, and nothing is said of the bytes that earlier
//! transfers wrote.

use vstd::prelude::*;
use crate::error::JitterError;
use crate::handle::{RandJitterKernel, Transfer, MAX_RETURN_CHUNK_SIZE};

verus! {

/// The length of the chunk that begins at `offset` in a buffer of `total`
/// bytes; 0 where the buffer has ended.
pub open spec fn chunk_len(total: nat, offset: nat) -> nat {
    if offset >= total {
        0
    } else if total - offset > MAX_RETURN_CHUNK_SIZE {
        MAX_RETURN_CHUNK_SIZE as nat
    } else {
        (total - offset) as nat
    }
}

/// A fill as its caller sees it between two transfers.
pub enum FillStage {
    /// The chunk at `offset` of a buffer of `total` bytes is to be read
    /// from `descriptor`.
    Pending { descriptor: i32, total: nat, offset: nat },
    /// The fill is over.
    Finished { outcome: Result<(), JitterError> },
}

impl FillStage {
    /// The stage of a fill of `total` bytes through `descriptor` that has
    /// read everything before `offset`: done at the end of the buffer,
    /// refused where the descriptor is not live, and else waiting for the
    /// next chunk.
    pub open spec fn at(descriptor: i32, total: nat, offset: nat) -> FillStage {
        if offset >= total {
            FillStage::Finished { outcome: Ok(()) }
        } else if descriptor < 0 {
            FillStage::Finished {
                outcome: Err(JitterError::HandleNotOpen { descriptor }),
            }
        } else {
            FillStage::Pending { descriptor, total, offset }
        }
    }

    /// The stage that follows when the awaited transfer returns
    /// `returned`: the next chunk if the whole chunk came, and failure
    /// otherwise. A fill that is over stays as it is.
    pub open spec fn next(self, returned: int) -> FillStage {
        match self {
            FillStage::Pending { descriptor, total, offset } => if returned == chunk_len(
                total,
                offset,
            ) {
                FillStage::at(descriptor, total, offset + chunk_len(total, offset))
            } else {
                FillStage::Finished { outcome: Err(JitterError::TransferFailed) }
            },
            FillStage::Finished { outcome } => FillStage::Finished { outcome },
        }
    }
}

/// A fill that waits for one transfer to return.
#[derive(Debug)]
pub struct ChunkedFill<'a> {
    handle: &'a RandJitterKernel,
    total: usize,
    offset: usize,
    transfer: Transfer,
}

/// Where a fill stands after a transfer has returned.
#[derive(Debug)]
pub enum FillProgress<'a> {
    /// The transfer that `state` names is to be made.
    Pending { state: ChunkedFill<'a> },
    /// The fill is over.
    Finished { outcome: Result<(), JitterError> },
}

impl<'a> ChunkedFill<'a> {
    #[verifier::type_invariant]
    spec fn inv(self) -> bool {
        &&& self.handle.is_live()
        &&& self.offset < self.total
        &&& self.transfer.descriptor == self.handle.descriptor()
        &&& self.transfer.len == chunk_len(self.total as nat, self.offset as nat)
    }

    /// The length of the buffer that is being filled.
    pub closed spec fn total(self) -> nat {
        self.total as nat
    }

    /// The index in the buffer at which the awaited chunk begins.
    pub closed spec fn position(self) -> nat {
        self.offset as nat
    }

    /// The descriptor that is read from.
    pub closed spec fn descriptor(self) -> i32 {
        self.handle.descriptor()
    }

    /// The read that is awaited.
    pub closed spec fn awaited(self) -> Transfer {
        self.transfer
    }

    /// The index in the buffer at which the awaited chunk begins.
    pub fn offset(&self) -> (offset: usize)
        ensures
            offset == self.position(),
            offset < self.total(),
    {
        proof {
            use_type_invariant(self);
        }
        self.offset
    }

    /// The read that is awaited: of the whole chunk, which is never empty
    /// and never longer than the kernel allows or than the buffer still
    /// has room for.
    pub fn transfer(&self) -> (transfer: Transfer)
        ensures
            transfer == self.awaited(),
            transfer.descriptor == self.descriptor(),
            transfer.descriptor >= 0,
            transfer.len == chunk_len(self.total(), self.position()),
            1 <= transfer.len <= MAX_RETURN_CHUNK_SIZE,
            self.position() + transfer.len <= self.total(),
    {
        proof {
            use_type_invariant(self);
        }
        self.transfer
    }

    /// Takes what the awaited transfer returned, the count of bytes or a
    /// negative number, and decides what follows.
    pub fn advance(self, returned: isize) -> (progress: FillProgress<'a>)
        ensures
            progress.stage() == (FillStage::Pending {
                descriptor: self.descriptor(),
                total: self.total(),
                offset: self.position(),
            }).next(returned as int),
    {
        proof {
            use_type_invariant(&self);
        }
        match self.transfer.complete(returned) {
            Ok(()) => issue(self.handle, self.total, self.offset + self.transfer.len),
            Err(e) => FillProgress::Finished { outcome: Err(e) },
        }
    }
}

impl<'a> FillProgress<'a> {
    /// The stage that this progress stands for.
    pub open spec fn stage(self) -> FillStage {
        match self {
            FillProgress::Pending { state } => FillStage::Pending {
                descriptor: state.descriptor(),
                total: state.total(),
                offset: state.position(),
            },
            FillProgress::Finished { outcome } => FillStage::Finished { outcome },
        }
    }
}

/// Decides what a fill of `total` bytes does once everything before
/// `offset` has been read.
fn issue<'a>(handle: &'a RandJitterKernel, total: usize, offset: usize) -> (progress:
    FillProgress<'a>)
    requires
        offset <= total,
    ensures
        progress.stage() == FillStage::at(handle.descriptor(), total as nat, offset as nat),
{
    if offset >= total {
        return FillProgress::Finished { outcome: Ok(()) };
    }
    let len: usize = if total - offset > MAX_RETURN_CHUNK_SIZE {
        MAX_RETURN_CHUNK_SIZE
    } else {
        total - offset
    };
    match handle.try_fill_bytes_max_chunk_size(len) {
        Ok(transfer) => FillProgress::Pending {
            state: ChunkedFill { handle, total, offset, transfer },
        },
        Err(e) => FillProgress::Finished { outcome: Err(e) },
    }
}

impl RandJitterKernel {
    /// Begins to fill a buffer of `len` bytes.
    ///
    /// An empty buffer is filled at once, without a transfer and whatever
    /// the handle holds.
    pub fn try_fill_bytes(&self, len: usize) -> (progress: FillProgress<'_>)
        ensures
            progress.stage() == FillStage::at(self.descriptor(), len as nat, 0),
    {
        issue(self, len, 0)
    }
}

/// The number of transfers that a fill of `total` bytes takes.
pub open spec fn chunk_count(total: nat) -> nat {
    ((total + MAX_RETURN_CHUNK_SIZE - 1) / (MAX_RETURN_CHUNK_SIZE as int)) as nat
}

/// The index in the buffer at which chunk number `k` begins.
pub open spec fn chunk_start(k: nat) -> nat {
    k * MAX_RETURN_CHUNK_SIZE as nat
}

/// Whether each of the first `transfers` transfers of a fill of `total`
/// bytes gets its whole chunk from `replies`, where `replies(k)` is what
/// transfer number `k` returns.
pub open spec fn faithful(total: nat, replies: spec_fn(nat) -> int, transfers: nat) -> bool {
    forall|k: nat| k < transfers ==> #[trigger] replies(k) == chunk_len(total, chunk_start(k))
}

/// Where a fill of `total` bytes through `descriptor` stands once
/// `transfers` transfers have returned what `replies` says.
pub open spec fn stage_after(
    descriptor: i32,
    total: nat,
    replies: spec_fn(nat) -> int,
    transfers: nat,
) -> FillStage
    decreases transfers,
{
    if transfers == 0 {
        FillStage::at(descriptor, total, 0)
    } else {
        stage_after(descriptor, total, replies, (transfers - 1) as nat).next(
            replies((transfers - 1) as nat),
        )
    }
}

/// The chunks tile the buffer: chunk `k` begins where chunk `k - 1` ended,
/// none is empty or longer than the kernel allows, all but the last are of
/// full length, and the last ends with the buffer.
pub proof fn lemma_chunks_tile(total: nat, k: nat)
    requires
        k < chunk_count(total),
    ensures
        1 <= chunk_len(total, chunk_start(k)) <= MAX_RETURN_CHUNK_SIZE,
        chunk_start(k) + chunk_len(total, chunk_start(k)) <= total,
        k + 1 < chunk_count(total) ==> chunk_len(total, chunk_start(k)) == MAX_RETURN_CHUNK_SIZE
            && chunk_start(k + 1) == chunk_start(k) + chunk_len(total, chunk_start(k)),
        k + 1 == chunk_count(total) ==> chunk_start(k) + chunk_len(total, chunk_start(k))
            == total,
{
}

/// Every byte of the buffer lies in exactly one chunk: the one whose
/// number is the byte's index divided by the full chunk length.
pub proof fn lemma_byte_in_one_chunk(total: nat, index: nat, k: nat)
    requires
        index < total,
    ensures
        index / (MAX_RETURN_CHUNK_SIZE as nat) < chunk_count(total),
        k < chunk_count(total) ==> (chunk_start(k) <= index < chunk_start(k) + chunk_len(
            total,
            chunk_start(k),
        ) <==> k == index / (MAX_RETURN_CHUNK_SIZE as nat)),
{
}

/// An empty buffer takes no transfer, and a buffer of up to 128 bytes takes
/// one.
pub proof fn lemma_chunk_count_small(total: nat)
    ensures
        total == 0 <==> chunk_count(total) == 0,
        1 <= total <= MAX_RETURN_CHUNK_SIZE <==> chunk_count(total) == 1,
{
}

/// A fill of an empty buffer succeeds before any transfer, whatever the
/// descriptor is, and stays so.
pub proof fn lemma_fill_empty(descriptor: i32, replies: spec_fn(nat) -> int, transfers: nat)
    ensures
        stage_after(descriptor, 0, replies, transfers) == (FillStage::Finished {
            outcome: Ok(()),
        }),
    decreases transfers,
{
    if transfers > 0 {
        lemma_fill_empty(descriptor, replies, (transfers - 1) as nat);
    }
}

/// As long as every transfer brings its whole chunk, a fill through a live
/// descriptor asks for one chunk after the other and then succeeds: after
/// `chunk_count(total)` transfers and no sooner, whatever `total` is.
pub proof fn lemma_fill_succeeds(
    descriptor: i32,
    total: nat,
    replies: spec_fn(nat) -> int,
    transfers: nat,
)
    requires
        descriptor >= 0,
        faithful(total, replies, transfers),
    ensures
        transfers < chunk_count(total) ==> stage_after(descriptor, total, replies, transfers)
            == (FillStage::Pending { descriptor, total, offset: chunk_start(transfers) }),
        transfers >= chunk_count(total) ==> stage_after(descriptor, total, replies, transfers)
            == (FillStage::Finished { outcome: Ok(()) }),
    decreases transfers,
{
    if transfers > 0 {
        let before = (transfers - 1) as nat;
        lemma_fill_succeeds(descriptor, total, replies, before);
        if before < chunk_count(total) {
            lemma_chunks_tile(total, before);
            assert(replies(before) == chunk_len(total, chunk_start(before)));
        }
    }
}

/// The first transfer that does not bring its whole chunk ends the fill
/// with `TransferFailed`, and no later reply changes that.
pub proof fn lemma_fill_fails(
    descriptor: i32,
    total: nat,
    replies: spec_fn(nat) -> int,
    failing: nat,
    transfers: nat,
)
    requires
        descriptor >= 0,
        failing < chunk_count(total),
        faithful(total, replies, failing),
        replies(failing) != chunk_len(total, chunk_start(failing)),
        transfers > failing,
    ensures
        stage_after(descriptor, total, replies, transfers) == (FillStage::Finished {
            outcome: Err(JitterError::TransferFailed),
        }),
    decreases transfers,
{
    let before = (transfers - 1) as nat;
    if before == failing {
        lemma_fill_succeeds(descriptor, total, replies, failing);
    } else {
        lemma_fill_fails(descriptor, total, replies, failing, before);
    }
}

/// Through a descriptor that is not live, a fill of a buffer that is not
/// empty is refused before any transfer.
pub proof fn lemma_fill_refused(
    descriptor: i32,
    total: nat,
    replies: spec_fn(nat) -> int,
    transfers: nat,
)
    requires
        descriptor < 0,
        total > 0,
    ensures
        stage_after(descriptor, total, replies, transfers) == (FillStage::Finished {
            outcome: Err(JitterError::HandleNotOpen { descriptor }),
        }),
    decreases transfers,
{
    if transfers > 0 {
        lemma_fill_refused(descriptor, total, replies, (transfers - 1) as nat);
    }
}

} // verus!
