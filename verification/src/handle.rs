//! The handle on one generator instance, and a single transfer from it.

use vstd::prelude::*;
use crate::error::JitterError;

verus! {

/// The most bytes that the kernel hands out in one transfer.
pub const MAX_RETURN_CHUNK_SIZE: usize = 128;

/// The descriptor that a handle holds once it has been released.
pub const CLOSED: i32 = -1;

/// One read that is to be made: exactly `len` bytes from `descriptor`.
#[derive(Debug, Clone, Copy, PartialEq, Eq, Structural)]
pub struct Transfer {
    pub descriptor: i32,
    pub len: usize,
}

impl Transfer {
    /// Judges what the read returned: the count of bytes, or a negative
    /// number for an error.
    ///
    /// Only the full count is a success. A short read is not continued.
    pub fn complete(&self, returned: isize) -> (outcome: Result<(), JitterError>)
        ensures
            returned == self.len ==> outcome == Ok::<(), JitterError>(()),
            returned != self.len ==> outcome == Err::<(), JitterError>(
                JitterError::TransferFailed,
            ),
    {
        if returned < 0 {
            return Err(JitterError::TransferFailed);
        }
        match usize::try_from(returned) {
            Ok(count) => {
                if count == self.len {
                    Ok(())
                } else {
                    Err(JitterError::TransferFailed)
                }
            },
            Err(_) => Err(JitterError::SizeConversionFailed),
        }
    }
}

/// The handle on one instance of the kernel's jitter entropy generator.
///
/// It owns the descriptor of that instance from the moment the kernel
/// hands it out until `release`. Reading does not change it.
#[derive(Debug, PartialEq, Eq, PartialOrd, Ord)]
pub struct RandJitterKernel {
    rng_fd: i32,
}

impl RandJitterKernel {
    /// The descriptor that the handle holds.
    pub closed spec fn descriptor(&self) -> i32 {
        self.rng_fd
    }

    /// Whether the handle holds a live descriptor.
    pub open spec fn is_live(&self) -> bool {
        self.descriptor() >= 0
    }

    /// Takes ownership of what accepting an instance returned.
    ///
    /// A negative number is the kernel's refusal, and no handle is made of
    /// it.
    pub fn new(accepted: i32) -> (handle: Result<RandJitterKernel, JitterError>)
        ensures
            accepted < 0 ==> handle == Err::<RandJitterKernel, JitterError>(
                JitterError::AcceptFailed,
            ),
            accepted >= 0 ==> handle is Ok && handle->Ok_0.descriptor() == accepted,
    {
        if accepted < 0 {
            Err(JitterError::AcceptFailed)
        } else {
            Ok(RandJitterKernel { rng_fd: accepted })
        }
    }

    /// The descriptor that the handle holds.
    pub fn rng_fd(&self) -> (descriptor: i32)
        ensures
            descriptor == self.descriptor(),
    {
        self.rng_fd
    }

    /// Whether the handle holds a live descriptor.
    pub fn is_open(&self) -> (open: bool)
        ensures
            open == self.is_live(),
    {
        self.rng_fd >= 0
    }

    /// The outcome of asking for `len` bytes in one transfer.
    pub open spec fn single_transfer(&self, len: nat) -> Result<Transfer, JitterError> {
        if len > MAX_RETURN_CHUNK_SIZE {
            Err(JitterError::ChunkTooLarge { requested: len as usize })
        } else if !self.is_live() {
            Err(JitterError::HandleNotOpen { descriptor: self.descriptor() })
        } else {
            Ok(Transfer { descriptor: self.descriptor(), len: len as usize })
        }
    }

    /// Asks for `len` bytes in one transfer.
    ///
    /// The length is judged first and the handle second; only when both
    /// pass is there a read to make. What the read returns goes to
    /// `Transfer::complete`.
    pub fn try_fill_bytes_max_chunk_size(&self, len: usize) -> (transfer: Result<
        Transfer,
        JitterError,
    >)
        ensures
            transfer == self.single_transfer(len as nat),
    {
        if len > MAX_RETURN_CHUNK_SIZE {
            return Err(JitterError::ChunkTooLarge { requested: len });
        }
        if self.rng_fd < 0 {
            return Err(JitterError::HandleNotOpen { descriptor: self.rng_fd });
        }
        Ok(Transfer { descriptor: self.rng_fd, len })
    }

    /// Gives up the descriptor, which the caller then closes.
    ///
    /// A handle is released once. Afterwards it holds `CLOSED`, and no
    /// transfer is made through it.
    pub fn release(&mut self) -> (descriptor: i32)
        requires
            old(self).is_live(),
        ensures
            descriptor == old(self).descriptor(),
            final(self).descriptor() == CLOSED,
            !final(self).is_live(),
    {
        let descriptor: i32 = self.rng_fd;
        self.rng_fd = CLOSED;
        descriptor
    }
}

} // verus!
