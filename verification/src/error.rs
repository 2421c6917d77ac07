//! The ways in which negotiating or reading from the generator can fail.

use vstd::prelude::*;

verus! {

/// Why an operation on the generator failed.
///
/// Every variant is recoverable: it is handed to the caller, and nothing is
/// retried on its behalf.
#[derive(Debug, Clone, Copy, PartialEq, Eq, Structural)]
pub enum JitterError {
    /// The family endpoint could not be opened.
    EndpointCreationFailed,
    /// A name or number does not fit its field of the algorithm selector.
    FieldOverflow,
    /// The family endpoint could not be bound to the selector.
    BindFailed,
    /// The kernel handed out no generator instance.
    AcceptFailed,
    /// A single transfer of more than the kernel's limit was asked for.
    ChunkTooLarge { requested: usize },
    /// The handle holds no live descriptor.
    HandleNotOpen { descriptor: i32 },
    /// A transfer returned an error or another count than was asked for.
    TransferFailed,
    /// A count could not be carried over into the type that holds lengths.
    SizeConversionFailed,
}

impl JitterError {
    /// The text of `reason` for each error.
    pub open spec fn reason_text(self) -> Seq<char> {
        match self {
            JitterError::EndpointCreationFailed =>
                "unable to create AF_ALG socket for jitterentropy_rng"@,
            JitterError::FieldOverflow => "unable to fit a value into the algorithm selector"@,
            JitterError::BindFailed => "unable to bind AF_ALG socket"@,
            JitterError::AcceptFailed => "unable to get rng_fd from kernel"@,
            JitterError::ChunkTooLarge { .. } =>
                "Cannot return more than 128 byte in a single call"@,
            JitterError::HandleNotOpen { .. } =>
                "Cannot get entropy from jitterentropy_rng in kernel with invalid fd"@,
            JitterError::TransferFailed => "Cannot get entropy from jitterentropy_rng in kernel"@,
            JitterError::SizeConversionFailed => "unable to convert returned size to usize"@,
        }
    }

    /// A fixed sentence that names the stage that failed.
    pub fn reason(&self) -> (text: &'static str)
        ensures
            text@ == self.reason_text(),
    {
        match self {
            JitterError::EndpointCreationFailed =>
                "unable to create AF_ALG socket for jitterentropy_rng",
            JitterError::FieldOverflow => "unable to fit a value into the algorithm selector",
            JitterError::BindFailed => "unable to bind AF_ALG socket",
            JitterError::AcceptFailed => "unable to get rng_fd from kernel",
            JitterError::ChunkTooLarge { .. } => "Cannot return more than 128 byte in a single call",
            JitterError::HandleNotOpen { .. } =>
                "Cannot get entropy from jitterentropy_rng in kernel with invalid fd",
            JitterError::TransferFailed => "Cannot get entropy from jitterentropy_rng in kernel",
            JitterError::SizeConversionFailed => "unable to convert returned size to usize",
        }
    }
}

} // verus!
