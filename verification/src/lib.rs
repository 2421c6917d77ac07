//! Protocol core of a client for the Linux kernel's `jitterentropy_rng`.
//!
//! The kernel offers its jitter entropy source through an `AF_ALG` socket:
//! a family endpoint is opened and bound to an algorithm selector, a
//! generator instance is accepted from it, and random bytes are read from
//! that instance in transfers of bounded size.
//!
//! This crate holds every decision of that protocol and none of its system
//! calls. Each operation is a small machine: it names the next system call,
//! is told what the call returned, and answers with the call after that or
//! with the final outcome. The caller owns the loop and the descriptors.

pub mod error;
pub mod fill;
pub mod handle;
pub mod negotiate;
pub mod selector;
pub mod word;

pub use error::JitterError;
pub use fill::{ChunkedFill, FillProgress};
pub use handle::{RandJitterKernel, Transfer, CLOSED, MAX_RETURN_CHUNK_SIZE};
pub use negotiate::{Negotiation, Progress, Request};
pub use selector::AlgSelector;
pub use word::{low_half, WORD_LEN};
