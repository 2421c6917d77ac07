//! Obtaining a generator instance from the kernel, one system call at a
//! time.
//!
//! A family endpoint is opened, bound to the selector of the jitter entropy
//! generator, and asked for an instance. Whatever happens after the
//! endpoint exists, it is closed before the negotiation ends: on success
//! because only the instance is needed from then on, on failure so that no
//! descriptor is left behind.

use vstd::prelude::*;
use crate::error::JitterError;
use crate::handle::RandJitterKernel;
use crate::selector::{alg_family, endpoint_type, AlgSelector, ALG_FAMILY, ENDPOINT_TYPE, SELECTOR_LEN};

verus! {

/// A system call that the negotiation asks its caller to make.
#[derive(Debug, Clone, Copy)]
pub enum Request {
    /// `socket(family, kind, protocol)`: open the family endpoint.
    Open { family: i32, kind: i32, protocol: i32 },
    /// `bind(endpoint, selector, selector_len)`: declare the algorithm.
    Bind { endpoint: i32, selector: AlgSelector, selector_len: u32 },
    /// `accept(endpoint, null, null)`: obtain an instance.
    Accept { endpoint: i32 },
    /// `close(endpoint)`: give the family endpoint back.
    Close { endpoint: i32 },
}

/// A negotiation that waits for the result of one system call.
///
/// It is used up by the step that takes that result, so that no call is
/// answered twice.
#[derive(Debug)]
pub enum Negotiation {
    /// Waits for the endpoint that `Open` returns.
    Opening,
    /// Owns `endpoint` and waits for the result of `Bind`.
    Binding { endpoint: i32 },
    /// Owns `endpoint` and waits for the instance that `Accept` returns.
    Accepting { endpoint: i32 },
    /// Waits for `Close` of `endpoint`, after which `outcome` is final: the
    /// descriptor of the instance, or why there is none.
    Closing { endpoint: i32, outcome: Result<i32, JitterError> },
}

/// Where a negotiation stands after a system call has returned.
#[derive(Debug)]
pub enum Progress {
    /// `request` is to be made, and its result handed to `state`.
    Pending { state: Negotiation, request: Request },
    /// The negotiation is over.
    Finished { outcome: Result<RandJitterKernel, JitterError> },
}

impl Request {
    /// Whether this is the request that opens an endpoint for the kernel's
    /// crypto interface.
    pub open spec fn opens_endpoint(self) -> bool {
        self matches Request::Open { family, kind, protocol } && family == ALG_FAMILY && kind
            == ENDPOINT_TYPE && protocol == 0
    }

    /// Whether this is the request that binds `endpoint` to the selector of
    /// the jitter entropy generator.
    pub open spec fn binds(self, endpoint: int) -> bool {
        self matches Request::Bind { endpoint: e, selector, selector_len } && e == endpoint
            && selector_len == SELECTOR_LEN && selector.holds(
            ALG_FAMILY as int,
            AlgSelector::rng_type(),
            AlgSelector::rng_name(),
        )
    }
}

/// A negotiation as its caller sees it between two system calls: what it
/// waits for, or how it ended.
#[derive(Debug)]
pub enum Stage {
    /// The system call that `state` waits for is to be made.
    Pending { state: Negotiation },
    /// The negotiation is over, with the descriptor of the instance or the
    /// reason why there is none.
    Finished { outcome: Result<i32, JitterError> },
}

impl Progress {
    /// The stage that this progress stands for.
    pub open spec fn stage(self) -> Stage {
        match self {
            Progress::Pending { state, .. } => Stage::Pending { state },
            Progress::Finished { outcome } => Stage::Finished {
                outcome: match outcome {
                    Ok(handle) => Ok(handle.descriptor()),
                    Err(e) => Err(e),
                },
            },
        }
    }

    /// Whether the request that is handed out is the one that the new
    /// state waits for.
    pub open spec fn coherent(self) -> bool {
        self matches Progress::Pending { state, request } ==> state.awaits(request)
    }
}

impl Negotiation {
    /// The endpoint that the negotiation owns and has yet to close.
    pub open spec fn endpoint(self) -> Option<i32> {
        match self {
            Negotiation::Opening => None,
            Negotiation::Binding { endpoint } => Some(endpoint),
            Negotiation::Accepting { endpoint } => Some(endpoint),
            Negotiation::Closing { endpoint, .. } => Some(endpoint),
        }
    }

    /// Whether `request` is the system call whose result `self` waits for.
    pub open spec fn awaits(self, request: Request) -> bool {
        match self {
            Negotiation::Opening => request.opens_endpoint(),
            Negotiation::Binding { endpoint } => request.binds(endpoint as int),
            Negotiation::Accepting { endpoint } => request == (Request::Accept { endpoint }),
            Negotiation::Closing { endpoint, .. } => request == (Request::Close { endpoint }),
        }
    }

    /// The stage that follows when the awaited system call returns `reply`.
    ///
    /// A negative endpoint or instance and a bind result other than zero
    /// are failures. Once the endpoint exists, every path leads through
    /// `Closing`. What `Close` returned is not looked at; a kept descriptor
    /// that no accept can have returned counts as `AcceptFailed`.
    pub open spec fn next(self, reply: i32) -> Stage {
        match self {
            Negotiation::Opening => if reply < 0 {
                Stage::Finished { outcome: Err(JitterError::EndpointCreationFailed) }
            } else {
                Stage::Pending { state: Negotiation::Binding { endpoint: reply } }
            },
            Negotiation::Binding { endpoint } => if reply != 0 {
                Stage::Pending {
                    state: Negotiation::Closing { endpoint, outcome: Err(JitterError::BindFailed) },
                }
            } else {
                Stage::Pending { state: Negotiation::Accepting { endpoint } }
            },
            Negotiation::Accepting { endpoint } => Stage::Pending {
                state: Negotiation::Closing {
                    endpoint,
                    outcome: if reply < 0 {
                        Err(JitterError::AcceptFailed)
                    } else {
                        Ok(reply)
                    },
                },
            },
            Negotiation::Closing { outcome, .. } => Stage::Finished {
                outcome: match outcome {
                    Ok(descriptor) => if descriptor >= 0 {
                        Ok(descriptor)
                    } else {
                        Err(JitterError::AcceptFailed)
                    },
                    Err(e) => Err(e),
                },
            },
        }
    }

    /// Begins a negotiation: the endpoint is to be opened.
    pub fn start() -> (first: (Negotiation, Request))
        ensures
            first.0 == Negotiation::Opening,
            first.0.awaits(first.1),
    {
        (
            Negotiation::Opening,
            Request::Open { family: alg_family(), kind: endpoint_type(), protocol: 0 },
        )
    }

    /// Takes what the awaited system call returned and decides what
    /// follows.
    ///
    /// A negative endpoint or instance and a bind result other than zero
    /// are failures. What `Close` returned is not looked at.
    pub fn advance(self, reply: i32) -> (progress: Progress)
        ensures
            progress.stage() == self.next(reply),
            progress.coherent(),
    {
        match self {
            Negotiation::Opening => {
                if reply < 0 {
                    return Progress::Finished {
                        outcome: Err(JitterError::EndpointCreationFailed),
                    };
                }
                match AlgSelector::jitterentropy() {
                    Ok(selector) => Progress::Pending {
                        state: Negotiation::Binding { endpoint: reply },
                        request: Request::Bind {
                            endpoint: reply,
                            selector,
                            selector_len: SELECTOR_LEN,
                        },
                    },
                    Err(e) => Progress::Pending {
                        state: Negotiation::Closing { endpoint: reply, outcome: Err(e) },
                        request: Request::Close { endpoint: reply },
                    },
                }
            },
            Negotiation::Binding { endpoint } => {
                if reply != 0 {
                    Progress::Pending {
                        state: Negotiation::Closing {
                            endpoint,
                            outcome: Err(JitterError::BindFailed),
                        },
                        request: Request::Close { endpoint },
                    }
                } else {
                    Progress::Pending {
                        state: Negotiation::Accepting { endpoint },
                        request: Request::Accept { endpoint },
                    }
                }
            },
            Negotiation::Accepting { endpoint } => {
                let outcome: Result<i32, JitterError> = if reply < 0 {
                    Err(JitterError::AcceptFailed)
                } else {
                    Ok(reply)
                };
                Progress::Pending {
                    state: Negotiation::Closing { endpoint, outcome },
                    request: Request::Close { endpoint },
                }
            },
            Negotiation::Closing { outcome, .. } => {
                match outcome {
                    Ok(descriptor) => Progress::Finished {
                        outcome: RandJitterKernel::new(descriptor),
                    },
                    Err(e) => Progress::Finished { outcome: Err(e) },
                }
            },
        }
    }
}

/// What the kernel returns to each of the four system calls of one
/// negotiation.
#[derive(Debug, Clone, Copy)]
pub struct Replies {
    pub open: i32,
    pub bind: i32,
    pub accept: i32,
    pub close: i32,
}

impl Replies {
    /// The outcome that these replies call for: the first step that fails
    /// names the error, and the accepted instance is the success.
    pub open spec fn negotiated(self) -> Result<i32, JitterError> {
        if self.open < 0 {
            Err(JitterError::EndpointCreationFailed)
        } else if self.bind != 0 {
            Err(JitterError::BindFailed)
        } else if self.accept < 0 {
            Err(JitterError::AcceptFailed)
        } else {
            Ok(self.accept)
        }
    }

    /// The states that a negotiation goes through under these replies, the
    /// first one included.
    pub open spec fn route(self) -> Seq<Negotiation> {
        let opening = Negotiation::Opening;
        let binding = Negotiation::Binding { endpoint: self.open };
        let accepting = Negotiation::Accepting { endpoint: self.open };
        let closing = Negotiation::Closing { endpoint: self.open, outcome: self.negotiated() };
        if self.open < 0 {
            seq![opening]
        } else if self.bind != 0 {
            seq![opening, binding, closing]
        } else {
            seq![opening, binding, accepting, closing]
        }
    }
}

impl Negotiation {
    /// An upper bound on the system calls that are still to be made.
    pub open spec fn calls_left(self) -> nat {
        match self {
            Negotiation::Opening => 4,
            Negotiation::Binding { .. } => 3,
            Negotiation::Accepting { .. } => 2,
            Negotiation::Closing { .. } => 1,
        }
    }

    /// The reply among `replies` that answers the call `self` waits for.
    pub open spec fn reply(self, replies: Replies) -> i32 {
        match self {
            Negotiation::Opening => replies.open,
            Negotiation::Binding { .. } => replies.bind,
            Negotiation::Accepting { .. } => replies.accept,
            Negotiation::Closing { .. } => replies.close,
        }
    }

    /// Every step brings the end nearer: a negotiation is over after four
    /// system calls at most.
    pub proof fn lemma_step_shortens(self, reply: i32)
        ensures
            self.next(reply) matches Stage::Pending { state } ==> state.calls_left()
                < self.calls_left(),
    {
    }

    /// An endpoint that the negotiation owns stays with it from step to
    /// step, and the negotiation ends only on the reply to its `Close`. So
    /// no path leaves the endpoint open.
    pub proof fn lemma_endpoint_closed(self, reply: i32)
        requires
            self.endpoint() is Some,
        ensures
            self.next(reply) matches Stage::Pending { state } ==> state.endpoint()
                == self.endpoint(),
            self.next(reply) is Finished ==> self is Closing,
    {
    }

    /// A negotiation yields a descriptor only if it is not negative: no
    /// handle is made of a refusal.
    pub proof fn lemma_descriptor_is_live(self, reply: i32)
        ensures
            self.next(reply) matches Stage::Finished { outcome: Ok(descriptor) } ==> descriptor
                >= 0,
    {
    }
}

impl Replies {
    /// Where a negotiation stands under these replies once `calls` system
    /// calls have returned. A negotiation that is over stays as it is.
    pub open spec fn stage_after(self, calls: nat) -> Stage
        decreases calls,
    {
        if calls == 0 {
            Stage::Pending { state: Negotiation::Opening }
        } else {
            match self.stage_after((calls - 1) as nat) {
                Stage::Pending { state } => state.next(state.reply(self)),
                Stage::Finished { outcome } => Stage::Finished { outcome },
            }
        }
    }

    /// A negotiation makes its calls in this order: open; then, if there
    /// is an endpoint, bind; then, if the bind succeeded, accept; and last,
    /// whenever there is an endpoint, close. After that it is over, with
    /// the error of the first step that failed or with the accepted
    /// instance. What `Close` returns changes nothing.
    pub proof fn lemma_route(self, calls: nat)
        ensures
            calls < self.route().len() ==> self.stage_after(calls) == (Stage::Pending {
                state: self.route()[calls as int],
            }),
            calls >= self.route().len() ==> self.stage_after(calls) == (Stage::Finished {
                outcome: self.negotiated(),
            }),
        decreases calls,
    {
        if calls > 0 {
            self.lemma_route((calls - 1) as nat);
        }
    }

    /// Every negotiation is over once four system calls have returned.
    pub proof fn lemma_over_after_four(self)
        ensures
            self.stage_after(4) == (Stage::Finished { outcome: self.negotiated() }),
    {
        self.lemma_route(4);
    }
}

} // verus!
