//! The task that watches the chain tip on behalf of a monitor, as a state
//! machine.

use vstd::prelude::*;

use crate::actor::{Exchange, Method, Request};
use crate::mining::TipChange;
use crate::wire::{BlockRefReader, Float64};

verus! {

/// How long the node may hold back its answer to one wait for a tip change:
/// the bit pattern of 10000.0.
pub const WAIT_TIMEOUT_BITS: u64 = 0x40C3_8800_0000_0000;

/// A height as an unsigned number: negative heights wrap around.
pub open spec fn unsigned_height(height: i32) -> int {
    if height >= 0 {
        height as int
    } else {
        height + 0x1_0000_0000_0000_0000
    }
}

/// What the watching task knows of the chain.
pub enum TipMonitor {
    /// Nothing yet.
    Starting,
    /// The tip that the node last reported.
    Watching { height: u64, hash: Vec<u8> },
    /// The task is over.
    Stopped,
}

/// What the watching task does about an answer of the node.
pub struct Effect {
    /// The tip change to hand to the subscribers.
    pub publish: Option<TipChange>,
    /// Whether to cancel the monitor's stop token.
    pub cancel_stop: bool,
}

impl TipMonitor {
    pub fn new() -> (m: Self)
        ensures
            m is Starting,
    {
        TipMonitor::Starting
    }

    /// `r` is the method to call next on the Mining interface, and whether
    /// the monitor's stop token ends the wait for it: first for the tip, then
    /// for a change from the tip that the node last reported.
    pub open spec fn asks(self, r: Option<(Method, bool)>) -> bool {
        match self {
            TipMonitor::Starting => r == Some((Method::GetTip, false)),
            TipMonitor::Watching { height, hash } => {
                &&& r matches Some((Method::WaitTipChanged { current_tip, timeout }, true))
                &&& current_tip@ == hash@
                &&& timeout.bits == WAIT_TIMEOUT_BITS
            },
            TipMonitor::Stopped => r is None,
        }
    }

    /// `r` is the call to make next: what [`Self::asks`] says, on `mining` and
    /// in the context of `thread`. There is none once the task is over.
    pub open spec fn calls<C: Clone>(
        self,
        mining: C,
        thread: C,
        r: Option<(Request<C>, bool)>,
    ) -> bool {
        match r {
            Some((request, cancellable)) => {
                &&& cloned(mining, request.target)
                &&& cloned(thread, request.thread)
                &&& self.asks(Some((request.method, cancellable)))
            },
            None => self is Stopped,
        }
    }

    /// The method to call next on the Mining interface, and whether the
    /// monitor's stop token ends the wait for it. There is none once the task
    /// is over.
    pub fn request(&self) -> (r: Option<(Method, bool)>)
        ensures
            self.asks(r),
    {
        match self {
            TipMonitor::Starting => Some((Method::GetTip, false)),
            TipMonitor::Watching { height: _, hash } => {
                let method = Method::WaitTipChanged {
                    current_tip: hash.clone(),
                    timeout: Float64 { bits: WAIT_TIMEOUT_BITS },
                };
                Some((method, true))
            },
            TipMonitor::Stopped => None,
        }
    }

    /// The call to make next on the Mining interface `mining`, in the context
    /// of the server thread `thread`, and whether the monitor's stop token
    /// ends the wait for it. There is none once the task is over.
    pub fn call<C: Clone>(&self, mining: &C, thread: &C) -> (r: Option<(Request<C>, bool)>)
        ensures
            self.calls(*mining, *thread, r),
    {
        match self.request() {
            Some((method, cancellable)) => {
                let request = Request { target: mining.clone(), thread: thread.clone(), method };
                Some((request, cancellable))
            },
            None => None,
        }
    }

    /// The tip that an answer reports, if it reports one that can be read.
    pub open spec fn reported(exchange: Exchange<Result<BlockRefReader, capnp::Error>>) -> Option<
        (i32, Vec<u8>),
    > {
        match exchange {
            Exchange::Answered(Ok(tip)) => match tip.hash {
                Ok(hash) => Some((tip.height, hash)),
                Err(_) => None,
            },
            _ => None,
        }
    }

    /// From `self`, the answer of the node leads to `after` and `effect`.
    ///
    /// The task gives up, and says so by the stop token, if the first tip
    /// cannot be had or a wait cannot even be sent. It ends quietly once its
    /// stop token fired. Any other failure of a wait is passed over. A tip
    /// change is published when the chain tip changes: when the node reports
    /// a tip other than the one it last reported.
    pub open spec fn advances(
        self,
        exchange: Exchange<Result<BlockRefReader, capnp::Error>>,
        after: Self,
        effect: Effect,
    ) -> bool {
        match self {
            TipMonitor::Starting => match Self::reported(exchange) {
                Some((h, new_hash)) => {
                    &&& after matches TipMonitor::Watching { height, hash }
                    &&& height == unsigned_height(h)
                    &&& hash@ == new_hash@
                    &&& effect.publish is None
                    &&& !effect.cancel_stop
                },
                None => {
                    &&& after is Stopped
                    &&& effect.publish is None
                    &&& effect.cancel_stop
                },
            },
            TipMonitor::Watching { height: _, hash: old_hash } => match Self::reported(exchange) {
                Some((h, new_hash)) if new_hash@ != old_hash@ => {
                    &&& after matches TipMonitor::Watching { height, hash }
                    &&& height == unsigned_height(h)
                    &&& hash@ == new_hash@
                    &&& effect.publish matches Some(tip)
                    &&& tip.height == unsigned_height(h)
                    &&& tip.hash@ == new_hash@
                    &&& !effect.cancel_stop
                },
                _ => {
                    &&& effect.publish is None
                    &&& effect.cancel_stop == (exchange is NotSent)
                    &&& if exchange is NotSent || exchange is Cancelled {
                        after is Stopped
                    } else {
                        after == self
                    }
                },
            },
            TipMonitor::Stopped => {
                &&& after is Stopped
                &&& effect.publish is None
                &&& !effect.cancel_stop
            },
        }
    }

    /// Takes the answer of the node to the call that [`Self::call`] gave.
    pub fn advance(&mut self, exchange: Exchange<Result<BlockRefReader, capnp::Error>>) -> (effect:
        Effect)
        ensures
            old(self).advances(exchange, *final(self), effect),
    {
        let quiet = Effect { publish: None, cancel_stop: false };
        let give_up = Effect { publish: None, cancel_stop: true };
        match self {
            TipMonitor::Starting => match exchange {
                Exchange::Answered(Ok(tip)) => match tip.hash {
                    Ok(hash) => {
                        *self = TipMonitor::Watching { height: height_to_u64(tip.height), hash };
                        quiet
                    },
                    Err(_) => {
                        *self = TipMonitor::Stopped;
                        give_up
                    },
                },
                _ => {
                    *self = TipMonitor::Stopped;
                    give_up
                },
            },
            TipMonitor::Watching { height: _, hash: old_hash } => match exchange {
                Exchange::NotSent(_) => {
                    *self = TipMonitor::Stopped;
                    give_up
                },
                Exchange::Cancelled => {
                    *self = TipMonitor::Stopped;
                    quiet
                },
                Exchange::Answered(Ok(tip)) => match tip.hash {
                    Ok(hash) => if same_hash(old_hash, &hash) {
                        quiet
                    } else {
                        let height: u64 = height_to_u64(tip.height);
                        let publish = TipChange { height, hash: hash.clone() };
                        *self = TipMonitor::Watching { height, hash };
                        Effect { publish: Some(publish), cancel_stop: false }
                    },
                    Err(_) => quiet,
                },
                _ => quiet,
            },
            TipMonitor::Stopped => quiet,
        }
    }
}

/// Whether two hashes are the same bytes.
fn same_hash(a: &Vec<u8>, b: &Vec<u8>) -> (r: bool)
    ensures
        r == (a@ == b@),
{
    let r = *a == *b;
    assert(r ==> a@ =~= b@);
    r
}

/// Sign-extends a height to 64 bits.
fn height_to_u64(height: i32) -> (r: u64)
    ensures
        r == unsigned_height(height),
{
    let r: u64 = height as u64;
    assert(height >= 0 ==> r == height) by (bit_vector)
        requires
            r == height as u64,
    ;
    assert(height < 0 ==> r == height + 0x1_0000_0000_0000_0000) by (bit_vector)
        requires
            r == height as u64,
    ;
    r
}

} // verus!
