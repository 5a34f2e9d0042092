//! Setting up the connection: from the socket to the capabilities that the
//! actor needs, as a state machine.

use std::collections::HashMap;

use vstd::prelude::*;

use crate::actor::Actor;
use crate::error::BitcoinCapnpError;

verus! {

/// Which capability the connection setup asks for next, and what it has
/// obtained so far. `P` is the path of the node's socket.
pub enum Bootstrap<P, C> {
    /// Connect to the socket, for the bootstrap `Init` client.
    Connect { path: P },
    /// Call `construct` on `init`, for the thread map.
    Construct { init: C },
    /// Call `makeThread` on `thread_map`, for a server thread.
    MakeThread { init: C, thread_map: C },
    /// Call `makeMining` on `init`, in the context of `thread`.
    MakeMining { init: C, thread: C },
    /// Call `makeEcho` on `init`, in the context of `thread`.
    MakeEcho { init: C, thread: C, mining: C },
    /// The actor can start.
    Ready(Actor<C>),
    /// The connection could not be set up.
    Failed(BitcoinCapnpError),
}

impl<P, C: Clone> Bootstrap<P, C> {
    /// From `self`, what came of the call that `self` names leads to `after`:
    /// to the next call, or with an error to the end.
    pub open spec fn steps(self, granted: Result<C, BitcoinCapnpError>, after: Self) -> bool {
        match granted {
            Err(e) => match self {
                Bootstrap::Ready(_) => after == self,
                Bootstrap::Failed(_) => after == self,
                _ => after == Bootstrap::<P, C>::Failed(e),
            },
            Ok(c) => match self {
                Bootstrap::Connect { path } => after == (Bootstrap::<P, C>::Construct { init: c }),
                Bootstrap::Construct { init } => after == (Bootstrap::<P, C>::MakeThread {
                    init,
                    thread_map: c,
                }),
                Bootstrap::MakeThread { init, thread_map } => after == (
                Bootstrap::<P, C>::MakeMining { init, thread: c }),
                Bootstrap::MakeMining { init, thread } => after == (Bootstrap::<P, C>::MakeEcho {
                    init,
                    thread,
                    mining: c,
                }),
                Bootstrap::MakeEcho { init, thread, mining } => {
                    &&& after matches Bootstrap::Ready(actor)
                    &&& actor.wf()
                    &&& actor.mining_ipc_client == mining
                    &&& actor.thread_ipc_client == thread
                    &&& actor.echo_ipc_client == c
                    &&& actor.monitors@ == Map::<u64, crate::actor::MonitorState<C>>::empty()
                    &&& actor.next_monitor_id == 1
                },
                Bootstrap::Ready(_) => after == self,
                Bootstrap::Failed(_) => after == self,
            },
        }
    }

    /// Takes what came of the call that the current state names.
    pub fn step(self, granted: Result<C, BitcoinCapnpError>) -> (after: Self)
        ensures
            self.steps(granted, after),
    {
        match granted {
            Err(e) => match self {
                Bootstrap::Ready(actor) => Bootstrap::Ready(actor),
                Bootstrap::Failed(first) => Bootstrap::Failed(first),
                _ => Bootstrap::Failed(e),
            },
            Ok(c) => match self {
                Bootstrap::Connect { path: _ } => Bootstrap::Construct { init: c },
                Bootstrap::Construct { init } => Bootstrap::MakeThread { init, thread_map: c },
                Bootstrap::MakeThread { init, thread_map: _ } => Bootstrap::MakeMining {
                    init,
                    thread: c,
                },
                Bootstrap::MakeMining { init, thread } => Bootstrap::MakeEcho {
                    init,
                    thread,
                    mining: c,
                },
                Bootstrap::MakeEcho { init: _, thread, mining } => Bootstrap::Ready(
                    Actor {
                        mining_ipc_client: mining,
                        thread_ipc_client: thread,
                        echo_ipc_client: c,
                        monitors: HashMap::new(),
                        next_monitor_id: 1,
                    },
                ),
                Bootstrap::Ready(actor) => Bootstrap::Ready(actor),
                Bootstrap::Failed(first) => Bootstrap::Failed(first),
            },
        }
    }
}

} // verus!
