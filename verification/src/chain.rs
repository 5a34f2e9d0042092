//! The Chain interface.

use vstd::prelude::*;

use crate::actor::Command;

verus! {

/// High-level client for Bitcoin Core's Chain interface. `Tx` is the handle
/// by which commands reach the actor.
pub struct ChainClient<Tx> {
    pub cmd_tx: Tx,
}

impl<Tx: Clone> Clone for ChainClient<Tx> {
    fn clone(&self) -> (copy: Self)
        ensures
            cloned(self.cmd_tx, copy.cmd_tx),
    {
        ChainClient { cmd_tx: self.cmd_tx.clone() }
    }
}

impl<Tx> ChainClient<Tx> {
    pub fn new(cmd_tx: Tx) -> (client: Self)
        ensures
            client.cmd_tx == cmd_tx,
    {
        ChainClient { cmd_tx }
    }

    /// Ask for the height of the chain. The actor holds no Chain capability
    /// and leaves the command unanswered, so the call ends in
    /// `ActorDisconnected`.
    pub fn get_height(&self) -> (cmd: Command)
        ensures
            cmd == Command::ChainGetHeight,
    {
        Command::ChainGetHeight
    }
}

} // verus!
