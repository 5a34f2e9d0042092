//! The Echo interface, for testing and debugging the IPC connection.

use vstd::prelude::*;

use crate::actor::Command;

verus! {

/// High-level client for Bitcoin Core's Echo interface.
///
/// Sends text messages to the Bitcoin Core node and receives them back.
/// Useful for verifying the IPC connection is healthy. `Tx` is the handle by
/// which commands reach the actor.
pub struct EchoClient<Tx> {
    pub cmd_tx: Tx,
}

impl<Tx: Clone> Clone for EchoClient<Tx> {
    fn clone(&self) -> (copy: Self)
        ensures
            cloned(self.cmd_tx, copy.cmd_tx),
    {
        EchoClient { cmd_tx: self.cmd_tx.clone() }
    }
}

impl<Tx> EchoClient<Tx> {
    pub fn new(cmd_tx: Tx) -> (client: Self)
        ensures
            client.cmd_tx == cmd_tx,
    {
        EchoClient { cmd_tx }
    }

    /// Send a text message to the node and receive it back.
    pub fn echo(&self, message: &str) -> (cmd: Command)
        ensures
            cmd matches Command::EchoEcho { message: text } && text@ == message@,
    {
        Command::EchoEcho { message: message.to_owned() }
    }

    /// Explicitly destroy the echo interface on the server side.
    pub fn destroy(&self) -> (cmd: Command)
        ensures
            cmd == Command::EchoDestroy,
    {
        Command::EchoDestroy
    }
}

} // verus!
