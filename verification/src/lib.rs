//! Rust Cap'n Proto IPC client for Bitcoin Core.
//!
//! The crate holds the part of the client that decides: which request a
//! method call leads to, what becomes of the monitors, what is replied, when
//! a tip change is published. It makes no connection of its own. Whoever
//! runs it sends the requests to the node and feeds the answers back.

pub mod actor;
pub mod chain;
pub mod client;
pub mod echo;
pub mod error;
pub mod extract;
pub mod laws;
pub mod libmp;
pub mod mining;
pub mod monitor;
pub mod operations;
pub mod replies;
pub mod watching;
pub mod wire;

use vstd::prelude::*;

pub use error::BitcoinCapnpError;
pub use mining::{
    BlockCreateOptions, BlockRef, BlockValidationState, BlockWaitOptions, MonitorClient, TipChange,
};

verus! {

/// IPC client for Bitcoin Core's Cap'n Proto interface.
///
/// `Tx` is the handle by which commands reach the actor.
pub struct BitcoinCapnp<Tx> {
    pub mining: mining::MiningClient<Tx>,
    pub chain: chain::ChainClient<Tx>,
    pub echo: echo::EchoClient<Tx>,
}

impl<Tx: Clone> Clone for BitcoinCapnp<Tx> {
    fn clone(&self) -> (copy: Self)
        ensures
            cloned(self.mining.cmd_tx, copy.mining.cmd_tx),
            cloned(self.chain.cmd_tx, copy.chain.cmd_tx),
            cloned(self.echo.cmd_tx, copy.echo.cmd_tx),
    {
        BitcoinCapnp {
            mining: self.mining.clone(),
            chain: self.chain.clone(),
            echo: self.echo.clone(),
        }
    }
}

impl<Tx: Clone> BitcoinCapnp<Tx> {
    /// A client for the node behind `node_socket_path`, and the connection
    /// setup that its actor begins with. The three clients share the handle
    /// `cmd_tx` to that actor.
    pub fn new<P, C>(node_socket_path: P, cmd_tx: Tx) -> (r: (Self, libmp::Bootstrap<P, C>))
        ensures
            cloned(cmd_tx, r.0.mining.cmd_tx),
            cloned(cmd_tx, r.0.echo.cmd_tx),
            r.0.chain.cmd_tx == cmd_tx,
            r.1 == (libmp::Bootstrap::<P, C>::Connect { path: node_socket_path }),
    {
        let mining = mining::MiningClient::new(cmd_tx.clone());
        let echo = echo::EchoClient::new(cmd_tx.clone());
        let chain = chain::ChainClient::new(cmd_tx);
        (BitcoinCapnp { mining, chain, echo }, libmp::Bootstrap::Connect { path: node_socket_path })
    }
}

} // verus!
