//! The Mining interface: block template options, chain tip events, and the
//! clients that make commands out of method calls.

use vstd::prelude::*;
use vstd::slice::slice_to_vec;

use crate::actor::Command;
use crate::client::{Delivery, IntoCapnp};
use crate::error::BitcoinCapnpError;
use crate::wire::{BlockCreateOptionsBuilder, BlockRefReader, BlockWaitOptionsBuilder, Float64};

verus! {

/// Hash and height of a block.
#[derive(Clone, Debug)]
pub struct BlockRef {
    pub hash: Vec<u8>,
    pub height: i32,
}

impl BlockRef {
    /// Copies a block reference out of a message. The message must hold a
    /// hash that can be read.
    pub fn from(r: BlockRefReader) -> (b: Self)
        requires
            r.hash is Ok,
        ensures
            r.hash == Ok::<Vec<u8>, capnp::Error>(b.hash),
            b.height == r.height,
    {
        BlockRef { hash: r.hash.unwrap(), height: r.height }
    }
}

/// Options for creating a new block template.
#[derive(Clone, Copy, Debug, PartialEq, Eq, Structural)]
pub struct BlockCreateOptions {
    pub use_mempool: bool,
    pub block_reserved_weight: u64,
    pub coinbase_output_max_additional_sigops: u64,
}

impl IntoCapnp<BlockCreateOptionsBuilder> for BlockCreateOptions {
    open spec fn applied(&self, before: BlockCreateOptionsBuilder) -> BlockCreateOptionsBuilder {
        BlockCreateOptionsBuilder {
            use_mempool: self.use_mempool,
            block_reserved_weight: self.block_reserved_weight,
            coinbase_output_max_additional_sigops: self.coinbase_output_max_additional_sigops,
        }
    }

    fn apply(&self, builder: &mut BlockCreateOptionsBuilder) {
        builder.use_mempool = self.use_mempool;
        builder.block_reserved_weight = self.block_reserved_weight;
        builder.coinbase_output_max_additional_sigops = self.coinbase_output_max_additional_sigops;
    }
}

/// Options for waiting on a new block template.
#[derive(Clone, Copy, Debug, PartialEq, Eq, Structural)]
pub struct BlockWaitOptions {
    pub timeout: Float64,
    pub fee_threshold: i64,
}

impl IntoCapnp<BlockWaitOptionsBuilder> for BlockWaitOptions {
    open spec fn applied(&self, before: BlockWaitOptionsBuilder) -> BlockWaitOptionsBuilder {
        BlockWaitOptionsBuilder { timeout: self.timeout, fee_threshold: self.fee_threshold }
    }

    fn apply(&self, builder: &mut BlockWaitOptionsBuilder) {
        builder.timeout = self.timeout;
        builder.fee_threshold = self.fee_threshold;
    }
}

/// Result of block validation.
#[derive(Clone, Debug)]
pub struct BlockValidationState {
    pub mode: i32,
    pub result: i32,
    pub reject_reason: String,
    pub debug_message: String,
}

/// Emitted when the chain tip changes.
#[derive(Clone, Debug)]
pub struct TipChange {
    pub height: u64,
    pub hash: Vec<u8>,
}

/// The least weight that is kept free in a block for the coinbase.
pub const MIN_BLOCK_RESERVED_WEIGHT: u64 = 2000;

/// Weight units that one byte of a coinbase output takes.
pub const WEIGHT_PER_BYTE: u32 = 4;

/// The weight to keep free for a coinbase whose outputs take up to `size`
/// more bytes.
pub open spec fn reserved_weight(size: u32) -> int {
    if size * WEIGHT_PER_BYTE > MIN_BLOCK_RESERVED_WEIGHT {
        size * WEIGHT_PER_BYTE
    } else {
        MIN_BLOCK_RESERVED_WEIGHT as int
    }
}

/// The options of the template that a monitor starts with: transactions from
/// the mempool, and room for the coinbase outputs that the caller announced.
/// The weight of these outputs must fit in 32 bits.
pub fn monitoring_options(
    coinbase_output_max_additional_size: u32,
    coinbase_output_max_additional_sigops: u16,
) -> (options: BlockCreateOptions)
    requires
        coinbase_output_max_additional_size * WEIGHT_PER_BYTE <= u32::MAX,
    ensures
        options.use_mempool,
        options.block_reserved_weight == reserved_weight(coinbase_output_max_additional_size),
        options.coinbase_output_max_additional_sigops == coinbase_output_max_additional_sigops,
{
    let coinbase_weight: u64 = (coinbase_output_max_additional_size * WEIGHT_PER_BYTE) as u64;
    let block_reserved_weight: u64 = if coinbase_weight > MIN_BLOCK_RESERVED_WEIGHT {
        coinbase_weight
    } else {
        MIN_BLOCK_RESERVED_WEIGHT
    };
    BlockCreateOptions {
        use_mempool: true,
        block_reserved_weight,
        coinbase_output_max_additional_sigops: coinbase_output_max_additional_sigops as u64,
    }
}

/// High-level client for Bitcoin Core's Mining interface.
///
/// Every method gives the command that asks the actor for what the method is
/// named after. `Tx` is the handle by which commands reach the actor.
pub struct MiningClient<Tx> {
    pub cmd_tx: Tx,
}

impl<Tx: Clone> Clone for MiningClient<Tx> {
    fn clone(&self) -> (copy: Self)
        ensures
            cloned(self.cmd_tx, copy.cmd_tx),
    {
        MiningClient { cmd_tx: self.cmd_tx.clone() }
    }
}

impl<Tx> MiningClient<Tx> {
    pub fn new(cmd_tx: Tx) -> (client: Self)
        ensures
            client.cmd_tx == cmd_tx,
    {
        MiningClient { cmd_tx }
    }

    /// Check if the node is running on testnet/regtest.
    pub fn is_test_chain(&self) -> (cmd: Command)
        ensures
            cmd == Command::MiningIsTestChain,
    {
        Command::MiningIsTestChain
    }

    /// Check if the node is still in Initial Block Download.
    pub fn is_initial_block_download(&self) -> (cmd: Command)
        ensures
            cmd == Command::MiningIsInitialBlockDownload,
    {
        Command::MiningIsInitialBlockDownload
    }

    /// Get the current chain tip.
    pub fn get_tip(&self) -> (cmd: Command)
        ensures
            cmd == Command::MiningGetTip,
    {
        Command::MiningGetTip
    }

    /// Wait for the chain tip to change from `current_tip`, with a timeout in
    /// seconds.
    pub fn wait_tip_changed(&self, current_tip: &[u8], timeout: Float64) -> (cmd: Command)
        ensures
            cmd matches Command::MiningWaitTipChanged { current_tip: tip, timeout: limit }
                && tip@ == current_tip@ && limit == timeout,
    {
        Command::MiningWaitTipChanged { current_tip: slice_to_vec(current_tip), timeout }
    }

    /// Create a new block template from the node.
    ///
    /// Updates the template for **all** active monitors.
    pub fn create_new_block(&self, options: &BlockCreateOptions) -> (cmd: Command)
        ensures
            cmd == (Command::MiningCreateNewBlock { options: *options }),
    {
        Command::MiningCreateNewBlock { options: *options }
    }

    /// Start tip change monitoring and create a block template handle.
    pub fn start_monitoring(
        &self,
        coinbase_output_max_additional_size: u32,
        coinbase_output_max_additional_sigops: u16,
    ) -> (cmd: Command)
        ensures
            cmd == (Command::MiningStartMonitoring {
                coinbase_output_max_additional_size,
                coinbase_output_max_additional_sigops,
            }),
    {
        Command::MiningStartMonitoring {
            coinbase_output_max_additional_size,
            coinbase_output_max_additional_sigops,
        }
    }
}

impl<Tx: Clone> MiningClient<Tx> {
    /// The result of a `start_monitoring` command: a client for the new
    /// monitor, which reaches the same actor, or the error of the call. `S`
    /// is the handle by which tip changes are subscribed to.
    pub fn monitoring_started<S>(&self, delivery: Delivery<(u64, S)>) -> (r: Result<
        MonitorClient<Tx, S>,
        BitcoinCapnpError,
    >)
        ensures
            match delivery.settled() {
                Ok((monitor_id, tip_change_tx)) => {
                    &&& r matches Ok(client)
                    &&& cloned(self.cmd_tx, client.cmd_tx)
                    &&& client.monitor_id == monitor_id
                    &&& client.tip_change_tx == tip_change_tx
                },
                Err(e) => r == Err::<MonitorClient<Tx, S>, BitcoinCapnpError>(e),
            },
    {
        match delivery.settle() {
            Ok((monitor_id, tip_change_tx)) => Ok(
                MonitorClient { cmd_tx: self.cmd_tx.clone(), monitor_id, tip_change_tx },
            ),
            Err(e) => Err(e),
        }
    }
}

/// Handle for an active chain tip monitor and block template.
///
/// Every method gives the command that asks the actor for what the method is
/// named after, on behalf of this monitor.
pub struct MonitorClient<Tx, S> {
    pub cmd_tx: Tx,
    pub monitor_id: u64,
    pub tip_change_tx: S,
}

impl<Tx: Clone, S: Clone> Clone for MonitorClient<Tx, S> {
    fn clone(&self) -> (copy: Self)
        ensures
            cloned(self.cmd_tx, copy.cmd_tx),
            copy.monitor_id == self.monitor_id,
            cloned(self.tip_change_tx, copy.tip_change_tx),
    {
        MonitorClient {
            cmd_tx: self.cmd_tx.clone(),
            monitor_id: self.monitor_id,
            tip_change_tx: self.tip_change_tx.clone(),
        }
    }
}

impl<Tx, S> MonitorClient<Tx, S> {
    /// Fetch the current block template and coinbase from Bitcoin Core.
    pub fn fetch_block_template(&self) -> (cmd: Command)
        ensures
            cmd == (Command::MonitorFetchBlockTemplate { monitor_id: self.monitor_id }),
    {
        Command::MonitorFetchBlockTemplate { monitor_id: self.monitor_id }
    }

    /// Get the raw block header bytes (80 bytes).
    pub fn get_block_header(&self) -> (cmd: Command)
        ensures
            cmd == (Command::MonitorGetBlockHeader { monitor_id: self.monitor_id }),
    {
        Command::MonitorGetBlockHeader { monitor_id: self.monitor_id }
    }

    /// Get the raw block bytes (full serialized block).
    pub fn get_block(&self) -> (cmd: Command)
        ensures
            cmd == (Command::MonitorGetBlock { monitor_id: self.monitor_id }),
    {
        Command::MonitorGetBlock { monitor_id: self.monitor_id }
    }

    /// Get per-transaction fees for all transactions in the block template.
    pub fn get_tx_fees(&self) -> (cmd: Command)
        ensures
            cmd == (Command::MonitorGetTxFees { monitor_id: self.monitor_id }),
    {
        Command::MonitorGetTxFees { monitor_id: self.monitor_id }
    }

    /// Get per-transaction sigop counts for all transactions in the block
    /// template.
    pub fn get_tx_sigops(&self) -> (cmd: Command)
        ensures
            cmd == (Command::MonitorGetTxSigops { monitor_id: self.monitor_id }),
    {
        Command::MonitorGetTxSigops { monitor_id: self.monitor_id }
    }

    /// Get the serialized coinbase transaction.
    pub fn get_coinbase_tx(&self) -> (cmd: Command)
        ensures
            cmd == (Command::MonitorGetCoinbaseTx { monitor_id: self.monitor_id }),
    {
        Command::MonitorGetCoinbaseTx { monitor_id: self.monitor_id }
    }

    /// Get the witness commitment hash from the coinbase transaction.
    pub fn get_coinbase_commitment(&self) -> (cmd: Command)
        ensures
            cmd == (Command::MonitorGetCoinbaseCommitment { monitor_id: self.monitor_id }),
    {
        Command::MonitorGetCoinbaseCommitment { monitor_id: self.monitor_id }
    }

    /// Get the index of the witness commitment output in the coinbase.
    pub fn get_witness_commitment_index(&self) -> (cmd: Command)
        ensures
            cmd == (Command::MonitorGetWitnessCommitmentIndex { monitor_id: self.monitor_id }),
    {
        Command::MonitorGetWitnessCommitmentIndex { monitor_id: self.monitor_id }
    }

    /// Get the coinbase transaction's merkle proof path.
    pub fn get_coinbase_merkle_path(&self) -> (cmd: Command)
        ensures
            cmd == (Command::MonitorGetCoinbaseMerklePath { monitor_id: self.monitor_id }),
    {
        Command::MonitorGetCoinbaseMerklePath { monitor_id: self.monitor_id }
    }

    /// Submit a block solution to the node.
    pub fn submit_solution(
        &self,
        version: u32,
        timestamp: u32,
        nonce: u32,
        coinbase: &[u8],
    ) -> (cmd: Command)
        ensures
            cmd matches Command::MonitorSubmitSolution {
                monitor_id: id,
                version: v,
                timestamp: t,
                nonce: n,
                coinbase: tx,
            } && id == self.monitor_id && v == version && t == timestamp && n == nonce && tx@
                == coinbase@,
    {
        Command::MonitorSubmitSolution {
            monitor_id: self.monitor_id,
            version,
            timestamp,
            nonce,
            coinbase: slice_to_vec(coinbase),
        }
    }

    /// Wait for the block template to change (new transactions, new fee
    /// thresholds, etc). Updates this monitor's internal template.
    pub fn wait_next(&self, options: Option<&BlockWaitOptions>) -> (cmd: Command)
        ensures
            cmd matches Command::MonitorWaitNext { monitor_id: id, options: o } && id
                == self.monitor_id && match options {
                Some(given) => o == Some(*given),
                None => o is None,
            },
    {
        let options: Option<BlockWaitOptions> = match options {
            Some(given) => Some(*given),
            None => None,
        };
        Command::MonitorWaitNext { monitor_id: self.monitor_id, options }
    }
}

} // verus!
