//! The actor that owns all Cap'n Proto state, as a state machine.
//!
//! The actor takes one command at a time. [`Actor::handle`] says what the
//! command calls for first: a request to the node, or a reply straight away.
//! Once the exchange with the node is over, [`Actor::resume`] takes what came
//! of it, updates the monitors, and says what comes next.
//!
//! `C` is the handle of a capability: the client of an interface on the
//! node.

use std::collections::HashMap;

use vstd::prelude::*;

use crate::client::IntoCapnp;
use crate::error::BitcoinCapnpError;
use crate::extract::{
    BlockRefMarker, Bool, Bytes, DataList, Int64List, OptionBlockRef, Text, Unit,
};
use crate::mining::{BlockCreateOptions, BlockRef, BlockWaitOptions, monitoring_options};
use crate::wire::{
    BlockCreateOptionsBuilder, BlockRefReader, BlockWaitOptionsBuilder, Float64, Int64ListReader,
};

verus! {

/// How many tip changes are kept for a subscriber that lags behind.
pub const TIP_CHANGE_CAPACITY: usize = 16;

/// Commands sent from the public clients to the actor.
#[allow(inconsistent_fields)]
pub enum Command {
    MiningIsTestChain,
    MiningIsInitialBlockDownload,
    MiningGetTip,
    MiningWaitTipChanged { current_tip: Vec<u8>, timeout: Float64 },
    MiningCreateNewBlock { options: BlockCreateOptions },
    MiningStartMonitoring {
        coinbase_output_max_additional_size: u32,
        coinbase_output_max_additional_sigops: u16,
    },
    ChainGetHeight,
    EchoEcho { message: String },
    EchoDestroy,
    MonitorFetchBlockTemplate { monitor_id: u64 },
    MonitorGetBlockHeader { monitor_id: u64 },
    MonitorGetBlock { monitor_id: u64 },
    MonitorGetTxFees { monitor_id: u64 },
    MonitorGetTxSigops { monitor_id: u64 },
    MonitorGetCoinbaseTx { monitor_id: u64 },
    MonitorGetCoinbaseCommitment { monitor_id: u64 },
    MonitorGetWitnessCommitmentIndex { monitor_id: u64 },
    MonitorGetCoinbaseMerklePath { monitor_id: u64 },
    MonitorSubmitSolution {
        monitor_id: u64,
        version: u32,
        timestamp: u32,
        nonce: u32,
        coinbase: Vec<u8>,
    },
    MonitorWaitNext { monitor_id: u64, options: Option<BlockWaitOptions> },
}

impl Command {
    /// Whether the weight of the announced coinbase outputs fits in 32 bits.
    pub open spec fn in_range(self) -> bool {
        self matches Command::MiningStartMonitoring { coinbase_output_max_additional_size, .. }
            ==> coinbase_output_max_additional_size * crate::mining::WEIGHT_PER_BYTE <= u32::MAX
    }

    /// Whether `answer` is of the kind that the caller of this command
    /// expects. A new monitor is answered by [`Step::Watch`] instead.
    pub open spec fn expects(self, answer: Answer) -> bool {
        match self {
            Command::MiningIsTestChain => answer is Bool,
            Command::MiningIsInitialBlockDownload => answer is Bool,
            Command::MiningGetTip => answer is OptionBlockRef,
            Command::MiningWaitTipChanged { .. } => answer is BlockRef,
            Command::MiningCreateNewBlock { .. } => answer is Unit,
            Command::MiningStartMonitoring { .. } => false,
            Command::ChainGetHeight => false,
            Command::EchoEcho { .. } => answer is Text,
            Command::EchoDestroy => answer is Unit,
            Command::MonitorFetchBlockTemplate { .. } => answer is BlockAndCoinbase,
            Command::MonitorGetBlockHeader { .. } => answer is Bytes,
            Command::MonitorGetBlock { .. } => answer is Bytes,
            Command::MonitorGetTxFees { .. } => answer is Int64List,
            Command::MonitorGetTxSigops { .. } => answer is Int64List,
            Command::MonitorGetCoinbaseTx { .. } => answer is Bytes,
            Command::MonitorGetCoinbaseCommitment { .. } => answer is Bytes,
            Command::MonitorGetWitnessCommitmentIndex { .. } => answer is Int32,
            Command::MonitorGetCoinbaseMerklePath { .. } => answer is DataList,
            Command::MonitorSubmitSolution { .. } => answer is Bool,
            Command::MonitorWaitNext { .. } => answer is Unit,
        }
    }

    /// The monitor that the command is for, if it is for one.
    pub open spec fn monitor(self) -> Option<u64> {
        match self {
            Command::MonitorFetchBlockTemplate { monitor_id } => Some(monitor_id),
            Command::MonitorGetBlockHeader { monitor_id } => Some(monitor_id),
            Command::MonitorGetBlock { monitor_id } => Some(monitor_id),
            Command::MonitorGetTxFees { monitor_id } => Some(monitor_id),
            Command::MonitorGetTxSigops { monitor_id } => Some(monitor_id),
            Command::MonitorGetCoinbaseTx { monitor_id } => Some(monitor_id),
            Command::MonitorGetCoinbaseCommitment { monitor_id } => Some(monitor_id),
            Command::MonitorGetWitnessCommitmentIndex { monitor_id } => Some(monitor_id),
            Command::MonitorGetCoinbaseMerklePath { monitor_id } => Some(monitor_id),
            Command::MonitorSubmitSolution { monitor_id, .. } => Some(monitor_id),
            Command::MonitorWaitNext { monitor_id, .. } => Some(monitor_id),
            _ => None,
        }
    }
}

/// A method of the node's interfaces, with its parameters filled in.
#[allow(inconsistent_fields)]
pub enum Method {
    IsTestChain,
    IsInitialBlockDownload,
    GetTip,
    WaitTipChanged { current_tip: Vec<u8>, timeout: Float64 },
    CreateNewBlock { options: BlockCreateOptionsBuilder },
    Echo { message: String },
    Destroy,
    GetBlockHeader,
    GetBlock,
    GetTxFees,
    GetTxSigops,
    GetCoinbaseTx,
    GetCoinbaseCommitment,
    GetWitnessCommitmentIndex,
    GetCoinbaseMerklePath,
    SubmitSolution { version: u32, timestamp: u32, nonce: u32, coinbase: Vec<u8> },
    WaitNext { options: Option<BlockWaitOptionsBuilder> },
}

/// A call on the node: the capability it goes to, the server thread that its
/// context names, and the method.
pub struct Request<C> {
    pub target: C,
    pub thread: C,
    pub method: Method,
}

/// What the response to a request is for.
pub enum Pending<C> {
    Bool,
    OptionBlockRef,
    BlockRef,
    Bytes,
    Int64List,
    DataList,
    Int32,
    Text,
    Unit,
    /// A template for every monitor.
    CreateNewBlock,
    /// The first template of a new monitor.
    StartMonitoring,
    /// The next template of a monitor.
    WaitNext { monitor_id: u64 },
    /// The block bytes of `template`, to be followed by its coinbase.
    FetchBlock { template: C },
    /// The coinbase that goes with `block`.
    FetchCoinbase { block: Vec<u8> },
}

/// What came of one request.
pub enum Exchange<R> {
    /// The parameters could not be filled in; nothing was sent.
    NotSent(capnp::Error),
    /// The caller's cancellation token fired before the response came.
    Cancelled,
    /// The call failed.
    Failed(capnp::Error),
    /// The response came, and its results could not be read.
    Unreadable(capnp::Error),
    /// The response came with these results.
    Answered(R),
}

impl<R> Exchange<R> {
    /// The results, or the error that took their place.
    pub open spec fn outcome(self) -> Result<R, BitcoinCapnpError> {
        match self {
            Exchange::NotSent(e) => Err(BitcoinCapnpError::CapnpError(e)),
            Exchange::Cancelled => Err(BitcoinCapnpError::Cancelled),
            Exchange::Failed(e) => Err(BitcoinCapnpError::CapnpError(e)),
            Exchange::Unreadable(e) => Err(BitcoinCapnpError::CapnpError(e)),
            Exchange::Answered(results) => Ok(results),
        }
    }

    pub fn into_outcome(self) -> (r: Result<R, BitcoinCapnpError>)
        ensures
            r == self.outcome(),
    {
        match self {
            Exchange::NotSent(e) => Err(BitcoinCapnpError::from(e)),
            Exchange::Cancelled => Err(BitcoinCapnpError::Cancelled),
            Exchange::Failed(e) => Err(BitcoinCapnpError::from(e)),
            Exchange::Unreadable(e) => Err(BitcoinCapnpError::from(e)),
            Exchange::Answered(results) => Ok(results),
        }
    }
}

impl<C> Exchange<Result<C, capnp::Error>> {
    /// The capability that the results hold, or the error that took its
    /// place.
    pub open spec fn granted(self) -> Result<C, BitcoinCapnpError> {
        match self.outcome() {
            Ok(Ok(capability)) => Ok(capability),
            Ok(Err(e)) => Err(BitcoinCapnpError::CapnpError(e)),
            Err(e) => Err(e),
        }
    }

    pub fn into_capability(self) -> (r: Result<C, BitcoinCapnpError>)
        ensures
            r == self.granted(),
    {
        match self.into_outcome() {
            Ok(Ok(capability)) => Ok(capability),
            Ok(Err(e)) => Err(BitcoinCapnpError::from(e)),
            Err(e) => Err(e),
        }
    }
}

/// What came of the request that was pending, by what it was pending for.
#[allow(inconsistent_fields)]
pub enum Completion<'a, C> {
    Bool(Exchange<bool>),
    OptionBlockRef(Exchange<OptionBlockRef>),
    BlockRef(Exchange<Result<BlockRefReader, capnp::Error>>),
    Bytes(Exchange<Result<&'a [u8], capnp::Error>>),
    Int64List(Exchange<Result<Int64ListReader<'a>, capnp::Error>>),
    DataList(Exchange<Result<capnp::data_list::Reader<'a>, capnp::Error>>),
    Int32(Exchange<i32>),
    Text(Exchange<Result<capnp::text::Reader<'a>, capnp::Error>>),
    Unit(Exchange<()>),
    CreateNewBlock(Exchange<Result<C, capnp::Error>>),
    StartMonitoring(Exchange<Result<C, capnp::Error>>),
    WaitNext { monitor_id: u64, exchange: Exchange<Result<C, capnp::Error>> },
    FetchBlock { template: C, exchange: Exchange<Result<&'a [u8], capnp::Error>> },
    FetchCoinbase { block: Vec<u8>, exchange: Exchange<Result<&'a [u8], capnp::Error>> },
}

impl<'a, C> Completion<'a, C> {
    /// Whether every block hash that has to be read can be read.
    pub open spec fn readable(self) -> bool {
        match self {
            Completion::OptionBlockRef(exchange) => exchange.outcome() matches Ok(results)
                ==> results.readable(),
            Completion::BlockRef(exchange) => exchange.outcome() matches Ok(result)
                ==> BlockRefMarker::readable(result),
            _ => true,
        }
    }

    /// Whether this registers a new monitor.
    pub open spec fn starts_monitor(self) -> bool {
        self matches Completion::StartMonitoring(exchange) && exchange.granted() is Ok
    }

    /// Whether this is what came of the request that was pending for
    /// `pending`.
    pub open spec fn completes(self, pending: Pending<C>) -> bool {
        match (pending, self) {
            (Pending::Bool, Completion::Bool(_)) => true,
            (Pending::OptionBlockRef, Completion::OptionBlockRef(_)) => true,
            (Pending::BlockRef, Completion::BlockRef(_)) => true,
            (Pending::Bytes, Completion::Bytes(_)) => true,
            (Pending::Int64List, Completion::Int64List(_)) => true,
            (Pending::DataList, Completion::DataList(_)) => true,
            (Pending::Int32, Completion::Int32(_)) => true,
            (Pending::Text, Completion::Text(_)) => true,
            (Pending::Unit, Completion::Unit(_)) => true,
            (Pending::CreateNewBlock, Completion::CreateNewBlock(_)) => true,
            (Pending::StartMonitoring, Completion::StartMonitoring(_)) => true,
            (
                Pending::WaitNext { monitor_id },
                Completion::WaitNext { monitor_id: id, .. },
            ) => monitor_id == id,
            (
                Pending::FetchBlock { template },
                Completion::FetchBlock { template: t, .. },
            ) => template == t,
            (
                Pending::FetchCoinbase { block },
                Completion::FetchCoinbase { block: b, .. },
            ) => block == b,
            _ => false,
        }
    }

    /// `reply` is what these results say, or the error that took their place.
    /// Said of the completions that end a command without touching a monitor.
    pub open spec fn answered_by(self, reply: Result<Answer, BitcoinCapnpError>) -> bool {
        match self {
            Completion::Bool(exchange) => match (exchange.outcome(), reply) {
                (Ok(b), Ok(Answer::Bool(a))) => a == b,
                (Err(e), Err(f)) => f == e,
                _ => false,
            },
            Completion::OptionBlockRef(exchange) => match (exchange.outcome(), reply) {
                (Ok(results), Ok(Answer::OptionBlockRef(block))) => results.extracts(Ok(block)),
                (Ok(results), Err(f)) => results.extracts(Err(f)),
                (Err(e), Err(f)) => f == e,
                _ => false,
            },
            Completion::BlockRef(exchange) => match (exchange.outcome(), reply) {
                (Ok(result), Ok(Answer::BlockRef(block))) => BlockRefMarker::extracts(
                    result,
                    Ok(block),
                ),
                (Ok(result), Err(f)) => BlockRefMarker::extracts(result, Err(f)),
                (Err(e), Err(f)) => f == e,
                _ => false,
            },
            Completion::Bytes(exchange) => match (exchange.outcome(), reply) {
                (Ok(result), Ok(Answer::Bytes(bytes))) => Bytes::extracts(result, Ok(bytes)),
                (Ok(result), Err(f)) => Bytes::extracts(result, Err(f)),
                (Err(e), Err(f)) => f == e,
                _ => false,
            },
            Completion::Int64List(exchange) => match (exchange.outcome(), reply) {
                (Ok(result), Ok(Answer::Int64List(items))) => Int64List::extracts(
                    result,
                    Ok(items),
                ),
                (Ok(result), Err(f)) => Int64List::extracts(result, Err(f)),
                (Err(e), Err(f)) => f == e,
                _ => false,
            },
            Completion::DataList(exchange) => match (exchange.outcome(), reply) {
                (Ok(result), Ok(Answer::DataList(items))) => DataList::extracts(result, Ok(items)),
                (Ok(result), Err(f)) => DataList::extracts(result, Err(f)),
                (Err(e), Err(f)) => f == e,
                _ => false,
            },
            Completion::Int32(exchange) => match (exchange.outcome(), reply) {
                (Ok(i), Ok(Answer::Int32(a))) => a == i,
                (Err(e), Err(f)) => f == e,
                _ => false,
            },
            Completion::Text(exchange) => match (exchange.outcome(), reply) {
                (Ok(result), Ok(Answer::Text(text))) => Text::extracts(result, Ok(text)),
                (Ok(result), Err(f)) => Text::extracts(result, Err(f)),
                (Err(e), Err(f)) => f == e,
                _ => false,
            },
            Completion::Unit(exchange) => match (exchange.outcome(), reply) {
                (Ok(_), Ok(Answer::Unit)) => true,
                (Err(e), Err(f)) => f == e,
                _ => false,
            },
            Completion::FetchCoinbase { block, exchange } => match (exchange.outcome(), reply) {
                (Ok(result), Ok(Answer::BlockAndCoinbase { block: b, coinbase })) => b == block
                    && Bytes::extracts(result, Ok(coinbase)),
                (Ok(result), Err(f)) => Bytes::extracts(result, Err(f)),
                (Err(e), Err(f)) => f == e,
                _ => false,
            },
            _ => false,
        }
    }

    /// The error of the exchange with the node, if it failed.
    pub open spec fn failure(self) -> Option<BitcoinCapnpError> {
        match self {
            Completion::Bool(exchange) => error_of(exchange.outcome()),
            Completion::OptionBlockRef(exchange) => error_of(exchange.outcome()),
            Completion::BlockRef(exchange) => error_of(exchange.granted()),
            Completion::Bytes(exchange) => error_of(exchange.granted()),
            Completion::Int64List(exchange) => error_of(exchange.granted()),
            Completion::DataList(exchange) => error_of(exchange.granted()),
            Completion::Int32(exchange) => error_of(exchange.outcome()),
            Completion::Text(exchange) => error_of(exchange.granted()),
            Completion::Unit(exchange) => error_of(exchange.outcome()),
            Completion::CreateNewBlock(exchange) => error_of(exchange.granted()),
            Completion::StartMonitoring(exchange) => error_of(exchange.granted()),
            Completion::WaitNext { exchange, .. } => error_of(exchange.granted()),
            Completion::FetchBlock { exchange, .. } => error_of(exchange.granted()),
            Completion::FetchCoinbase { exchange, .. } => error_of(exchange.granted()),
        }
    }
}

/// The error of a result, if it is one.
pub open spec fn error_of<T>(r: Result<T, BitcoinCapnpError>) -> Option<BitcoinCapnpError> {
    match r {
        Ok(_) => None,
        Err(e) => Some(e),
    }
}

/// What a command that succeeded is answered with.
pub enum Answer {
    Bool(bool),
    OptionBlockRef(Option<BlockRef>),
    BlockRef(BlockRef),
    Bytes(Vec<u8>),
    Int64List(Vec<i64>),
    DataList(Vec<Vec<u8>>),
    Int32(i32),
    Text(String),
    Unit,
    BlockAndCoinbase { block: Vec<u8>, coinbase: Vec<u8> },
}

/// What the actor does next about a command.
pub enum Step<C> {
    /// Send `request` and wait for what comes of it. `cancellable` says
    /// whether the caller's cancellation token ends the wait.
    Send { request: Request<C>, cancellable: bool, pending: Pending<C> },
    /// Deliver the reply: the command is done.
    Deliver(Result<Answer, BitcoinCapnpError>),
    /// Watch the chain tip on behalf of the new monitor `monitor_id`, through
    /// `mining` and in the context of `thread`, and deliver its id: the
    /// command is done.
    Watch { monitor_id: u64, mining: C, thread: C },
    /// Drop the command without a reply.
    Drop,
}

/// What the actor keeps of one monitor.
pub struct MonitorState<C> {
    /// The monitor's current block template.
    pub template_ipc_client: C,
}

/// The capabilities that the actor obtained from the node, and its monitors.
pub struct Actor<C> {
    pub mining_ipc_client: C,
    pub thread_ipc_client: C,
    pub echo_ipc_client: C,
    pub monitors: HashMap<u64, MonitorState<C>>,
    pub next_monitor_id: u64,
}

impl<C: Clone> Actor<C> {
    /// Ids are handed out from 1 upwards, and every id that was handed out
    /// has its monitor.
    pub open spec fn wf(self) -> bool {
        &&& self.next_monitor_id >= 1
        &&& forall|id: u64|
            #[trigger] self.monitors@.contains_key(id) <==> 1 <= id < self.next_monitor_id
    }

    /// The current template of monitor `id`.
    pub open spec fn template(self, id: u64) -> C {
        self.monitors@[id].template_ipc_client
    }

    /// `step` calls `method` on `target`, in the context of the actor's
    /// server thread.
    pub open spec fn calls(
        self,
        step: Step<C>,
        target: C,
        method: Method,
        cancellable: bool,
        pending: Pending<C>,
    ) -> bool {
        &&& step matches Step::Send { request, cancellable: c, pending: p }
        &&& cloned(target, request.target)
        &&& cloned(self.thread_ipc_client, request.thread)
        &&& request.method == method
        &&& c == cancellable
        &&& p == pending
    }

    /// `step` calls `method` on the current template of monitor `id`, or
    /// replies that there is no such monitor.
    pub open spec fn calls_template(
        self,
        step: Step<C>,
        id: u64,
        method: Method,
        pending: Pending<C>,
    ) -> bool {
        if self.monitors@.contains_key(id) {
            self.calls(step, self.template(id), method, false, pending)
        } else {
            step == Step::<C>::Deliver(Err(BitcoinCapnpError::MonitorNotFound(id)))
        }
    }

    /// `step` is how the actor sets out on `cmd`.
    pub open spec fn handles(self, cmd: Command, step: Step<C>) -> bool {
        match cmd {
            Command::MiningIsTestChain => self.calls(
                step,
                self.mining_ipc_client,
                Method::IsTestChain,
                false,
                Pending::Bool,
            ),
            Command::MiningIsInitialBlockDownload => self.calls(
                step,
                self.mining_ipc_client,
                Method::IsInitialBlockDownload,
                false,
                Pending::Bool,
            ),
            Command::MiningGetTip => self.calls(
                step,
                self.mining_ipc_client,
                Method::GetTip,
                false,
                Pending::OptionBlockRef,
            ),
            Command::MiningWaitTipChanged { current_tip, timeout } => self.calls(
                step,
                self.mining_ipc_client,
                Method::WaitTipChanged { current_tip, timeout },
                false,
                Pending::BlockRef,
            ),
            Command::MiningCreateNewBlock { options } => self.calls(
                step,
                self.mining_ipc_client,
                Method::CreateNewBlock { options: filled_create_options(options) },
                false,
                Pending::CreateNewBlock,
            ),
            Command::MiningStartMonitoring {
                coinbase_output_max_additional_size,
                coinbase_output_max_additional_sigops,
            } => self.calls(
                step,
                self.mining_ipc_client,
                Method::CreateNewBlock {
                    options: BlockCreateOptionsBuilder {
                        use_mempool: true,
                        block_reserved_weight: crate::mining::reserved_weight(
                            coinbase_output_max_additional_size,
                        ) as u64,
                        coinbase_output_max_additional_sigops:
                            coinbase_output_max_additional_sigops as u64,
                    },
                },
                false,
                Pending::StartMonitoring,
            ),
            Command::ChainGetHeight => step == Step::<C>::Drop,
            Command::EchoEcho { message } => self.calls(
                step,
                self.echo_ipc_client,
                Method::Echo { message },
                true,
                Pending::Text,
            ),
            Command::EchoDestroy => self.calls(
                step,
                self.echo_ipc_client,
                Method::Destroy,
                false,
                Pending::Unit,
            ),
            Command::MonitorFetchBlockTemplate { monitor_id } => {
                if self.monitors@.contains_key(monitor_id) {
                    &&& step matches Step::Send { request, cancellable, pending }
                    &&& cloned(self.template(monitor_id), request.target)
                    &&& cloned(self.thread_ipc_client, request.thread)
                    &&& request.method == Method::GetBlock
                    &&& !cancellable
                    &&& pending matches Pending::FetchBlock { template }
                    &&& cloned(self.template(monitor_id), template)
                } else {
                    step == Step::<C>::Deliver(Err(BitcoinCapnpError::MonitorNotFound(monitor_id)))
                }
            },
            Command::MonitorGetBlockHeader { monitor_id } => self.calls_template(
                step,
                monitor_id,
                Method::GetBlockHeader,
                Pending::Bytes,
            ),
            Command::MonitorGetBlock { monitor_id } => self.calls_template(
                step,
                monitor_id,
                Method::GetBlock,
                Pending::Bytes,
            ),
            Command::MonitorGetTxFees { monitor_id } => self.calls_template(
                step,
                monitor_id,
                Method::GetTxFees,
                Pending::Int64List,
            ),
            Command::MonitorGetTxSigops { monitor_id } => self.calls_template(
                step,
                monitor_id,
                Method::GetTxSigops,
                Pending::Int64List,
            ),
            Command::MonitorGetCoinbaseTx { monitor_id } => self.calls_template(
                step,
                monitor_id,
                Method::GetCoinbaseTx,
                Pending::Bytes,
            ),
            Command::MonitorGetCoinbaseCommitment { monitor_id } => self.calls_template(
                step,
                monitor_id,
                Method::GetCoinbaseCommitment,
                Pending::Bytes,
            ),
            Command::MonitorGetWitnessCommitmentIndex { monitor_id } => self.calls_template(
                step,
                monitor_id,
                Method::GetWitnessCommitmentIndex,
                Pending::Int32,
            ),
            Command::MonitorGetCoinbaseMerklePath { monitor_id } => self.calls_template(
                step,
                monitor_id,
                Method::GetCoinbaseMerklePath,
                Pending::DataList,
            ),
            Command::MonitorSubmitSolution {
                monitor_id,
                version,
                timestamp,
                nonce,
                coinbase,
            } => self.calls_template(
                step,
                monitor_id,
                Method::SubmitSolution { version, timestamp, nonce, coinbase },
                Pending::Bool,
            ),
            Command::MonitorWaitNext { monitor_id, options } => self.calls_template(
                step,
                monitor_id,
                Method::WaitNext { options: filled_wait_options(options) },
                Pending::WaitNext { monitor_id },
            ),
        }
    }

    /// `self` with a clone of `template` as the template of every monitor,
    /// and nothing else changed.
    pub open spec fn retemplated(self, template: C, after: Self) -> bool {
        &&& after.mining_ipc_client == self.mining_ipc_client
        &&& after.thread_ipc_client == self.thread_ipc_client
        &&& after.echo_ipc_client == self.echo_ipc_client
        &&& after.next_monitor_id == self.next_monitor_id
        &&& after.monitors@.dom() == self.monitors@.dom()
        &&& forall|id: u64| #[trigger]
            after.monitors@.contains_key(id) ==> cloned(template, after.template(id))
    }

    /// `self` with `template` as the template of monitor `id`, ids from
    /// `next` on free, and nothing else changed.
    pub open spec fn with_template(self, id: u64, template: C, next: u64, after: Self) -> bool {
        &&& after.mining_ipc_client == self.mining_ipc_client
        &&& after.thread_ipc_client == self.thread_ipc_client
        &&& after.echo_ipc_client == self.echo_ipc_client
        &&& after.next_monitor_id == next
        &&& after.monitors@ == self.monitors@.insert(
            id,
            MonitorState { template_ipc_client: template },
        )
    }

    /// From `self`, the completion of a request leads to `after` and `step`.
    pub open spec fn resumes(
        self,
        completion: Completion<'_, C>,
        after: Self,
        step: Step<C>,
    ) -> bool {
        match completion {
            Completion::CreateNewBlock(exchange) => match exchange.granted() {
                Ok(template) => {
                    &&& self.retemplated(template, after)
                    &&& step == Step::<C>::Deliver(Ok(Answer::Unit))
                },
                Err(e) => after == self && step == Step::<C>::Deliver(Err(e)),
            },
            Completion::StartMonitoring(exchange) => match exchange.granted() {
                Ok(template) => {
                    &&& self.with_template(
                        self.next_monitor_id,
                        template,
                        (self.next_monitor_id + 1) as u64,
                        after,
                    )
                    &&& step matches Step::Watch { monitor_id, mining, thread }
                    &&& monitor_id == self.next_monitor_id
                    &&& cloned(self.mining_ipc_client, mining)
                    &&& cloned(self.thread_ipc_client, thread)
                },
                Err(e) => after == self && step == Step::<C>::Deliver(Err(e)),
            },
            Completion::WaitNext { monitor_id, exchange } => match exchange.granted() {
                Ok(template) => if self.monitors@.contains_key(monitor_id) {
                    &&& self.with_template(monitor_id, template, self.next_monitor_id, after)
                    &&& step == Step::<C>::Deliver(Ok(Answer::Unit))
                } else {
                    &&& after == self
                    &&& step == Step::<C>::Deliver(
                        Err(BitcoinCapnpError::MonitorNotFound(monitor_id)),
                    )
                },
                Err(e) => after == self && step == Step::<C>::Deliver(Err(e)),
            },
            Completion::FetchBlock { template, exchange } => {
                &&& after == self
                &&& match exchange.granted() {
                    Ok(block) => {
                        &&& step matches Step::Send { request, cancellable, pending }
                        &&& request.target == template
                        &&& cloned(self.thread_ipc_client, request.thread)
                        &&& request.method == Method::GetCoinbaseTx
                        &&& !cancellable
                        &&& pending matches Pending::FetchCoinbase { block: b }
                        &&& b@ == block@
                    },
                    Err(e) => step == Step::<C>::Deliver(Err(e)),
                }
            },
            _ => {
                &&& after == self
                &&& step matches Step::Deliver(reply)
                &&& completion.answered_by(reply)
            },
        }
    }

    /// Sets out on a command.
    pub fn handle(&self, cmd: Command) -> (step: Step<C>)
        requires
            cmd.in_range(),
        ensures
            self.handles(cmd, step),
    {
        match cmd {
            Command::MiningIsTestChain => self.call_mining(Method::IsTestChain, Pending::Bool),
            Command::MiningIsInitialBlockDownload => self.call_mining(
                Method::IsInitialBlockDownload,
                Pending::Bool,
            ),
            Command::MiningGetTip => self.call_mining(Method::GetTip, Pending::OptionBlockRef),
            Command::MiningWaitTipChanged { current_tip, timeout } => self.call_mining(
                Method::WaitTipChanged { current_tip, timeout },
                Pending::BlockRef,
            ),
            Command::MiningCreateNewBlock { options } => {
                let mut filled = BlockCreateOptionsBuilder::new();
                options.apply(&mut filled);
                self.call_mining(Method::CreateNewBlock { options: filled }, Pending::CreateNewBlock)
            },
            Command::MiningStartMonitoring {
                coinbase_output_max_additional_size,
                coinbase_output_max_additional_sigops,
            } => {
                let options = monitoring_options(
                    coinbase_output_max_additional_size,
                    coinbase_output_max_additional_sigops,
                );
                let mut filled = BlockCreateOptionsBuilder::new();
                options.apply(&mut filled);
                self.call_mining(
                    Method::CreateNewBlock { options: filled },
                    Pending::StartMonitoring,
                )
            },
            Command::ChainGetHeight => Step::Drop,
            Command::EchoEcho { message } => self.call_echo(
                Method::Echo { message },
                true,
                Pending::Text,
            ),
            Command::EchoDestroy => self.call_echo(Method::Destroy, false, Pending::Unit),
            Command::MonitorFetchBlockTemplate { monitor_id } => {
                match self.monitors.get(&monitor_id) {
                    Some(state) => {
                        let template = state.template_ipc_client.clone();
                        self.call_template(
                            monitor_id,
                            Method::GetBlock,
                            Pending::FetchBlock { template },
                        )
                    },
                    None => Step::Deliver(Err(BitcoinCapnpError::MonitorNotFound(monitor_id))),
                }
            },
            Command::MonitorGetBlockHeader { monitor_id } => self.call_template(
                monitor_id,
                Method::GetBlockHeader,
                Pending::Bytes,
            ),
            Command::MonitorGetBlock { monitor_id } => self.call_template(
                monitor_id,
                Method::GetBlock,
                Pending::Bytes,
            ),
            Command::MonitorGetTxFees { monitor_id } => self.call_template(
                monitor_id,
                Method::GetTxFees,
                Pending::Int64List,
            ),
            Command::MonitorGetTxSigops { monitor_id } => self.call_template(
                monitor_id,
                Method::GetTxSigops,
                Pending::Int64List,
            ),
            Command::MonitorGetCoinbaseTx { monitor_id } => self.call_template(
                monitor_id,
                Method::GetCoinbaseTx,
                Pending::Bytes,
            ),
            Command::MonitorGetCoinbaseCommitment { monitor_id } => self.call_template(
                monitor_id,
                Method::GetCoinbaseCommitment,
                Pending::Bytes,
            ),
            Command::MonitorGetWitnessCommitmentIndex { monitor_id } => self.call_template(
                monitor_id,
                Method::GetWitnessCommitmentIndex,
                Pending::Int32,
            ),
            Command::MonitorGetCoinbaseMerklePath { monitor_id } => self.call_template(
                monitor_id,
                Method::GetCoinbaseMerklePath,
                Pending::DataList,
            ),
            Command::MonitorSubmitSolution {
                monitor_id,
                version,
                timestamp,
                nonce,
                coinbase,
            } => self.call_template(
                monitor_id,
                Method::SubmitSolution { version, timestamp, nonce, coinbase },
                Pending::Bool,
            ),
            Command::MonitorWaitNext { monitor_id, options } => {
                let filled: Option<BlockWaitOptionsBuilder> = match options {
                    Some(o) => {
                        let mut filled = BlockWaitOptionsBuilder::new();
                        o.apply(&mut filled);
                        Some(filled)
                    },
                    None => None,
                };
                self.call_template(
                    monitor_id,
                    Method::WaitNext { options: filled },
                    Pending::WaitNext { monitor_id },
                )
            },
        }
    }

    /// A call on the Mining interface.
    fn call_mining(&self, method: Method, pending: Pending<C>) -> (step: Step<C>)
        ensures
            self.calls(step, self.mining_ipc_client, method, false, pending),
    {
        let request = Request {
            target: self.mining_ipc_client.clone(),
            thread: self.thread_ipc_client.clone(),
            method,
        };
        Step::Send { request, cancellable: false, pending }
    }

    /// A call on the Echo interface.
    fn call_echo(&self, method: Method, cancellable: bool, pending: Pending<C>) -> (step: Step<C>)
        ensures
            self.calls(step, self.echo_ipc_client, method, cancellable, pending),
    {
        let request = Request {
            target: self.echo_ipc_client.clone(),
            thread: self.thread_ipc_client.clone(),
            method,
        };
        Step::Send { request, cancellable, pending }
    }

    /// A call on the current template of a monitor, if there is such a
    /// monitor.
    fn call_template(&self, monitor_id: u64, method: Method, pending: Pending<C>) -> (step: Step<C>)
        ensures
            self.calls_template(step, monitor_id, method, pending),
    {
        match self.monitors.get(&monitor_id) {
            Some(state) => {
                let request = Request {
                    target: state.template_ipc_client.clone(),
                    thread: self.thread_ipc_client.clone(),
                    method,
                };
                Step::Send { request, cancellable: false, pending }
            },
            None => Step::Deliver(Err(BitcoinCapnpError::MonitorNotFound(monitor_id))),
        }
    }

    /// Takes what came of a request. A new monitor needs an id that is still
    /// free.
    pub fn resume(&mut self, completion: Completion<'_, C>) -> (step: Step<C>)
        requires
            old(self).wf(),
            completion.readable(),
            completion.starts_monitor() ==> old(self).next_monitor_id < u64::MAX,
        ensures
            final(self).wf(),
            old(self).resumes(completion, *final(self), step),
    {
        match completion {
            Completion::Bool(exchange) => Step::Deliver(
                match exchange.into_outcome() {
                    Ok(result) => match Bool::extract(result) {
                        Ok(b) => Ok(Answer::Bool(b)),
                        Err(e) => Err(e),
                    },
                    Err(e) => Err(e),
                },
            ),
            Completion::OptionBlockRef(exchange) => Step::Deliver(
                match exchange.into_outcome() {
                    Ok(results) => match results.extract() {
                        Ok(block) => Ok(Answer::OptionBlockRef(block)),
                        Err(e) => Err(e),
                    },
                    Err(e) => Err(e),
                },
            ),
            Completion::BlockRef(exchange) => Step::Deliver(
                match exchange.into_outcome() {
                    Ok(result) => match BlockRefMarker::extract(result) {
                        Ok(block) => Ok(Answer::BlockRef(block)),
                        Err(e) => Err(e),
                    },
                    Err(e) => Err(e),
                },
            ),
            Completion::Bytes(exchange) => Step::Deliver(
                match exchange.into_outcome() {
                    Ok(result) => match Bytes::extract(result) {
                        Ok(bytes) => Ok(Answer::Bytes(bytes)),
                        Err(e) => Err(e),
                    },
                    Err(e) => Err(e),
                },
            ),
            Completion::Int64List(exchange) => Step::Deliver(
                match exchange.into_outcome() {
                    Ok(result) => match Int64List::extract(result) {
                        Ok(items) => Ok(Answer::Int64List(items)),
                        Err(e) => Err(e),
                    },
                    Err(e) => Err(e),
                },
            ),
            Completion::DataList(exchange) => Step::Deliver(
                match exchange.into_outcome() {
                    Ok(result) => match DataList::extract(result) {
                        Ok(items) => Ok(Answer::DataList(items)),
                        Err(e) => Err(e),
                    },
                    Err(e) => Err(e),
                },
            ),
            Completion::Int32(exchange) => Step::Deliver(
                match exchange.into_outcome() {
                    Ok(i) => Ok(Answer::Int32(i)),
                    Err(e) => Err(e),
                },
            ),
            Completion::Text(exchange) => Step::Deliver(
                match exchange.into_outcome() {
                    Ok(result) => match Text::extract(result) {
                        Ok(text) => Ok(Answer::Text(text)),
                        Err(e) => Err(e),
                    },
                    Err(e) => Err(e),
                },
            ),
            Completion::Unit(exchange) => Step::Deliver(
                match exchange.into_outcome() {
                    Ok(result) => match Unit::extract(result) {
                        Ok(()) => Ok(Answer::Unit),
                        Err(e) => Err(e),
                    },
                    Err(e) => Err(e),
                },
            ),
            Completion::CreateNewBlock(exchange) => match exchange.into_capability() {
                Ok(template) => {
                    self.set_all_templates(&template);
                    Step::Deliver(Ok(Answer::Unit))
                },
                Err(e) => Step::Deliver(Err(e)),
            },
            Completion::StartMonitoring(exchange) => match exchange.into_capability() {
                Ok(template) => {
                    let id: u64 = self.next_monitor_id;
                    self.next_monitor_id = id + 1;
                    self.monitors.insert(id, MonitorState { template_ipc_client: template });
                    Step::Watch {
                        monitor_id: id,
                        mining: self.mining_ipc_client.clone(),
                        thread: self.thread_ipc_client.clone(),
                    }
                },
                Err(e) => Step::Deliver(Err(e)),
            },
            Completion::WaitNext { monitor_id, exchange } => match exchange.into_capability() {
                Ok(template) => if self.monitors.contains_key(&monitor_id) {
                    self.monitors.insert(monitor_id, MonitorState { template_ipc_client: template });
                    Step::Deliver(Ok(Answer::Unit))
                } else {
                    Step::Deliver(Err(BitcoinCapnpError::MonitorNotFound(monitor_id)))
                },
                Err(e) => Step::Deliver(Err(e)),
            },
            Completion::FetchBlock { template, exchange } => match exchange.into_outcome() {
                Ok(result) => match Bytes::extract(result) {
                    Ok(block) => {
                        let request = Request {
                            target: template,
                            thread: self.thread_ipc_client.clone(),
                            method: Method::GetCoinbaseTx,
                        };
                        Step::Send {
                            request,
                            cancellable: false,
                            pending: Pending::FetchCoinbase { block },
                        }
                    },
                    Err(e) => Step::Deliver(Err(e)),
                },
                Err(e) => Step::Deliver(Err(e)),
            },
            Completion::FetchCoinbase { block, exchange } => Step::Deliver(
                match exchange.into_outcome() {
                    Ok(result) => match Bytes::extract(result) {
                        Ok(coinbase) => Ok(Answer::BlockAndCoinbase { block, coinbase }),
                        Err(e) => Err(e),
                    },
                    Err(e) => Err(e),
                },
            ),
        }
    }

    /// Gives every monitor a clone of `template`.
    fn set_all_templates(&mut self, template: &C)
        ensures
            old(self).retemplated(*template, *final(self)),
    {
        let mut monitors: HashMap<u64, MonitorState<C>> = HashMap::new();
        let ghost ids = vstd::std_specs::iter::IteratorSpec::remaining(
            &vstd::std_specs::hash::spec_keys_iter(&self.monitors),
        );
        assert forall|k: u64| #[trigger]
            self.monitors@.contains_key(k) <==> exists|i: int|
                0 <= i < ids.len() && *(#[trigger] ids[i]) == k by {
            assert(ids.unref().to_set().contains(k) <==> self.monitors@.dom().contains(k));
            if self.monitors@.contains_key(k) {
                let i = choose|i: int| 0 <= i < ids.unref().len() && ids.unref()[i] == k;
                assert(*ids[i] == k);
            }
            if exists|i: int| 0 <= i < ids.len() && *(#[trigger] ids[i]) == k {
                let i = choose|i: int| 0 <= i < ids.len() && *(#[trigger] ids[i]) == k;
                assert(ids.unref()[i] == k);
            }
        }
        for id in it: self.monitors.keys()
            invariant
                it.seq() == ids,
                forall|k: u64| #[trigger] monitors@.contains_key(k) ==> cloned(
                    *template,
                    monitors@[k].template_ipc_client,
                ),
                forall|k: u64| #[trigger]
                    monitors@.contains_key(k) <==> exists|i: int|
                        0 <= i < it.index() && *(#[trigger] it.seq()[i]) == k,
        {
            monitors.insert(*id, MonitorState { template_ipc_client: template.clone() });
        }
        self.monitors = monitors;
        assert(self.monitors@.dom() =~= old(self).monitors@.dom());
    }
}

/// Block creation options as set in a request.
pub open spec fn filled_create_options(options: BlockCreateOptions) -> BlockCreateOptionsBuilder {
    options.applied(BlockCreateOptionsBuilder::zeroed())
}

/// Block wait options as set in a request: left out where there are none.
pub open spec fn filled_wait_options(options: Option<BlockWaitOptions>) -> Option<
    BlockWaitOptionsBuilder,
> {
    match options {
        Some(o) => Some(o.applied(BlockWaitOptionsBuilder::zeroed())),
        None => None,
    }
}

} // verus!
