//! What each operation asks of the node: from the call of a client's method to
//! the request that is sent.

use vstd::prelude::*;

use crate::actor::{Actor, Command, Method, Pending, Step};
use crate::chain::ChainClient;
use crate::echo::EchoClient;
use crate::error::BitcoinCapnpError;
use crate::mining::{BlockCreateOptions, BlockWaitOptions, MiningClient, MonitorClient};
use crate::wire::Float64;

verus! {

/// `step` sends a call to a clone of `target`, in the context of a clone of
/// `thread`.
pub open spec fn sent_to<C: Clone>(step: Step<C>, target: C, thread: C) -> bool {
    &&& step matches Step::Send { request, .. }
    &&& cloned(target, request.target)
    &&& cloned(thread, request.thread)
}

/// `step` sends a call to the current template of monitor `id`.
pub open spec fn sent_to_template<C: Clone>(actor: Actor<C>, id: u64, step: Step<C>) -> bool {
    sent_to(step, actor.monitors@[id].template_ipc_client, actor.thread_ipc_client)
}

/// `step` replies that there is no monitor `id`.
pub open spec fn refused<C>(id: u64, step: Step<C>) -> bool {
    step == Step::<C>::Deliver(Err(BitcoinCapnpError::MonitorNotFound(id)))
}

/// Asking for the kind of chain asks the Mining interface just that.
pub proof fn test_chain_queries_are_sent<Tx, C: Clone>(
    client: MiningClient<Tx>,
    cmd: Command,
    actor: Actor<C>,
    step: Step<C>,
)
    requires
        call_ensures(MiningClient::<Tx>::is_test_chain, (&client,), cmd),
        call_ensures(Actor::<C>::handle, (&actor, cmd), step),
    ensures
        sent_to(step, actor.mining_ipc_client, actor.thread_ipc_client),
        step matches Step::Send { request, cancellable, pending } && {
            &&& request.method is IsTestChain
            &&& !cancellable
            &&& pending is Bool
        },
{
}

/// Asking for the initial block download asks the Mining interface just that.
pub proof fn download_queries_are_sent<Tx, C: Clone>(
    client: MiningClient<Tx>,
    cmd: Command,
    actor: Actor<C>,
    step: Step<C>,
)
    requires
        call_ensures(MiningClient::<Tx>::is_initial_block_download, (&client,), cmd),
        call_ensures(Actor::<C>::handle, (&actor, cmd), step),
    ensures
        sent_to(step, actor.mining_ipc_client, actor.thread_ipc_client),
        step matches Step::Send { request, cancellable, pending } && {
            &&& request.method is IsInitialBlockDownload
            &&& !cancellable
            &&& pending is Bool
        },
{
}

/// Asking for the tip asks the Mining interface just that.
pub proof fn tip_queries_are_sent<Tx, C: Clone>(
    client: MiningClient<Tx>,
    cmd: Command,
    actor: Actor<C>,
    step: Step<C>,
)
    requires
        call_ensures(MiningClient::<Tx>::get_tip, (&client,), cmd),
        call_ensures(Actor::<C>::handle, (&actor, cmd), step),
    ensures
        sent_to(step, actor.mining_ipc_client, actor.thread_ipc_client),
        step matches Step::Send { request, cancellable, pending } && {
            &&& request.method is GetTip
            &&& !cancellable
            &&& pending is OptionBlockRef
        },
{
}

/// A wait for a tip change is sent with the tip and the timeout that the
/// caller gave.
pub proof fn tip_waits_are_sent_as_given<Tx, C: Clone>(
    client: MiningClient<Tx>,
    current_tip: &[u8],
    timeout: Float64,
    cmd: Command,
    actor: Actor<C>,
    step: Step<C>,
)
    requires
        call_ensures(MiningClient::<Tx>::wait_tip_changed, (&client, current_tip, timeout), cmd),
        call_ensures(Actor::<C>::handle, (&actor, cmd), step),
    ensures
        sent_to(step, actor.mining_ipc_client, actor.thread_ipc_client),
        step matches Step::Send { request, cancellable, pending } && {
            &&& request.method matches Method::WaitTipChanged { current_tip: tip, timeout: limit }
            &&& tip@ == current_tip@
            &&& limit.bits == timeout.bits
            &&& !cancellable
            &&& pending is BlockRef
        },
{
}

/// A new block is asked for with each option that the caller chose.
pub proof fn new_blocks_are_asked_for_as_chosen<Tx, C: Clone>(
    client: MiningClient<Tx>,
    options: BlockCreateOptions,
    cmd: Command,
    actor: Actor<C>,
    step: Step<C>,
)
    requires
        call_ensures(MiningClient::<Tx>::create_new_block, (&client, &options), cmd),
        call_ensures(Actor::<C>::handle, (&actor, cmd), step),
    ensures
        sent_to(step, actor.mining_ipc_client, actor.thread_ipc_client),
        step matches Step::Send { request, cancellable, pending } && {
            &&& request.method matches Method::CreateNewBlock { options: sent }
            &&& sent.use_mempool == options.use_mempool
            &&& sent.block_reserved_weight == options.block_reserved_weight
            &&& sent.coinbase_output_max_additional_sigops
                == options.coinbase_output_max_additional_sigops
            &&& !cancellable
            &&& pending is CreateNewBlock
        },
{
}

/// Every command to create a new block sends each option that the command
/// holds.
pub proof fn create_commands_are_sent_as_given<C: Clone>(
    actor: Actor<C>,
    options: BlockCreateOptions,
    step: Step<C>,
)
    requires
        call_ensures(
            Actor::<C>::handle,
            (&actor, Command::MiningCreateNewBlock { options }),
            step,
        ),
    ensures
        sent_to(step, actor.mining_ipc_client, actor.thread_ipc_client),
        step matches Step::Send { request, .. } && {
            &&& request.method matches Method::CreateNewBlock { options: sent }
            &&& sent.use_mempool == options.use_mempool
            &&& sent.block_reserved_weight == options.block_reserved_weight
            &&& sent.coinbase_output_max_additional_sigops
                == options.coinbase_output_max_additional_sigops
        },
{
}

/// The template of a new monitor is filled from the mempool, keeps four weight
/// units free for every byte of the announced coinbase outputs and 2000 at
/// least, and allows for the announced sigops.
pub proof fn monitors_begin_with_room_for_the_coinbase<Tx, C: Clone>(
    client: MiningClient<Tx>,
    size: u32,
    sigops: u16,
    cmd: Command,
    actor: Actor<C>,
    step: Step<C>,
)
    requires
        4 * size <= u32::MAX,
        call_ensures(MiningClient::<Tx>::start_monitoring, (&client, size, sigops), cmd),
        call_ensures(Actor::<C>::handle, (&actor, cmd), step),
    ensures
        cmd.in_range(),
        sent_to(step, actor.mining_ipc_client, actor.thread_ipc_client),
        step matches Step::Send { request, cancellable, pending } && {
            &&& request.method matches Method::CreateNewBlock { options: sent }
            &&& sent.use_mempool
            &&& sent.block_reserved_weight == if 4 * size >= 2000 {
                4 * size
            } else {
                2000int
            }
            &&& sent.coinbase_output_max_additional_sigops == sigops
            &&& !cancellable
            &&& pending is StartMonitoring
        },
{
}

/// An echo is sent with the caller's message, and only its caller's
/// cancellation token can end it early.
pub proof fn echoes_are_sent_as_given<Tx, C: Clone>(
    client: EchoClient<Tx>,
    message: &str,
    cmd: Command,
    actor: Actor<C>,
    step: Step<C>,
)
    requires
        call_ensures(EchoClient::<Tx>::echo, (&client, message), cmd),
        call_ensures(Actor::<C>::handle, (&actor, cmd), step),
    ensures
        sent_to(step, actor.echo_ipc_client, actor.thread_ipc_client),
        step matches Step::Send { request, cancellable, pending } && {
            &&& request.method matches Method::Echo { message: sent }
            &&& sent@ == message@
            &&& cancellable
            &&& pending is Text
        },
{
}

/// Destroying the echo interface asks that interface just that.
pub proof fn destruction_is_sent<Tx, C: Clone>(
    client: EchoClient<Tx>,
    cmd: Command,
    actor: Actor<C>,
    step: Step<C>,
)
    requires
        call_ensures(EchoClient::<Tx>::destroy, (&client,), cmd),
        call_ensures(Actor::<C>::handle, (&actor, cmd), step),
    ensures
        sent_to(step, actor.echo_ipc_client, actor.thread_ipc_client),
        step matches Step::Send { request, cancellable, pending } && {
            &&& request.method is Destroy
            &&& !cancellable
            &&& pending is Unit
        },
{
}

/// Asking for the height of the chain sends nothing and gets no reply.
pub proof fn heights_are_not_answered<Tx, C: Clone>(
    client: ChainClient<Tx>,
    cmd: Command,
    actor: Actor<C>,
    step: Step<C>,
)
    requires
        call_ensures(ChainClient::<Tx>::get_height, (&client,), cmd),
        call_ensures(Actor::<C>::handle, (&actor, cmd), step),
    ensures
        step is Drop,
{
}

/// Asking for a block header asks the monitor's current
/// template just that; without such a monitor the call is refused.
pub proof fn header_queries_are_sent<Tx, S, C: Clone>(
    client: MonitorClient<Tx, S>,
    cmd: Command,
    actor: Actor<C>,
    step: Step<C>,
)
    requires
        call_ensures(MonitorClient::<Tx, S>::get_block_header, (&client,), cmd),
        call_ensures(Actor::<C>::handle, (&actor, cmd), step),
    ensures
        if actor.monitors@.contains_key(client.monitor_id) {
            &&& sent_to_template(actor, client.monitor_id, step)
            &&& step matches Step::Send { request, cancellable, pending }
            &&& request.method is GetBlockHeader
            &&& !cancellable
            &&& pending is Bytes
        } else {
            refused(client.monitor_id, step)
        },
{
}

/// Asking for a block asks the monitor's current
/// template just that; without such a monitor the call is refused.
pub proof fn block_queries_are_sent<Tx, S, C: Clone>(
    client: MonitorClient<Tx, S>,
    cmd: Command,
    actor: Actor<C>,
    step: Step<C>,
)
    requires
        call_ensures(MonitorClient::<Tx, S>::get_block, (&client,), cmd),
        call_ensures(Actor::<C>::handle, (&actor, cmd), step),
    ensures
        if actor.monitors@.contains_key(client.monitor_id) {
            &&& sent_to_template(actor, client.monitor_id, step)
            &&& step matches Step::Send { request, cancellable, pending }
            &&& request.method is GetBlock
            &&& !cancellable
            &&& pending is Bytes
        } else {
            refused(client.monitor_id, step)
        },
{
}

/// Asking for the fees asks the monitor's current
/// template just that; without such a monitor the call is refused.
pub proof fn fee_queries_are_sent<Tx, S, C: Clone>(
    client: MonitorClient<Tx, S>,
    cmd: Command,
    actor: Actor<C>,
    step: Step<C>,
)
    requires
        call_ensures(MonitorClient::<Tx, S>::get_tx_fees, (&client,), cmd),
        call_ensures(Actor::<C>::handle, (&actor, cmd), step),
    ensures
        if actor.monitors@.contains_key(client.monitor_id) {
            &&& sent_to_template(actor, client.monitor_id, step)
            &&& step matches Step::Send { request, cancellable, pending }
            &&& request.method is GetTxFees
            &&& !cancellable
            &&& pending is Int64List
        } else {
            refused(client.monitor_id, step)
        },
{
}

/// Asking for the sigop counts asks the monitor's current
/// template just that; without such a monitor the call is refused.
pub proof fn sigop_queries_are_sent<Tx, S, C: Clone>(
    client: MonitorClient<Tx, S>,
    cmd: Command,
    actor: Actor<C>,
    step: Step<C>,
)
    requires
        call_ensures(MonitorClient::<Tx, S>::get_tx_sigops, (&client,), cmd),
        call_ensures(Actor::<C>::handle, (&actor, cmd), step),
    ensures
        if actor.monitors@.contains_key(client.monitor_id) {
            &&& sent_to_template(actor, client.monitor_id, step)
            &&& step matches Step::Send { request, cancellable, pending }
            &&& request.method is GetTxSigops
            &&& !cancellable
            &&& pending is Int64List
        } else {
            refused(client.monitor_id, step)
        },
{
}

/// Asking for the coinbase asks the monitor's current
/// template just that; without such a monitor the call is refused.
pub proof fn coinbase_queries_are_sent<Tx, S, C: Clone>(
    client: MonitorClient<Tx, S>,
    cmd: Command,
    actor: Actor<C>,
    step: Step<C>,
)
    requires
        call_ensures(MonitorClient::<Tx, S>::get_coinbase_tx, (&client,), cmd),
        call_ensures(Actor::<C>::handle, (&actor, cmd), step),
    ensures
        if actor.monitors@.contains_key(client.monitor_id) {
            &&& sent_to_template(actor, client.monitor_id, step)
            &&& step matches Step::Send { request, cancellable, pending }
            &&& request.method is GetCoinbaseTx
            &&& !cancellable
            &&& pending is Bytes
        } else {
            refused(client.monitor_id, step)
        },
{
}

/// Asking for the commitment asks the monitor's current
/// template just that; without such a monitor the call is refused.
pub proof fn commitment_queries_are_sent<Tx, S, C: Clone>(
    client: MonitorClient<Tx, S>,
    cmd: Command,
    actor: Actor<C>,
    step: Step<C>,
)
    requires
        call_ensures(MonitorClient::<Tx, S>::get_coinbase_commitment, (&client,), cmd),
        call_ensures(Actor::<C>::handle, (&actor, cmd), step),
    ensures
        if actor.monitors@.contains_key(client.monitor_id) {
            &&& sent_to_template(actor, client.monitor_id, step)
            &&& step matches Step::Send { request, cancellable, pending }
            &&& request.method is GetCoinbaseCommitment
            &&& !cancellable
            &&& pending is Bytes
        } else {
            refused(client.monitor_id, step)
        },
{
}

/// Asking for the commitment index asks the monitor's current
/// template just that; without such a monitor the call is refused.
pub proof fn commitment_index_queries_are_sent<Tx, S, C: Clone>(
    client: MonitorClient<Tx, S>,
    cmd: Command,
    actor: Actor<C>,
    step: Step<C>,
)
    requires
        call_ensures(MonitorClient::<Tx, S>::get_witness_commitment_index, (&client,), cmd),
        call_ensures(Actor::<C>::handle, (&actor, cmd), step),
    ensures
        if actor.monitors@.contains_key(client.monitor_id) {
            &&& sent_to_template(actor, client.monitor_id, step)
            &&& step matches Step::Send { request, cancellable, pending }
            &&& request.method is GetWitnessCommitmentIndex
            &&& !cancellable
            &&& pending is Int32
        } else {
            refused(client.monitor_id, step)
        },
{
}

/// Asking for the merkle path asks the monitor's current
/// template just that; without such a monitor the call is refused.
pub proof fn merkle_path_queries_are_sent<Tx, S, C: Clone>(
    client: MonitorClient<Tx, S>,
    cmd: Command,
    actor: Actor<C>,
    step: Step<C>,
)
    requires
        call_ensures(MonitorClient::<Tx, S>::get_coinbase_merkle_path, (&client,), cmd),
        call_ensures(Actor::<C>::handle, (&actor, cmd), step),
    ensures
        if actor.monitors@.contains_key(client.monitor_id) {
            &&& sent_to_template(actor, client.monitor_id, step)
            &&& step matches Step::Send { request, cancellable, pending }
            &&& request.method is GetCoinbaseMerklePath
            &&& !cancellable
            &&& pending is DataList
        } else {
            refused(client.monitor_id, step)
        },
{
}

/// Fetching a template begins with the block of the monitor's current
/// template, and remembers that template for the coinbase.
pub proof fn fetches_begin_with_the_block<Tx, S, C: Clone>(
    client: MonitorClient<Tx, S>,
    cmd: Command,
    actor: Actor<C>,
    step: Step<C>,
)
    requires
        call_ensures(MonitorClient::<Tx, S>::fetch_block_template, (&client,), cmd),
        call_ensures(Actor::<C>::handle, (&actor, cmd), step),
    ensures
        if actor.monitors@.contains_key(client.monitor_id) {
            &&& sent_to_template(actor, client.monitor_id, step)
            &&& step matches Step::Send { request, cancellable, pending }
            &&& request.method is GetBlock
            &&& !cancellable
            &&& pending matches Pending::FetchBlock { template }
            &&& cloned(actor.monitors@[client.monitor_id].template_ipc_client, template)
        } else {
            refused(client.monitor_id, step)
        },
{
}

/// A block solution is submitted to the monitor's current template with the
/// version, timestamp, nonce and coinbase that the caller gave; without such
/// a monitor the call is refused.
pub proof fn solutions_are_submitted_as_given<Tx, S, C: Clone>(
    client: MonitorClient<Tx, S>,
    version: u32,
    timestamp: u32,
    nonce: u32,
    coinbase: &[u8],
    cmd: Command,
    actor: Actor<C>,
    step: Step<C>,
)
    requires
        call_ensures(
            MonitorClient::<Tx, S>::submit_solution,
            (&client, version, timestamp, nonce, coinbase),
            cmd,
        ),
        call_ensures(Actor::<C>::handle, (&actor, cmd), step),
    ensures
        if actor.monitors@.contains_key(client.monitor_id) {
            &&& sent_to_template(actor, client.monitor_id, step)
            &&& step matches Step::Send { request, cancellable, pending }
            &&& request.method matches Method::SubmitSolution {
                version: v,
                timestamp: t,
                nonce: n,
                coinbase: tx,
            }
            &&& v == version
            &&& t == timestamp
            &&& n == nonce
            &&& tx@ == coinbase@
            &&& !cancellable
            &&& pending is Bool
        } else {
            refused(client.monitor_id, step)
        },
{
}

/// Every command to submit a solution sends the version, timestamp, nonce and
/// coinbase that the command holds.
pub proof fn submit_commands_are_sent_as_given<C: Clone>(
    actor: Actor<C>,
    monitor_id: u64,
    version: u32,
    timestamp: u32,
    nonce: u32,
    coinbase: Vec<u8>,
    step: Step<C>,
)
    requires
        call_ensures(
            Actor::<C>::handle,
            (
                &actor,
                Command::MonitorSubmitSolution { monitor_id, version, timestamp, nonce, coinbase },
            ),
            step,
        ),
        actor.monitors@.contains_key(monitor_id),
    ensures
        sent_to_template(actor, monitor_id, step),
        step matches Step::Send { request, .. } && {
            &&& request.method matches Method::SubmitSolution {
                version: v,
                timestamp: t,
                nonce: n,
                coinbase: tx,
            }
            &&& v == version
            &&& t == timestamp
            &&& n == nonce
            &&& tx@ == coinbase@
        },
{
}

/// A wait for the next template is sent with the options that the caller
/// chose, and without options if the caller chose none; without such a
/// monitor the call is refused.
pub proof fn template_waits_are_sent_as_given<Tx, S, C: Clone>(
    client: MonitorClient<Tx, S>,
    options: Option<&BlockWaitOptions>,
    cmd: Command,
    actor: Actor<C>,
    step: Step<C>,
)
    requires
        call_ensures(MonitorClient::<Tx, S>::wait_next, (&client, options), cmd),
        call_ensures(Actor::<C>::handle, (&actor, cmd), step),
    ensures
        if actor.monitors@.contains_key(client.monitor_id) {
            &&& sent_to_template(actor, client.monitor_id, step)
            &&& step matches Step::Send { request, cancellable, pending }
            &&& request.method matches Method::WaitNext { options: sent }
            &&& match (options, sent) {
                (Some(chosen), Some(o)) => {
                    &&& o.timeout.bits == chosen.timeout.bits
                    &&& o.fee_threshold == chosen.fee_threshold
                },
                (None, None) => true,
                _ => false,
            }
            &&& !cancellable
            &&& pending matches Pending::WaitNext { monitor_id }
            &&& monitor_id == client.monitor_id
        } else {
            refused(client.monitor_id, step)
        },
{
}

/// Every command can be handled, but for a monitor whose announced coinbase
/// outputs weigh more than 32 bits hold.
pub proof fn commands_can_be_handled(cmd: Command)
    ensures
        cmd.in_range() <==> match cmd {
            Command::MiningStartMonitoring { coinbase_output_max_additional_size: size, .. } => 4
                * size <= u32::MAX,
            _ => true,
        },
{
}

/// A copy of a monitor's client asks for the same monitor, reaches the actor
/// by a copy of the same handle and subscribes by a copy of the same handle.
pub proof fn monitor_clients_are_copied_whole<Tx: Clone, S: Clone>(
    client: MonitorClient<Tx, S>,
    copy: MonitorClient<Tx, S>,
)
    requires
        cloned(client, copy),
    ensures
        copy.monitor_id == client.monitor_id,
        cloned(client.cmd_tx, copy.cmd_tx),
        cloned(client.tip_change_tx, copy.tip_change_tx),
{
}

} // verus!
