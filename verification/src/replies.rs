//! What becomes of each answer of the node: the reply that its caller gets,
//! and what the actor keeps of it.

use vstd::prelude::*;

use crate::actor::{Actor, Answer, Completion, Exchange, Pending, Step};
use crate::client::Delivery;
use crate::error::{BitcoinCapnpError, IpcBitcoinCoreError};
use crate::extract::{Bool, DataList, OptionBlockRef};
use crate::mining::{BlockCreateOptions, BlockRef, MiningClient, MonitorClient};
use crate::wire::{BlockRefReader, Int64ListReader};

verus! {

/// A boolean that the node answers with is delivered unchanged.
pub proof fn booleans_are_delivered_unchanged<C: Clone>(
    actor: Actor<C>,
    b: bool,
    after: Actor<C>,
    step: Step<C>,
)
    requires
        actor.resumes(Completion::Bool(Exchange::Answered(b)), after, step),
    ensures
        step == Step::<C>::Deliver(Ok(Answer::Bool(b))),
        after == actor,
{
}

/// Two different booleans of the node never get the same reply.
pub proof fn booleans_are_told_apart<C: Clone>(
    actor: Actor<C>,
    yes: Step<C>,
    no: Step<C>,
    after_yes: Actor<C>,
    after_no: Actor<C>,
)
    requires
        actor.resumes(Completion::Bool(Exchange::Answered(true)), after_yes, yes),
        actor.resumes(Completion::Bool(Exchange::Answered(false)), after_no, no),
    ensures
        yes != no,
{
}

/// A number that the node answers with is delivered unchanged.
pub proof fn integers_are_delivered_unchanged<C: Clone>(
    actor: Actor<C>,
    i: i32,
    after: Actor<C>,
    step: Step<C>,
)
    requires
        actor.resumes(Completion::Int32(Exchange::Answered(i)), after, step),
    ensures
        step == Step::<C>::Deliver(Ok(Answer::Int32(i))),
        after == actor,
{
}

/// An answer without a result is delivered as success.
pub proof fn empty_answers_are_delivered<C: Clone>(
    actor: Actor<C>,
    after: Actor<C>,
    step: Step<C>,
)
    requires
        actor.resumes(Completion::Unit(Exchange::Answered(())), after, step),
    ensures
        step == Step::<C>::Deliver(Ok(Answer::Unit)),
        after == actor,
{
}

/// The tip that the node reports in answer to a tip wait is delivered with the
/// hash and the height that it has.
pub proof fn new_tips_are_delivered_as_reported<C: Clone>(
    actor: Actor<C>,
    tip: BlockRefReader,
    after: Actor<C>,
    step: Step<C>,
)
    requires
        tip.hash is Ok,
        actor.resumes(Completion::BlockRef(Exchange::Answered(Ok(tip))), after, step),
    ensures
        step matches Step::Deliver(Ok(Answer::BlockRef(block))) && {
            &&& block.hash@ == tip.hash->Ok_0@
            &&& block.height == tip.height
        },
        after == actor,
{
}

/// The current tip is delivered with the hash and the height that the node
/// reports.
pub proof fn current_tips_are_delivered_as_reported<C: Clone>(
    actor: Actor<C>,
    tip: BlockRefReader,
    after: Actor<C>,
    step: Step<C>,
)
    requires
        tip.hash is Ok,
        actor.resumes(
            Completion::OptionBlockRef(
                Exchange::Answered(OptionBlockRef { has_result: true, result: Ok(tip) }),
            ),
            after,
            step,
        ),
    ensures
        step matches Step::Deliver(Ok(Answer::OptionBlockRef(Some(block)))) && {
            &&& block.hash@ == tip.hash->Ok_0@
            &&& block.height == tip.height
        },
        after == actor,
{
}

/// If the node has no tip, that is what is delivered, whatever stands in the
/// place of the tip.
pub proof fn absent_tips_are_delivered_as_absent<C: Clone>(
    actor: Actor<C>,
    result: Result<BlockRefReader, capnp::Error>,
    after: Actor<C>,
    step: Step<C>,
)
    requires
        actor.resumes(
            Completion::OptionBlockRef(
                Exchange::Answered(OptionBlockRef { has_result: false, result }),
            ),
            after,
            step,
        ),
    ensures
        step == Step::<C>::Deliver(Ok(Answer::OptionBlockRef(None))),
        after == actor,
{
}

/// A tip that cannot be read is delivered as the error of reading it.
pub proof fn unreadable_tips_are_delivered_as_errors<C: Clone>(
    actor: Actor<C>,
    e: capnp::Error,
    after: Actor<C>,
    step: Step<C>,
)
    requires
        actor.resumes(
            Completion::OptionBlockRef(
                Exchange::Answered(OptionBlockRef { has_result: true, result: Err(e) }),
            ),
            after,
            step,
        ),
    ensures
        step == Step::<C>::Deliver(Err(BitcoinCapnpError::CapnpError(e))),
        after == actor,
{
}

/// Bytes that the node answers with are delivered byte for byte.
pub proof fn bytes_are_delivered_unchanged<C: Clone>(
    actor: Actor<C>,
    data: &[u8],
    after: Actor<C>,
    step: Step<C>,
)
    requires
        actor.resumes(Completion::Bytes(Exchange::Answered(Ok(data))), after, step),
    ensures
        step matches Step::Deliver(Ok(Answer::Bytes(bytes))) && {
            &&& bytes@.len() == data@.len()
            &&& forall|i: int| 0 <= i < data@.len() ==> #[trigger] bytes@[i] == data@[i]
        },
        after == actor,
{
}

/// Numbers that the node answers with are delivered one for one.
pub proof fn numbers_are_delivered_unchanged<C: Clone>(
    actor: Actor<C>,
    list: Int64ListReader<'_>,
    after: Actor<C>,
    step: Step<C>,
)
    requires
        actor.resumes(Completion::Int64List(Exchange::Answered(Ok(list))), after, step),
    ensures
        step matches Step::Deliver(Ok(Answer::Int64List(items))) && {
            &&& items@.len() == crate::wire::int64_list_items(list).len()
            &&& forall|i: int|
                0 <= i < items@.len() ==> #[trigger] items@[i] == crate::wire::int64_list_items(
                    list,
                )[i]
        },
        after == actor,
{
}

/// A merkle path of which no read fails is delivered: every hash, byte for
/// byte, in its order.
pub proof fn merkle_paths_are_delivered_if_no_read_fails<C: Clone>(
    actor: Actor<C>,
    list: capnp::data_list::Reader<'_>,
    after: Actor<C>,
    step: Step<C>,
)
    requires
        forall|i: u32, e: capnp::Error|
            i < crate::wire::data_list_items(list).len()
                ==> !(#[trigger] crate::wire::data_list_gives(list, i, Err(e))),
        actor.resumes(Completion::DataList(Exchange::Answered(Ok(list))), after, step),
    ensures
        step matches Step::Deliver(Ok(Answer::DataList(path))) && {
            &&& path@.len() == crate::wire::data_list_items(list).len()
            &&& forall|i: int|
                0 <= i < path@.len() ==> (#[trigger] path@[i])@ == crate::wire::data_list_items(
                    list,
                )[i]
        },
        after == actor,
{
    let items = crate::wire::data_list_items(list);
    if let Step::Deliver(reply) = step {
        let r: Result<Vec<Vec<u8>>, BitcoinCapnpError> = match reply {
            Ok(Answer::DataList(path)) => Ok(path),
            Ok(_) => arbitrary(),
            Err(e) => Err(e),
        };
        assert(DataList::extracts(Ok(list), r));
        let reads = choose|reads: Seq<Result<&[u8], capnp::Error>>|
            #![trigger DataList::reads_of(list, reads)]
            DataList::reads_of(list, reads) && DataList::collects(reads, r);
        if let Err(e) = r {
            let i = choose|i: int|
                {
                    &&& 0 <= i < reads.len()
                    &&& (#[trigger] reads[i]) is Err
                    &&& e == BitcoinCapnpError::CapnpError(reads[i]->Err_0)
                    &&& forall|j: int| 0 <= j < i ==> (#[trigger] reads[j]) is Ok
                };
            assert(crate::wire::data_list_gives(list, i as u32, Err(reads[i]->Err_0)));
        }
        if let Ok(path) = r {
            let whole = path@.map_values(|item: Vec<u8>| item@);
            assert forall|i: int| 0 <= i < path@.len() implies (#[trigger] path@[i])@ == items[i] by {
                assert(whole[i] == items[i]);
            }
        }
    }
}

/// A merkle path that is not delivered failed with an error that one of its
/// reads gave.
pub proof fn merkle_paths_fail_by_their_reads<C: Clone>(
    actor: Actor<C>,
    list: capnp::data_list::Reader<'_>,
    after: Actor<C>,
    e: BitcoinCapnpError,
) -> (cause: (u32, capnp::Error))
    requires
        actor.resumes(
            Completion::DataList(Exchange::Answered(Ok(list))),
            after,
            Step::Deliver(Err(e)),
        ),
    ensures
        cause.0 < crate::wire::data_list_items(list).len(),
        crate::wire::data_list_gives(list, cause.0, Err(cause.1)),
        e == BitcoinCapnpError::CapnpError(cause.1),
{
    let r = Err::<Vec<Vec<u8>>, BitcoinCapnpError>(e);
    assert(DataList::extracts(Ok(list), r));
    let reads = choose|reads: Seq<Result<&[u8], capnp::Error>>|
        #![trigger DataList::reads_of(list, reads)]
        DataList::reads_of(list, reads) && DataList::collects(reads, r);
    let i = choose|i: int|
        {
            &&& 0 <= i < reads.len()
            &&& (#[trigger] reads[i]) is Err
            &&& e == BitcoinCapnpError::CapnpError(reads[i]->Err_0)
            &&& forall|j: int| 0 <= j < i ==> (#[trigger] reads[j]) is Ok
        };
    (i as u32, reads[i]->Err_0)
}

/// An echoed text is delivered as the characters that its bytes encode; bytes
/// that encode none are a failure that says why.
pub proof fn texts_are_delivered_as_sent<C: Clone>(
    actor: Actor<C>,
    text: capnp::text::Reader<'_>,
    after: Actor<C>,
    step: Step<C>,
)
    requires
        actor.resumes(Completion::Text(Exchange::Answered(Ok(text))), after, step),
    ensures
        vstd::utf8::valid_utf8(text.0@) ==> {
            &&& step matches Step::Deliver(Ok(Answer::Text(s)))
            &&& vstd::utf8::encode_utf8(s@) == text.0@
        },
        !vstd::utf8::valid_utf8(text.0@) ==> {
            &&& step matches Step::Deliver(Err(BitcoinCapnpError::CapnpError(e)))
            &&& e.kind == capnp::ErrorKind::Failed
            &&& e.extra@ == "UTF-8 error: "@ + crate::wire::utf8_error_text(text.0@)
        },
        after == actor,
{
    if vstd::utf8::valid_utf8(text.0@) {
        vstd::utf8::decode_utf8_encode_utf8(text.0@);
    }
}

/// A new block template is given to every monitor, and to nothing else.
pub proof fn new_templates_go_to_every_monitor<C: Clone>(
    actor: Actor<C>,
    template: C,
    after: Actor<C>,
    step: Step<C>,
    id: u64,
)
    requires
        actor.resumes(Completion::CreateNewBlock(Exchange::Answered(Ok(template))), after, step),
    ensures
        step == Step::<C>::Deliver(Ok(Answer::Unit)),
        after.monitors@.contains_key(id) <==> actor.monitors@.contains_key(id),
        actor.monitors@.contains_key(id) ==> cloned(
            template,
            after.monitors@[id].template_ipc_client,
        ),
        after.next_monitor_id == actor.next_monitor_id,
        after.mining_ipc_client == actor.mining_ipc_client,
        after.thread_ipc_client == actor.thread_ipc_client,
        after.echo_ipc_client == actor.echo_ipc_client,
{
    assert(after.monitors@.contains_key(id) <==> after.monitors@.dom().contains(id));
    assert(actor.monitors@.contains_key(id) <==> actor.monitors@.dom().contains(id));
}

/// A new monitor gets the next free id and the template that the node made
/// for it; the tip is watched through the actor's own capabilities, and no
/// other monitor is touched.
pub proof fn new_monitors_are_registered<C: Clone>(
    actor: Actor<C>,
    template: C,
    after: Actor<C>,
    step: Step<C>,
    other: u64,
)
    requires
        actor.next_monitor_id < u64::MAX,
        actor.resumes(Completion::StartMonitoring(Exchange::Answered(Ok(template))), after, step),
    ensures
        step matches Step::Watch { monitor_id, mining, thread } && {
            &&& monitor_id == actor.next_monitor_id
            &&& cloned(actor.mining_ipc_client, mining)
            &&& cloned(actor.thread_ipc_client, thread)
            &&& after.monitors@.contains_key(monitor_id)
            &&& after.monitors@[monitor_id].template_ipc_client == template
        },
        other != actor.next_monitor_id ==> {
            &&& after.monitors@.contains_key(other) <==> actor.monitors@.contains_key(other)
            &&& actor.monitors@.contains_key(other) ==> after.monitors@[other]
                == actor.monitors@[other]
        },
        after.next_monitor_id == actor.next_monitor_id + 1,
        after.mining_ipc_client == actor.mining_ipc_client,
        after.thread_ipc_client == actor.thread_ipc_client,
        after.echo_ipc_client == actor.echo_ipc_client,
{
}

/// The next template goes to the monitor that waited for it, and no other is
/// touched; if that monitor is gone, nothing is.
pub proof fn next_templates_go_to_the_waiting_monitor<C: Clone>(
    actor: Actor<C>,
    monitor_id: u64,
    template: C,
    after: Actor<C>,
    step: Step<C>,
    other: u64,
)
    requires
        actor.resumes(
            Completion::WaitNext { monitor_id, exchange: Exchange::Answered(Ok(template)) },
            after,
            step,
        ),
    ensures
        actor.monitors@.contains_key(monitor_id) ==> {
            &&& step == Step::<C>::Deliver(Ok(Answer::Unit))
            &&& after.monitors@.contains_key(monitor_id)
            &&& after.monitors@[monitor_id].template_ipc_client == template
        },
        !actor.monitors@.contains_key(monitor_id) ==> {
            &&& step == Step::<C>::Deliver(Err(BitcoinCapnpError::MonitorNotFound(monitor_id)))
            &&& after == actor
        },
        other != monitor_id ==> {
            &&& after.monitors@.contains_key(other) <==> actor.monitors@.contains_key(other)
            &&& actor.monitors@.contains_key(other) ==> after.monitors@[other]
                == actor.monitors@[other]
        },
        after.next_monitor_id == actor.next_monitor_id,
        after.mining_ipc_client == actor.mining_ipc_client,
        after.thread_ipc_client == actor.thread_ipc_client,
        after.echo_ipc_client == actor.echo_ipc_client,
{
}

/// Once the block of a fetch is there, the coinbase is asked of the same
/// template, and the block is kept byte for byte.
pub proof fn fetched_blocks_are_kept_for_their_coinbase<C: Clone>(
    actor: Actor<C>,
    template: C,
    data: &[u8],
    after: Actor<C>,
    step: Step<C>,
)
    requires
        actor.resumes(
            Completion::FetchBlock { template, exchange: Exchange::Answered(Ok(data)) },
            after,
            step,
        ),
    ensures
        step matches Step::Send { request, cancellable, pending } && {
            &&& request.target == template
            &&& cloned(actor.thread_ipc_client, request.thread)
            &&& request.method is GetCoinbaseTx
            &&& !cancellable
            &&& pending matches Pending::FetchCoinbase { block }
            &&& block@ == data@
        },
        after == actor,
{
}

/// A fetch is answered with the block that came first and the coinbase that
/// came second, both byte for byte.
pub proof fn fetched_blocks_come_before_their_coinbase<C: Clone>(
    actor: Actor<C>,
    block: Vec<u8>,
    data: &[u8],
    after: Actor<C>,
    step: Step<C>,
)
    requires
        actor.resumes(
            Completion::FetchCoinbase { block, exchange: Exchange::Answered(Ok(data)) },
            after,
            step,
        ),
    ensures
        step matches Step::Deliver(Ok(Answer::BlockAndCoinbase { block: first, coinbase: second }))
            && {
            &&& first@ == block@
            &&& second@ == data@
        },
        after == actor,
{
}

/// The error that an exchange ended with before there were results to read.
pub open spec fn exchange_error<R>(exchange: Exchange<R>) -> Option<BitcoinCapnpError> {
    match exchange {
        Exchange::NotSent(e) => Some(BitcoinCapnpError::CapnpError(e)),
        Exchange::Cancelled => Some(BitcoinCapnpError::Cancelled),
        Exchange::Failed(e) => Some(BitcoinCapnpError::CapnpError(e)),
        Exchange::Unreadable(e) => Some(BitcoinCapnpError::CapnpError(e)),
        Exchange::Answered(_) => None,
    }
}

/// The error that an exchange ended with, where the result itself may be
/// unreadable.
pub open spec fn result_error<R>(exchange: Exchange<Result<R, capnp::Error>>) -> Option<
    BitcoinCapnpError,
> {
    match exchange {
        Exchange::Answered(Err(e)) => Some(BitcoinCapnpError::CapnpError(e)),
        Exchange::Answered(Ok(_)) => None,
        _ => exchange_error(exchange),
    }
}

/// Whatever goes wrong between the actor and the node, the caller is told just
/// that, and the actor stays as it was. A cancellation is told as one, and
/// every failure of Cap'n Proto with the error that it gave.
pub proof fn failures_are_delivered_as_they_are<C: Clone>(
    actor: Actor<C>,
    completion: Completion<'_, C>,
    after: Actor<C>,
    step: Step<C>,
    e: BitcoinCapnpError,
)
    requires
        actor.resumes(completion, after, step),
        match completion {
            Completion::Bool(x) => exchange_error(x) == Some(e),
            Completion::OptionBlockRef(x) => exchange_error(x) == Some(e),
            Completion::BlockRef(x) => result_error(x) == Some(e),
            Completion::Bytes(x) => result_error(x) == Some(e),
            Completion::Int64List(x) => result_error(x) == Some(e),
            Completion::DataList(x) => result_error(x) == Some(e),
            Completion::Int32(x) => exchange_error(x) == Some(e),
            Completion::Text(x) => result_error(x) == Some(e),
            Completion::Unit(x) => exchange_error(x) == Some(e),
            Completion::CreateNewBlock(x) => result_error(x) == Some(e),
            Completion::StartMonitoring(x) => result_error(x) == Some(e),
            Completion::WaitNext { exchange, .. } => result_error(exchange) == Some(e),
            Completion::FetchBlock { exchange, .. } => result_error(exchange) == Some(e),
            Completion::FetchCoinbase { exchange, .. } => result_error(exchange) == Some(e),
        },
    ensures
        step == Step::<C>::Deliver(Err(e)),
        after == actor,
{
}

/// Every completion can be taken, but for a block reference without a hash
/// that can be read.
pub proof fn completions_can_be_taken<C>(completion: Completion<'_, C>)
    ensures
        completion.readable() <==> match completion {
            Completion::OptionBlockRef(Exchange::Answered(results)) => !results.has_result
                || results.result is Err || results.result->Ok_0.hash is Ok,
            Completion::BlockRef(Exchange::Answered(Ok(tip))) => tip.hash is Ok,
            _ => true,
        },
        completion.starts_monitor() <==> completion matches Completion::StartMonitoring(
            Exchange::Answered(Ok(_)),
        ),
{
}

/// A capability is had if and only if the node granted it; otherwise the error
/// says why not.
pub proof fn granted_capabilities_are_had<C>(
    exchange: Exchange<Result<C, capnp::Error>>,
    r: Result<C, BitcoinCapnpError>,
)
    requires
        call_ensures(Exchange::<Result<C, capnp::Error>>::into_capability, (exchange,), r),
    ensures
        match result_error(exchange) {
            Some(e) => r == Err::<C, BitcoinCapnpError>(e),
            None => exchange matches Exchange::Answered(Ok(c)) && r == Ok::<C, BitcoinCapnpError>(c),
        },
{
}

/// Results are had if and only if the node answered; otherwise the error says
/// why not.
pub proof fn answered_results_are_had<R>(exchange: Exchange<R>, r: Result<R, BitcoinCapnpError>)
    requires
        call_ensures(Exchange::<R>::into_outcome, (exchange,), r),
    ensures
        match exchange_error(exchange) {
            Some(e) => r == Err::<R, BitcoinCapnpError>(e),
            None => exchange matches Exchange::Answered(x) && r == Ok::<R, BitcoinCapnpError>(x),
        },
{
}

/// A call returns the actor's reply, and `ActorDisconnected` if and only if
/// there is none or the reply itself says so.
pub proof fn replies_are_returned<T>(delivery: Delivery<T>, r: Result<T, BitcoinCapnpError>)
    requires
        call_ensures(Delivery::<T>::settle, (delivery,), r),
    ensures
        match delivery {
            Delivery::Replied(reply) => r == reply,
            _ => r == Err::<T, BitcoinCapnpError>(BitcoinCapnpError::ActorDisconnected),
        },
{
}

/// The client of a started monitor has the id and the subscription handle of
/// the reply and reaches the same actor; without a reply, or with an error,
/// there is no client.
pub proof fn started_monitors_get_their_client<Tx: Clone, S>(
    client: MiningClient<Tx>,
    delivery: Delivery<(u64, S)>,
    r: Result<MonitorClient<Tx, S>, BitcoinCapnpError>,
)
    requires
        call_ensures(MiningClient::<Tx>::monitoring_started::<S>, (&client, delivery), r),
    ensures
        match delivery {
            Delivery::Replied(Ok((monitor_id, tip_change_tx))) => {
                &&& r matches Ok(monitor)
                &&& monitor.monitor_id == monitor_id
                &&& monitor.tip_change_tx == tip_change_tx
                &&& cloned(client.cmd_tx, monitor.cmd_tx)
            },
            Delivery::Replied(Err(e)) => r == Err::<MonitorClient<Tx, S>, BitcoinCapnpError>(e),
            _ => r == Err::<MonitorClient<Tx, S>, BitcoinCapnpError>(
                BitcoinCapnpError::ActorDisconnected,
            ),
        },
{
}

/// A block reference is copied with its hash and its height.
pub proof fn block_references_are_copied(r: BlockRefReader, b: BlockRef)
    requires
        r.hash is Ok,
        call_ensures(BlockRef::from, (r,), b),
    ensures
        b.hash@ == r.hash->Ok_0@,
        b.height == r.height,
{
}

/// A boolean is extracted as it is.
pub proof fn booleans_are_extracted(b: bool, r: Result<bool, BitcoinCapnpError>)
    requires
        call_ensures(Bool::extract, (b,), r),
    ensures
        r == Ok::<bool, BitcoinCapnpError>(b),
{
}

/// A list is put together whole from reads that all succeeded; otherwise it
/// fails with the error of the first read that failed.
pub proof fn lists_are_put_together(
    reads: Vec<Result<&[u8], capnp::Error>>,
    r: Result<Vec<Vec<u8>>, BitcoinCapnpError>,
    i: int,
)
    requires
        call_ensures(DataList::collect, (reads,), r),
        0 <= i < reads@.len(),
    ensures
        match r {
            Ok(items) => {
                &&& items@.len() == reads@.len()
                &&& reads@[i] matches Ok(data) && items@[i]@ == data@
            },
            Err(_) => exists|k: int| 0 <= k < reads@.len() && (#[trigger] reads@[k]) is Err,
        },
        (reads@[i] is Err && forall|j: int| 0 <= j < i ==> (#[trigger] reads@[j]) is Ok) ==> r
            == Err::<Vec<Vec<u8>>, BitcoinCapnpError>(
            BitcoinCapnpError::CapnpError(reads@[i]->Err_0),
        ),
{
}

/// Without reads there is an empty list.
pub proof fn no_reads_make_an_empty_list(
    reads: Vec<Result<&[u8], capnp::Error>>,
    r: Result<Vec<Vec<u8>>, BitcoinCapnpError>,
)
    requires
        call_ensures(DataList::collect, (reads,), r),
        reads@.len() == 0,
    ensures
        r matches Ok(items) && items@.len() == 0,
{
}

/// The options of a new monitor's template keep enough weight free.
pub proof fn monitoring_options_have_room(size: u32, sigops: u16, options: BlockCreateOptions)
    requires
        4 * size <= u32::MAX,
        call_ensures(crate::mining::monitoring_options, (size, sigops), options),
    ensures
        options.use_mempool,
        options.block_reserved_weight >= 4 * size,
        options.block_reserved_weight >= 2000,
        options.block_reserved_weight == 4 * size || options.block_reserved_weight == 2000,
        options.coinbase_output_max_additional_sigops == sigops,
{
}

/// Outside errors are kept inside the errors of this library.
pub proof fn outside_errors_are_kept(
    e: capnp::Error,
    io: std::io::Error,
    decoding: bitcoin::consensus::encode::Error,
)
    ensures
        <BitcoinCapnpError as vstd::std_specs::convert::FromSpec<capnp::Error>>::from_spec(e)
            == BitcoinCapnpError::CapnpError(e),
        <BitcoinCapnpError as vstd::std_specs::convert::FromSpec<std::io::Error>>::from_spec(io)
            == BitcoinCapnpError::IoError(io),
        <IpcBitcoinCoreError as vstd::std_specs::convert::FromSpec<capnp::Error>>::from_spec(e)
            == IpcBitcoinCoreError::CapnpError(e),
        <IpcBitcoinCoreError as vstd::std_specs::convert::FromSpec<std::io::Error>>::from_spec(io)
            == IpcBitcoinCoreError::IoError(io),
        <IpcBitcoinCoreError as vstd::std_specs::convert::FromSpec<
            bitcoin::consensus::encode::Error,
        >>::from_spec(decoding) == IpcBitcoinCoreError::InvalidTemplateHeader(decoding),
{
}

} // verus!
