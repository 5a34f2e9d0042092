//! What holds of the client as a whole.

use vstd::prelude::*;

use crate::actor::{Actor, Answer, Command, Completion, Exchange, Method, Pending, Request, Step};
use crate::client::IntoCapnp;
use crate::error::BitcoinCapnpError;
use crate::extract::{DataList, OptionBlockRef};
use crate::libmp::Bootstrap;
use crate::mining::{BlockCreateOptions, BlockWaitOptions, TipChange};
use crate::monitor::{Effect, TipMonitor};
use crate::wire::{
    BlockCreateOptionsBuilder, BlockRefReader, BlockWaitOptionsBuilder, Int64ListReader,
};

verus! {

/// A command for a monitor that does not exist is answered with
/// `MonitorNotFound` and that monitor's id, and nothing is sent to the node.
pub proof fn unknown_monitors_are_refused<C: Clone>(
    actor: Actor<C>,
    cmd: Command,
    id: u64,
    step: Step<C>,
)
    requires
        actor.handles(cmd, step),
        cmd.monitor() == Some(id),
        !actor.monitors@.contains_key(id),
    ensures
        step == Step::<C>::Deliver(Err(BitcoinCapnpError::MonitorNotFound(id))),
{
}

/// A command for a monitor that exists goes to that monitor's current
/// template.
pub proof fn monitors_are_served_from_their_template<C: Clone>(
    actor: Actor<C>,
    cmd: Command,
    id: u64,
    step: Step<C>,
)
    requires
        actor.handles(cmd, step),
        cmd.monitor() == Some(id),
        actor.monitors@.contains_key(id),
    ensures
        step matches Step::Send { request, .. } && cloned(actor.template(id), request.target),
{
}

/// Every request that a command leads to names the actor's server thread.
pub proof fn requests_name_the_server_thread<C: Clone>(
    actor: Actor<C>,
    cmd: Command,
    completion: Completion<'_, C>,
    after: Actor<C>,
    step: Step<C>,
)
    requires
        actor.handles(cmd, step) || actor.resumes(completion, after, step),
    ensures
        step matches Step::Send { request, .. } ==> cloned(
            actor.thread_ipc_client,
            request.thread,
        ),
{
}

/// The calls that watch the chain tip for a new monitor go to the actor's
/// Mining capability and name its server thread, in whatever state the watch
/// is: the watch holds a clone of each, and a request carries a clone of that.
pub proof fn watches_name_the_server_thread<C: Clone>(
    actor: Actor<C>,
    completion: Completion<'_, C>,
    after: Actor<C>,
    monitor_id: u64,
    mining: C,
    thread: C,
    watch: TipMonitor,
    call: Option<(Request<C>, bool)>,
)
    requires
        actor.resumes(completion, after, Step::Watch { monitor_id, mining, thread }),
        watch.calls(mining, thread, call),
    ensures
        cloned(actor.mining_ipc_client, mining),
        cloned(actor.thread_ipc_client, thread),
        match call {
            Some((request, _)) => cloned(mining, request.target) && cloned(thread, request.thread),
            None => watch is Stopped,
        },
        !(watch is Stopped) ==> call is Some,
{
}

/// Only an echo can be ended early by its caller.
pub proof fn only_echo_is_cancellable<C: Clone>(
    actor: Actor<C>,
    cmd: Command,
    completion: Completion<'_, C>,
    after: Actor<C>,
    step: Step<C>,
)
    requires
        actor.handles(cmd, step) || actor.resumes(completion, after, step),
    ensures
        step matches Step::Send { request, cancellable, .. } ==> (cancellable
            ==> request.method is Echo),
        actor.handles(cmd, step) ==> (cmd is EchoEcho <==> (step matches Step::Send {
            cancellable,
            ..
        } && cancellable)),
{
}

/// The error of a failed exchange reaches the caller as it is, and leaves the
/// actor as it was.
pub proof fn errors_reach_the_caller<C: Clone>(
    actor: Actor<C>,
    completion: Completion<'_, C>,
    after: Actor<C>,
    step: Step<C>,
    e: BitcoinCapnpError,
)
    requires
        actor.resumes(completion, after, step),
        completion.failure() == Some(e),
    ensures
        after == actor,
        step == Step::<C>::Deliver(Err(e)),
{
}

/// Every command is sent to the node or answered with an error at once, but
/// for `ChainGetHeight`, which the actor drops.
pub proof fn commands_are_taken_up<C: Clone>(actor: Actor<C>, cmd: Command, step: Step<C>)
    requires
        actor.handles(cmd, step),
    ensures
        match step {
            Step::Send { .. } => !(cmd is ChainGetHeight),
            Step::Deliver(reply) => reply is Err && !(cmd is ChainGetHeight),
            Step::Watch { .. } => false,
            Step::Drop => cmd is ChainGetHeight,
        },
{
}

/// Once its request came back, a command is answered: with the kind of answer
/// that its caller expects, an error, or a new monitor for the command that
/// asked for one. Only fetching a template takes a second request.
pub proof fn commands_are_answered<C: Clone>(
    actor: Actor<C>,
    cmd: Command,
    sent: Step<C>,
    pending: Pending<C>,
    before: Actor<C>,
    completion: Completion<'_, C>,
    after: Actor<C>,
    step: Step<C>,
)
    requires
        actor.handles(cmd, sent),
        sent matches Step::Send { pending: p, .. } && p == pending,
        completion.completes(pending),
        before.resumes(completion, after, step),
    ensures
        match step {
            Step::Deliver(Ok(answer)) => cmd.expects(answer),
            Step::Deliver(Err(_)) => true,
            Step::Watch { .. } => cmd is MiningStartMonitoring,
            Step::Send { pending: next, .. } => cmd is MonitorFetchBlockTemplate
                && next is FetchCoinbase,
            Step::Drop => false,
        },
{
}

/// The second request of a template fetch ends the command.
pub proof fn fetching_ends_with_the_coinbase<C: Clone>(
    actor: Actor<C>,
    cmd: Command,
    pending: Pending<C>,
    completion: Completion<'_, C>,
    after: Actor<C>,
    step: Step<C>,
)
    requires
        cmd is MonitorFetchBlockTemplate,
        pending is FetchCoinbase,
        completion.completes(pending),
        actor.resumes(completion, after, step),
    ensures
        step matches Step::Deliver(reply) && (reply matches Ok(answer) ==> cmd.expects(answer)),
{
}

/// The block and the coinbase of a fetch come from one and the same template:
/// the one that the monitor had when the fetch began. Both are delivered as
/// the node sent them.
pub proof fn fetched_parts_belong_together<C: Clone>(
    actor: Actor<C>,
    id: u64,
    first: Step<C>,
    block: Completion<'_, C>,
    second: Step<C>,
    coinbase: Completion<'_, C>,
    last: Step<C>,
)
    requires
        actor.monitors@.contains_key(id),
        actor.handles(Command::MonitorFetchBlockTemplate { monitor_id: id }, first),
        first matches Step::Send { pending, .. } ==> block.completes(pending),
        actor.resumes(block, actor, second),
        block.failure() is None,
        second matches Step::Send { pending, .. } ==> coinbase.completes(pending),
        actor.resumes(coinbase, actor, last),
        coinbase.failure() is None,
    ensures
        first matches Step::Send { request, .. } && request.method == Method::GetBlock && cloned(
            actor.template(id),
            request.target,
        ),
        second matches Step::Send { request, .. } && request.method == Method::GetCoinbaseTx
            && cloned(actor.template(id), request.target),
        match (block, coinbase, last) {
            (
                Completion::FetchBlock { exchange: x, .. },
                Completion::FetchCoinbase { exchange: y, .. },
                Step::Deliver(Ok(Answer::BlockAndCoinbase { block: b, coinbase: c })),
            ) => {
                &&& x.granted() matches Ok(sent_block) && b@ == sent_block@
                &&& y.granted() matches Ok(sent_coinbase) && c@ == sent_coinbase@
            },
            _ => false,
        },
{
}

/// The raw bytes that the node sends (a header, a block, a coinbase, a
/// commitment) are delivered byte for byte.
pub proof fn raw_data_is_delivered_as_sent<C: Clone>(
    actor: Actor<C>,
    exchange: Exchange<Result<&[u8], capnp::Error>>,
    data: &[u8],
    after: Actor<C>,
    step: Step<C>,
)
    requires
        exchange.granted() == Ok::<&[u8], BitcoinCapnpError>(data),
        actor.resumes(Completion::Bytes(exchange), after, step),
    ensures
        step matches Step::Deliver(Ok(Answer::Bytes(bytes))) && bytes@ == data@,
{
}

/// The fees and sigop counts that the node sends are delivered number for
/// number, in the order of the transactions.
pub proof fn numbers_are_delivered_as_sent<C: Clone>(
    actor: Actor<C>,
    exchange: Exchange<Result<Int64ListReader<'_>, capnp::Error>>,
    list: Int64ListReader<'_>,
    after: Actor<C>,
    step: Step<C>,
)
    requires
        exchange.granted() == Ok::<Int64ListReader<'_>, BitcoinCapnpError>(list),
        actor.resumes(Completion::Int64List(exchange), after, step),
    ensures
        step matches Step::Deliver(Ok(Answer::Int64List(items))) && items@
            == crate::wire::int64_list_items(list),
{
}

/// A merkle path that is delivered has every hash that the node sent, byte for
/// byte and in its order: it is never cut short. An empty path is always
/// delivered.
pub proof fn merkle_paths_are_whole<C: Clone>(
    actor: Actor<C>,
    exchange: Exchange<Result<capnp::data_list::Reader<'_>, capnp::Error>>,
    list: capnp::data_list::Reader<'_>,
    after: Actor<C>,
    step: Step<C>,
)
    requires
        exchange.granted() == Ok::<capnp::data_list::Reader<'_>, BitcoinCapnpError>(list),
        actor.resumes(Completion::DataList(exchange), after, step),
    ensures
        match step {
            Step::Deliver(Ok(Answer::DataList(path))) => path@.map_values(|hash: Vec<u8>| hash@)
                == crate::wire::data_list_items(list),
            Step::Deliver(Err(BitcoinCapnpError::CapnpError(_))) => crate::wire::data_list_items(
                list,
            ).len() > 0,
            _ => false,
        },
{
}

/// A merkle path whose every hash was read is delivered whole. If a hash could
/// not be read, the error of the first such read is delivered instead of a
/// path.
pub proof fn readable_merkle_paths_are_delivered(
    list: capnp::data_list::Reader<'_>,
    reads: Seq<Result<&[u8], capnp::Error>>,
    r: Result<Vec<Vec<u8>>, BitcoinCapnpError>,
)
    requires
        reads.len() <= crate::wire::data_list_items(list).len(),
        forall|i: int|
            0 <= i < reads.len() ==> ((#[trigger] reads[i]) matches Ok(hash) ==> hash@
                == crate::wire::data_list_items(list)[i]),
        DataList::collects(reads, r),
    ensures
        ({
            &&& reads.len() == crate::wire::data_list_items(list).len()
            &&& forall|i: int| 0 <= i < reads.len() ==> (#[trigger] reads[i]) is Ok
        }) ==> {
            &&& r matches Ok(path)
            &&& path@.map_values(|hash: Vec<u8>| hash@) == crate::wire::data_list_items(list)
        },
        forall|i: int|
            {
                &&& 0 <= i < reads.len()
                &&& (#[trigger] reads[i]) is Err
                &&& forall|j: int| 0 <= j < i ==> (#[trigger] reads[j]) is Ok
            } ==> r == Err::<Vec<Vec<u8>>, BitcoinCapnpError>(
                BitcoinCapnpError::CapnpError(reads[i]->Err_0),
            ),
{
    if let Ok(path) = r {
        let items = crate::wire::data_list_items(list);
        assert forall|i: int| 0 <= i < reads.len() implies (#[trigger] path@[i])@ == items[i] by {
            assert(reads[i] is Ok);
        }
        if reads.len() == items.len() {
            assert(path@.map_values(|hash: Vec<u8>| hash@) =~= items);
        }
    }
}

/// The chain tip that the node reports is delivered as it is, and the absence
/// of one as the absence of one.
pub proof fn tips_are_delivered_as_reported<C: Clone>(
    actor: Actor<C>,
    results: OptionBlockRef,
    after: Actor<C>,
    step: Step<C>,
)
    requires
        results.readable(),
        !results.has_result || results.result is Ok,
        actor.resumes(Completion::OptionBlockRef(Exchange::Answered(results)), after, step),
    ensures
        step matches Step::Deliver(Ok(Answer::OptionBlockRef(tip))) && match tip {
            Some(block) => {
                &&& results.has_result
                &&& results.result matches Ok(sent)
                &&& sent.hash == Ok::<Vec<u8>, capnp::Error>(block.hash)
                &&& sent.height == block.height
            },
            None => !results.has_result,
        },
{
}

/// Reading from the node leaves the actor as it was.
pub proof fn reading_changes_nothing<C: Clone>(
    actor: Actor<C>,
    completion: Completion<'_, C>,
    after: Actor<C>,
    step: Step<C>,
)
    requires
        actor.resumes(completion, after, step),
        !(completion is CreateNewBlock),
        !(completion is StartMonitoring),
        !(completion is WaitNext),
    ensures
        after == actor,
{
}

/// A new block template becomes the template of every active monitor.
pub proof fn new_blocks_update_every_monitor<C: Clone>(
    actor: Actor<C>,
    exchange: Exchange<Result<C, capnp::Error>>,
    template: C,
    after: Actor<C>,
    step: Step<C>,
)
    requires
        exchange.granted() == Ok::<C, BitcoinCapnpError>(template),
        actor.resumes(Completion::CreateNewBlock(exchange), after, step),
    ensures
        step == Step::<C>::Deliver(Ok(Answer::Unit)),
        after.monitors@.dom() == actor.monitors@.dom(),
        forall|id: u64| #[trigger]
            actor.monitors@.contains_key(id) ==> cloned(template, after.template(id)),
{
    assert forall|id: u64| #[trigger] actor.monitors@.contains_key(id) implies cloned(
        template,
        after.template(id),
    ) by {
        assert(after.monitors@.dom().contains(id));
        assert(after.monitors@.contains_key(id));
    }
}

/// Waiting for the next template replaces the template of the monitor that
/// waited, and of no other.
pub proof fn waiting_updates_one_monitor<C: Clone>(
    actor: Actor<C>,
    id: u64,
    exchange: Exchange<Result<C, capnp::Error>>,
    template: C,
    after: Actor<C>,
    step: Step<C>,
)
    requires
        actor.monitors@.contains_key(id),
        exchange.granted() == Ok::<C, BitcoinCapnpError>(template),
        actor.resumes(Completion::WaitNext { monitor_id: id, exchange }, after, step),
    ensures
        step == Step::<C>::Deliver(Ok(Answer::Unit)),
        after.template(id) == template,
        after.monitors@.dom() == actor.monitors@.dom(),
        forall|other: u64| #[trigger]
            actor.monitors@.contains_key(other) && other != id ==> after.template(other)
                == actor.template(other),
{
    assert(after.monitors@.dom() =~= actor.monitors@.dom());
}

/// Once a wait brought a new template, the commands of that monitor go to it.
pub proof fn reads_follow_the_new_template<C: Clone>(
    actor: Actor<C>,
    id: u64,
    exchange: Exchange<Result<C, capnp::Error>>,
    template: C,
    after: Actor<C>,
    step: Step<C>,
    cmd: Command,
    next: Step<C>,
)
    requires
        actor.monitors@.contains_key(id),
        exchange.granted() == Ok::<C, BitcoinCapnpError>(template),
        actor.resumes(Completion::WaitNext { monitor_id: id, exchange }, after, step),
        cmd.monitor() == Some(id),
        after.handles(cmd, next),
    ensures
        next matches Step::Send { request, .. } && cloned(template, request.target),
{
}

/// Once a new block was created, the commands of every monitor go to its
/// template: each monitor holds a clone of it, and a request carries a clone
/// of that.
pub proof fn reads_follow_the_new_block<C: Clone>(
    actor: Actor<C>,
    id: u64,
    exchange: Exchange<Result<C, capnp::Error>>,
    template: C,
    after: Actor<C>,
    step: Step<C>,
    cmd: Command,
    next: Step<C>,
)
    requires
        actor.monitors@.contains_key(id),
        exchange.granted() == Ok::<C, BitcoinCapnpError>(template),
        actor.resumes(Completion::CreateNewBlock(exchange), after, step),
        cmd.monitor() == Some(id),
        after.handles(cmd, next),
    ensures
        cloned(template, after.template(id)),
        next matches Step::Send { request, .. } && cloned(after.template(id), request.target),
{
    assert(after.monitors@.dom().contains(id));
    assert(after.monitors@.contains_key(id));
}

/// A new monitor gets an id that no monitor has or had, starts with the
/// template that the node made for it, and leaves the other monitors alone.
pub proof fn new_monitors_get_fresh_ids<C: Clone>(
    actor: Actor<C>,
    exchange: Exchange<Result<C, capnp::Error>>,
    template: C,
    after: Actor<C>,
    step: Step<C>,
)
    requires
        actor.wf(),
        actor.next_monitor_id < u64::MAX,
        exchange.granted() == Ok::<C, BitcoinCapnpError>(template),
        actor.resumes(Completion::StartMonitoring(exchange), after, step),
    ensures
        after.wf(),
        step matches Step::Watch { monitor_id, .. } && {
            &&& !actor.monitors@.contains_key(monitor_id)
            &&& after.monitors@.contains_key(monitor_id)
            &&& after.template(monitor_id) == template
            &&& forall|other: u64| #[trigger]
                actor.monitors@.contains_key(other) ==> other < monitor_id
                    && after.monitors@.contains_key(other) && after.template(other)
                    == actor.template(other)
        },
{
    assert forall|id: u64| #[trigger] after.monitors@.contains_key(id) <==> 1 <= id
        < after.next_monitor_id by {
        assert(actor.monitors@.contains_key(id) <==> 1 <= id < actor.next_monitor_id);
    }
}

/// One completion of a request takes an actor from `before` to `after`.
pub open spec fn actor_moves<C: Clone>(before: Actor<C>, after: Actor<C>) -> bool {
    exists|completion: Completion<'_, C>, step: Step<C>|
        {
            &&& #[trigger] before.resumes(completion, after, step)
            &&& completion.starts_monitor() ==> before.next_monitor_id < u64::MAX
        }
}

/// The states that an actor went through, each from the one before by the
/// completion of a request.
pub open spec fn actor_history<C: Clone>(states: Seq<Actor<C>>) -> bool {
    forall|i: int|
        0 <= i < states.len() - 1 ==> actor_moves(#[trigger] states[i], states[i + 1])
}

/// In every state of an actor, the ids that were handed out are exactly those
/// of its monitors.
pub proof fn ids_stay_in_step_with_monitors<C: Clone>(states: Seq<Actor<C>>, i: int)
    requires
        actor_history(states),
        0 <= i < states.len(),
        states[0].wf(),
    ensures
        states[i].wf(),
    decreases i,
{
    if i > 0 {
        ids_stay_in_step_with_monitors(states, i - 1);
        let before = states[i - 1];
        let after = states[i];
        assert(actor_moves(before, states[i - 1 + 1]));
        let (completion, step) = choose|completion: Completion<'_, C>, step: Step<C>|
            {
                &&& #[trigger] before.resumes(completion, after, step)
                &&& completion.starts_monitor() ==> before.next_monitor_id < u64::MAX
            };
        assert forall|id: u64| #[trigger] after.monitors@.contains_key(id) <==> 1 <= id
            < after.next_monitor_id by {
            assert(before.monitors@.contains_key(id) <==> 1 <= id < before.next_monitor_id);
            assert(after.monitors@.contains_key(id) <==> after.monitors@.dom().contains(id));
            assert(before.monitors@.contains_key(id) <==> before.monitors@.dom().contains(id));
        }
    }
}

/// A monitor, once registered, stays registered, and ids are only ever
/// handed out upwards.
pub proof fn monitors_stay_registered<C: Clone>(states: Seq<Actor<C>>, i: int, j: int, id: u64)
    requires
        actor_history(states),
        0 <= i <= j < states.len(),
    ensures
        states[i].next_monitor_id <= states[j].next_monitor_id,
        states[i].monitors@.contains_key(id) ==> states[j].monitors@.contains_key(id),
    decreases j - i,
{
    if i < j {
        monitors_stay_registered(states, i, j - 1, id);
        let before = states[j - 1];
        assert(actor_moves(before, states[j - 1 + 1]));
        let (completion, step) = choose|completion: Completion<'_, C>, step: Step<C>|
            {
                &&& #[trigger] before.resumes(completion, states[j], step)
                &&& completion.starts_monitor() ==> before.next_monitor_id < u64::MAX
            };
        assert(before.monitors@.contains_key(id) ==> states[j].monitors@.dom().contains(id));
    }
}

/// Two monitors never have the same id, however much happens in between.
pub proof fn ids_are_never_reused<C: Clone>(
    states: Seq<Actor<C>>,
    i: int,
    j: int,
    first: Completion<'_, C>,
    second: Completion<'_, C>,
    first_step: Step<C>,
    second_step: Step<C>,
)
    requires
        actor_history(states),
        0 <= i < j < states.len() - 1,
        first.starts_monitor(),
        second.starts_monitor(),
        states[i].next_monitor_id < u64::MAX,
        states[i].resumes(first, states[i + 1], first_step),
        states[j].resumes(second, states[j + 1], second_step),
    ensures
        match (first_step, second_step) {
            (Step::Watch { monitor_id: a, .. }, Step::Watch { monitor_id: b, .. }) => a < b,
            _ => false,
        },
{
    monitors_stay_registered(states, i + 1, j, 0);
}

/// The weight kept free for the coinbase covers the announced outputs and is
/// never less than the minimum; it is no more than one of the two asks for.
pub proof fn reserved_weight_is_enough(size: u32)
    ensures
        crate::mining::reserved_weight(size) >= 4 * size,
        crate::mining::reserved_weight(size) >= 2000,
        crate::mining::reserved_weight(size) == 4 * size || crate::mining::reserved_weight(size)
            == 2000,
{
}

/// Block creation options written into a request read back the same,
/// whatever was there before.
pub proof fn create_options_survive_the_request(
    options: BlockCreateOptions,
    before: BlockCreateOptionsBuilder,
)
    ensures
        options.applied(before).use_mempool == options.use_mempool,
        options.applied(before).block_reserved_weight == options.block_reserved_weight,
        options.applied(before).coinbase_output_max_additional_sigops
            == options.coinbase_output_max_additional_sigops,
{
}

/// Block wait options written into a request read back the same, whatever
/// was there before.
pub proof fn wait_options_survive_the_request(
    options: BlockWaitOptions,
    before: BlockWaitOptionsBuilder,
)
    ensures
        options.applied(before).timeout == options.timeout,
        options.applied(before).fee_threshold == options.fee_threshold,
{
}

/// If the node gives back the bytes of the message that it was sent, the
/// caller of `echo` gets its message back.
pub proof fn echo_gives_the_message_back<C: Clone>(
    actor: Actor<C>,
    message: String,
    first: Step<C>,
    text: capnp::text::Reader<'_>,
    after: Actor<C>,
    step: Step<C>,
)
    requires
        actor.handles(Command::EchoEcho { message }, first),
        text.0@ == vstd::utf8::encode_utf8(message@),
        actor.resumes(Completion::Text(Exchange::Answered(Ok(text))), after, step),
    ensures
        first matches Step::Send { request, .. } && request.method == (Method::Echo { message })
            && cloned(actor.echo_ipc_client, request.target),
        step matches Step::Deliver(Ok(Answer::Text(reply))) && reply@ == message@,
{
    vstd::utf8::encode_utf8_valid_utf8(message@);
    vstd::utf8::encode_utf8_decode_utf8(message@);
}

/// A tip change is published only when the tip that the node reports is not
/// the one it last reported, and carries the new tip.
pub proof fn tip_changes_are_changes(
    before: TipMonitor,
    exchange: Exchange<Result<BlockRefReader, capnp::Error>>,
    after: TipMonitor,
    effect: Effect,
    tip: TipChange,
)
    requires
        before.advances(exchange, after, effect),
        effect.publish == Some(tip),
    ensures
        before matches TipMonitor::Watching { hash, .. } && hash@ != tip.hash@,
        after matches TipMonitor::Watching { height, hash } && hash@ == tip.hash@ && height
            == tip.height,
        TipMonitor::reported(exchange) matches Some((_, hash)) && hash@ == tip.hash@,
{
}

/// No change of the tip goes unpublished: whenever the node reports a tip
/// other than the one it last reported, that tip is published.
pub proof fn every_change_is_published(
    before: TipMonitor,
    exchange: Exchange<Result<BlockRefReader, capnp::Error>>,
    after: TipMonitor,
    effect: Effect,
    height: u64,
    hash: Vec<u8>,
    new_height: i32,
    new_hash: Vec<u8>,
)
    requires
        before.advances(exchange, after, effect),
        before == (TipMonitor::Watching { height, hash }),
        TipMonitor::reported(exchange) == Some((new_height, new_hash)),
        new_hash@ != hash@,
    ensures
        effect.publish matches Some(tip) && tip.hash@ == new_hash@ && tip.height
            == crate::monitor::unsigned_height(new_height),
{
}

/// The states that the watching task went through, and what it did on the
/// way from each to the next.
pub open spec fn tip_history(states: Seq<TipMonitor>, effects: Seq<Effect>) -> bool {
    &&& states.len() == effects.len() + 1
    &&& forall|i: int|
        0 <= i < effects.len() ==> tip_moves(states[i], states[i + 1], #[trigger] effects[i])
}

/// One answer of the node takes the watching task from `before` to `after`.
pub open spec fn tip_moves(before: TipMonitor, after: TipMonitor, effect: Effect) -> bool {
    exists|exchange: Exchange<Result<BlockRefReader, capnp::Error>>| #[trigger]
        before.advances(exchange, after, effect)
}

/// Between two publications, the task waits for a change from the tip that it
/// published, or is over.
proof fn lemma_last_tip_is_kept(
    states: Seq<TipMonitor>,
    effects: Seq<Effect>,
    i: int,
    j: int,
    tip: TipChange,
)
    requires
        tip_history(states, effects),
        0 <= i < j < states.len(),
        effects[i].publish == Some(tip),
        forall|k: int| i < k < j ==> (#[trigger] effects[k]).publish is None,
    ensures
        states[j] matches TipMonitor::Watching { hash, .. } ==> hash@ == tip.hash@,
        !(states[j] is Starting),
    decreases j - i,
{
    assert(tip_moves(states[j - 1], states[j - 1 + 1], effects[j - 1]));
    if i < j - 1 {
        lemma_last_tip_is_kept(states, effects, i, j - 1, tip);
    }
}

/// The same tip is never published twice in a row.
pub proof fn tips_are_not_repeated(
    states: Seq<TipMonitor>,
    effects: Seq<Effect>,
    i: int,
    j: int,
    first: TipChange,
    second: TipChange,
)
    requires
        tip_history(states, effects),
        0 <= i < j < effects.len(),
        effects[i].publish == Some(first),
        effects[j].publish == Some(second),
        forall|k: int| i < k < j ==> (#[trigger] effects[k]).publish is None,
    ensures
        first.hash@ != second.hash@,
{
    lemma_last_tip_is_kept(states, effects, i, j, first);
    assert(tip_moves(states[j], states[j + 1], effects[j]));
}

/// The watching task survives a call that fails and a response that cannot
/// be read: it goes on waiting for a change from the same tip.
pub proof fn watching_survives_failures(
    before: TipMonitor,
    exchange: Exchange<Result<BlockRefReader, capnp::Error>>,
    after: TipMonitor,
    effect: Effect,
)
    requires
        before is Watching,
        before.advances(exchange, after, effect),
        TipMonitor::reported(exchange) is None,
        !(exchange is NotSent),
        !(exchange is Cancelled),
    ensures
        after == before,
        effect.publish is None,
        !effect.cancel_stop,
{
}

/// The watching task cancels its stop token only as it ends, and once it has
/// ended it does nothing more.
pub proof fn stopping_is_final(
    before: TipMonitor,
    exchange: Exchange<Result<BlockRefReader, capnp::Error>>,
    after: TipMonitor,
    effect: Effect,
)
    requires
        before.advances(exchange, after, effect),
    ensures
        effect.cancel_stop ==> after is Stopped,
        before is Stopped ==> after is Stopped && effect.publish is None && !effect.cancel_stop,
{
}

/// The states of a connection setup, and what came of the call that each of
/// them names.
pub open spec fn bootstrap_history<P, C: Clone>(
    states: Seq<Bootstrap<P, C>>,
    granted: Seq<Result<C, BitcoinCapnpError>>,
) -> bool {
    &&& states.len() == granted.len() + 1
    &&& states[0] is Connect
    &&& forall|i: int|
        0 <= i < granted.len() ==> (#[trigger] states[i]).steps(granted[i], states[i + 1])
}

/// How many capabilities a connection setup still has to obtain.
pub open spec fn calls_left<P, C>(state: Bootstrap<P, C>) -> int {
    match state {
        Bootstrap::Connect { .. } => 5,
        Bootstrap::Construct { .. } => 4,
        Bootstrap::MakeThread { .. } => 3,
        Bootstrap::MakeMining { .. } => 2,
        Bootstrap::MakeEcho { .. } => 1,
        Bootstrap::Ready(_) => 0,
        Bootstrap::Failed(_) => 0,
    }
}

/// While everything is granted, every call brings the setup one capability
/// nearer to its end.
proof fn lemma_setup_progresses<P, C: Clone>(
    states: Seq<Bootstrap<P, C>>,
    granted: Seq<Result<C, BitcoinCapnpError>>,
    k: int,
)
    requires
        bootstrap_history(states, granted),
        0 <= k <= granted.len(),
        k <= 5,
        forall|i: int| 0 <= i < k ==> (#[trigger] granted[i]) is Ok,
    ensures
        calls_left(states[k]) == 5 - k,
        !(states[k] is Failed),
    decreases k,
{
    if k > 0 {
        lemma_setup_progresses(states, granted, k - 1);
        assert(states[k - 1].steps(granted[k - 1], states[k - 1 + 1]));
    }
}

/// A connection setup whose five calls are all granted ends with an actor
/// that holds the thread, the Mining and the Echo capability so obtained, has
/// no monitor, and will give its first monitor the id 1.
pub proof fn setup_succeeds_when_all_is_granted<P, C: Clone>(
    states: Seq<Bootstrap<P, C>>,
    granted: Seq<Result<C, BitcoinCapnpError>>,
)
    requires
        bootstrap_history(states, granted),
        granted.len() == 5,
        forall|i: int| 0 <= i < 5 ==> (#[trigger] granted[i]) is Ok,
    ensures
        states[5] matches Bootstrap::Ready(actor) && {
            &&& actor.wf()
            &&& granted[2] == Ok::<C, BitcoinCapnpError>(actor.thread_ipc_client)
            &&& granted[3] == Ok::<C, BitcoinCapnpError>(actor.mining_ipc_client)
            &&& granted[4] == Ok::<C, BitcoinCapnpError>(actor.echo_ipc_client)
            &&& forall|id: u64| !(#[trigger] actor.monitors@.contains_key(id))
            &&& actor.next_monitor_id == 1
        },
{
    assert(granted[0] is Ok && granted[1] is Ok && granted[2] is Ok && granted[3] is Ok
        && granted[4] is Ok);
    assert(states[0].steps(granted[0], states[0int + 1]));
    assert(states[1].steps(granted[1], states[1int + 1]));
    assert(states[2].steps(granted[2], states[2int + 1]));
    assert(states[3].steps(granted[3], states[3int + 1]));
    assert(states[4].steps(granted[4], states[4int + 1]));
}

/// A connection setup fails with the first error that one of its five calls
/// meets, and stays failed with that error.
pub proof fn setup_fails_with_the_first_error<P, C: Clone>(
    states: Seq<Bootstrap<P, C>>,
    granted: Seq<Result<C, BitcoinCapnpError>>,
    k: int,
    n: int,
    e: BitcoinCapnpError,
)
    requires
        bootstrap_history(states, granted),
        0 <= k < 5,
        k < n < states.len(),
        forall|i: int| 0 <= i < k ==> (#[trigger] granted[i]) is Ok,
        granted[k] == Err::<C, BitcoinCapnpError>(e),
    ensures
        states[n] == Bootstrap::<P, C>::Failed(e),
    decreases n,
{
    assert(states[n - 1].steps(granted[n - 1], states[n - 1 + 1]));
    if n == k + 1 {
        lemma_setup_progresses(states, granted, k);
    } else {
        setup_fails_with_the_first_error(states, granted, k, n - 1, e);
    }
}

} // verus!
