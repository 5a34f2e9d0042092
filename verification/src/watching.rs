//! What the task that watches the chain tip does about each answer of the
//! node, and what a connection setup asks for in turn.

use vstd::prelude::*;

use crate::actor::{Exchange, Method, Request};
use crate::error::BitcoinCapnpError;
use crate::libmp::Bootstrap;
use crate::monitor::{Effect, TipMonitor};
use crate::wire::BlockRefReader;
use crate::BitcoinCapnp;

verus! {

/// `height` is the signed height `reported`, with its sign extended.
pub open spec fn extends(height: u64, reported: i32) -> bool {
    &&& reported >= 0 ==> height == reported
    &&& reported < 0 ==> height == reported + 0x1_0000_0000_0000_0000
}

/// A watch begins by asking for the current tip, and nothing ends that wait
/// early.
pub proof fn watches_begin_with_the_tip<C: Clone>(
    watch: TipMonitor,
    mining: C,
    thread: C,
    call: Option<(Request<C>, bool)>,
)
    requires
        call_ensures(TipMonitor::new, (), watch),
        call_ensures(TipMonitor::call::<C>, (&watch, &mining, &thread), call),
    ensures
        call matches Some((request, cancellable)) && {
            &&& request.method is GetTip
            &&& cloned(mining, request.target)
            &&& cloned(thread, request.thread)
            &&& !cancellable
        },
{
}

/// Whatever readable tip the node reports first, the task watches from it:
/// from just that hash and height. It publishes nothing yet, and it does not
/// cancel its stop token.
pub proof fn the_first_tip_is_watched_from(
    watch: TipMonitor,
    tip: BlockRefReader,
    after: TipMonitor,
    effect: Effect,
)
    requires
        call_ensures(TipMonitor::new, (), watch),
        tip.hash is Ok,
        watch.advances(Exchange::Answered(Ok(tip)), after, effect),
    ensures
        after matches TipMonitor::Watching { height, hash } && {
            &&& hash@ == tip.hash->Ok_0@
            &&& extends(height, tip.height)
        },
        effect.publish is None,
        !effect.cancel_stop,
{
}

/// A task that has no tip yet stops only if no readable tip was reported, and
/// then it cancels its stop token.
pub proof fn watches_stop_early_only_without_a_tip(
    watch: TipMonitor,
    exchange: Exchange<Result<BlockRefReader, capnp::Error>>,
    after: TipMonitor,
    effect: Effect,
)
    requires
        watch is Starting,
        watch.advances(exchange, after, effect),
    ensures
        after is Stopped <==> !(exchange matches Exchange::Answered(Ok(tip)) && tip.hash is Ok),
        effect.cancel_stop <==> after is Stopped,
        effect.publish is None,
{
}

/// While it watches, the task waits for a change from the hash that it knows,
/// with a timeout of 10000.0, and its stop token ends the wait.
pub proof fn watches_wait_from_the_tip_they_know<C: Clone>(
    height: u64,
    hash: Vec<u8>,
    mining: C,
    thread: C,
    call: Option<(Request<C>, bool)>,
)
    requires
        call_ensures(
            TipMonitor::call::<C>,
            (&TipMonitor::Watching { height, hash }, &mining, &thread),
            call,
        ),
    ensures
        call matches Some((request, cancellable)) && {
            &&& request.method matches Method::WaitTipChanged { current_tip, timeout }
            &&& current_tip@ == hash@
            &&& timeout.bits == 0x40C3_8800_0000_0000
            &&& cloned(mining, request.target)
            &&& cloned(thread, request.thread)
            &&& cancellable
        },
{
}

/// The method to call next is the one that the next call is made with.
pub proof fn calls_are_made_with_the_next_method<C: Clone>(
    watch: TipMonitor,
    mining: C,
    thread: C,
    call: Option<(Request<C>, bool)>,
    next: Option<(Method, bool)>,
)
    requires
        call_ensures(TipMonitor::call::<C>, (&watch, &mining, &thread), call),
        call_ensures(TipMonitor::request, (&watch,), next),
    ensures
        match (call, next) {
            (Some((request, ends)), Some((method, too))) => {
                &&& ends == too
                &&& match (request.method, method) {
                    (Method::GetTip, Method::GetTip) => true,
                    (
                        Method::WaitTipChanged { current_tip: a, timeout: s },
                        Method::WaitTipChanged { current_tip: b, timeout: t },
                    ) => a@ == b@ && s == t,
                    _ => false,
                }
            },
            (None, None) => watch is Stopped,
            _ => false,
        },
{
}

/// Whenever the node reports a readable tip whose hash is not the one that the
/// task knows, that tip is published, with its hash and height, and becomes
/// the tip that the task knows.
pub proof fn new_tips_are_published(
    height: u64,
    hash: Vec<u8>,
    tip: BlockRefReader,
    after: TipMonitor,
    effect: Effect,
)
    requires
        tip.hash is Ok,
        tip.hash->Ok_0@ != hash@,
        (TipMonitor::Watching { height, hash }).advances(Exchange::Answered(Ok(tip)), after, effect),
    ensures
        effect.publish matches Some(change) && {
            &&& change.hash@ == tip.hash->Ok_0@
            &&& extends(change.height, tip.height)
        },
        !effect.cancel_stop,
        after matches TipMonitor::Watching { height: h, hash: known } && {
            &&& known@ == tip.hash->Ok_0@
            &&& extends(h, tip.height)
        },
{
}

/// If the node reports the tip that the task knows, nothing is published and
/// the watch goes on as before.
pub proof fn known_tips_are_not_published(
    height: u64,
    hash: Vec<u8>,
    tip: BlockRefReader,
    after: TipMonitor,
    effect: Effect,
)
    requires
        tip.hash is Ok,
        tip.hash->Ok_0@ == hash@,
        (TipMonitor::Watching { height, hash }).advances(Exchange::Answered(Ok(tip)), after, effect),
    ensures
        effect.publish is None,
        !effect.cancel_stop,
        after == (TipMonitor::Watching { height, hash }),
{
}

/// A wait that fails in any way but two is passed over: the watch goes on as
/// before. If the wait could not be sent, the task ends and cancels its stop
/// token; if the stop token fired, it ends quietly.
pub proof fn failed_waits_are_passed_over(
    height: u64,
    hash: Vec<u8>,
    exchange: Exchange<Result<BlockRefReader, capnp::Error>>,
    after: TipMonitor,
    effect: Effect,
)
    requires
        !(exchange matches Exchange::Answered(Ok(tip)) && tip.hash is Ok),
        (TipMonitor::Watching { height, hash }).advances(exchange, after, effect),
    ensures
        effect.publish is None,
        match exchange {
            Exchange::NotSent(_) => after is Stopped && effect.cancel_stop,
            Exchange::Cancelled => after is Stopped && !effect.cancel_stop,
            _ => after == (TipMonitor::Watching { height, hash }) && !effect.cancel_stop,
        },
{
}

/// A task that is over makes no call and publishes nothing, and stays over.
pub proof fn ended_watches_stay_ended<C: Clone>(
    exchange: Exchange<Result<BlockRefReader, capnp::Error>>,
    after: TipMonitor,
    effect: Effect,
    mining: C,
    thread: C,
    call: Option<(Request<C>, bool)>,
)
    requires
        TipMonitor::Stopped.advances(exchange, after, effect),
        call_ensures(TipMonitor::call::<C>, (&TipMonitor::Stopped, &mining, &thread), call),
    ensures
        after is Stopped,
        effect.publish is None,
        !effect.cancel_stop,
        call is None,
{
}

/// From the first tip to the first change: whatever two readable tips with
/// different hashes the node reports, the task waits from the first and
/// publishes the second, and then waits from the second.
pub proof fn the_first_change_is_published<C: Clone>(
    watch: TipMonitor,
    first: BlockRefReader,
    watching: TipMonitor,
    started: Effect,
    mining: C,
    thread: C,
    call: Option<(Request<C>, bool)>,
    second: BlockRefReader,
    after: TipMonitor,
    effect: Effect,
    next: Option<(Request<C>, bool)>,
)
    requires
        call_ensures(TipMonitor::new, (), watch),
        first.hash is Ok,
        watch.advances(Exchange::Answered(Ok(first)), watching, started),
        call_ensures(TipMonitor::call::<C>, (&watching, &mining, &thread), call),
        second.hash is Ok,
        second.hash->Ok_0@ != first.hash->Ok_0@,
        watching.advances(Exchange::Answered(Ok(second)), after, effect),
        call_ensures(TipMonitor::call::<C>, (&after, &mining, &thread), next),
    ensures
        started.publish is None && !started.cancel_stop,
        call matches Some((request, _)) && (request.method matches Method::WaitTipChanged {
            current_tip,
            ..
        } && current_tip@ == first.hash->Ok_0@),
        effect.publish matches Some(change) && change.hash@ == second.hash->Ok_0@ && extends(
            change.height,
            second.height,
        ),
        !effect.cancel_stop,
        next matches Some((request, _)) && (request.method matches Method::WaitTipChanged {
            current_tip,
            ..
        } && current_tip@ == second.hash->Ok_0@),
{
}

/// A new client sets out to connect to the socket that it was given, and its
/// three clients share the handle to the actor.
pub proof fn clients_set_out_for_their_socket<Tx: Clone, P, C>(
    path: P,
    cmd_tx: Tx,
    r: (BitcoinCapnp<Tx>, Bootstrap<P, C>),
)
    requires
        call_ensures(BitcoinCapnp::<Tx>::new::<P, C>, (path, cmd_tx), r),
    ensures
        r.1 matches Bootstrap::Connect { path: p } && p == path,
        cloned(cmd_tx, r.0.mining.cmd_tx),
        cloned(cmd_tx, r.0.echo.cmd_tx),
        r.0.chain.cmd_tx == cmd_tx,
{
}

/// A copy of a client reaches the same actor.
pub proof fn clients_are_copied_whole<Tx: Clone>(client: BitcoinCapnp<Tx>, copy: BitcoinCapnp<Tx>)
    requires
        cloned(client, copy),
    ensures
        cloned(client.mining.cmd_tx, copy.mining.cmd_tx),
        cloned(client.chain.cmd_tx, copy.chain.cmd_tx),
        cloned(client.echo.cmd_tx, copy.echo.cmd_tx),
{
}

/// A connection setup asks each capability of the one that provides it: the
/// thread map of the bootstrap client, the thread of the thread map, and the
/// Mining and Echo interfaces of the bootstrap client in the context of that
/// thread. The actor then has the last three.
pub proof fn setup_asks_the_right_capability<P, C: Clone>(
    path: P,
    init: C,
    thread_map: C,
    thread: C,
    mining: C,
    echo: C,
    s1: Bootstrap<P, C>,
    s2: Bootstrap<P, C>,
    s3: Bootstrap<P, C>,
    s4: Bootstrap<P, C>,
    s5: Bootstrap<P, C>,
)
    requires
        call_ensures(Bootstrap::<P, C>::step, (Bootstrap::Connect { path }, Ok(init)), s1),
        call_ensures(Bootstrap::<P, C>::step, (s1, Ok(thread_map)), s2),
        call_ensures(Bootstrap::<P, C>::step, (s2, Ok(thread)), s3),
        call_ensures(Bootstrap::<P, C>::step, (s3, Ok(mining)), s4),
        call_ensures(Bootstrap::<P, C>::step, (s4, Ok(echo)), s5),
    ensures
        s1 matches Bootstrap::Construct { init: i } && i == init,
        s2 matches Bootstrap::MakeThread { init: i, thread_map: m } && i == init && m == thread_map,
        s3 matches Bootstrap::MakeMining { init: i, thread: t } && i == init && t == thread,
        s4 matches Bootstrap::MakeEcho { init: i, thread: t, mining: m } && i == init && t == thread
            && m == mining,
        s5 matches Bootstrap::Ready(actor) && {
            &&& actor.thread_ipc_client == thread
            &&& actor.mining_ipc_client == mining
            &&& actor.echo_ipc_client == echo
            &&& actor.next_monitor_id == 1
            &&& forall|id: u64| !(#[trigger] actor.monitors@.contains_key(id))
        },
{
}

/// An error ends a connection setup wherever it stands, with that error; a
/// setup that has ended is not moved by anything.
pub proof fn setup_ends_with_its_error<P, C: Clone>(
    state: Bootstrap<P, C>,
    granted: Result<C, BitcoinCapnpError>,
    after: Bootstrap<P, C>,
)
    requires
        call_ensures(Bootstrap::<P, C>::step, (state, granted), after),
    ensures
        match state {
            Bootstrap::Ready(_) => after == state,
            Bootstrap::Failed(_) => after == state,
            _ => (granted matches Err(e) ==> after == Bootstrap::<P, C>::Failed(e)),
        },
{
}

} // verus!
