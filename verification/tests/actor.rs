use bitcoin_capnp::actor::{
    Actor, Answer, Command, Completion, Exchange, Method, Pending, Request, Step,
    TIP_CHANGE_CAPACITY,
};
use bitcoin_capnp::extract::OptionBlockRef;
use bitcoin_capnp::libmp::Bootstrap;
use bitcoin_capnp::wire::{BlockRefReader, Float64, Int64ListReader};
use bitcoin_capnp::{BitcoinCapnpError, BlockCreateOptions, BlockWaitOptions};

const THREAD: u32 = 12;
const MINING: u32 = 13;
const ECHO: u32 = 14;

fn failed(text: &str) -> capnp::Error {
    capnp::Error::failed(text.to_string())
}

fn actor() -> Actor<u32> {
    let mut setup: Bootstrap<(), u32> = Bootstrap::Connect { path: () };
    for capability in [10, 11, THREAD, MINING, ECHO] {
        setup = setup.step(Ok(capability));
    }
    match setup {
        Bootstrap::Ready(actor) => actor,
        _ => panic!("not ready"),
    }
}

fn start(actor: &mut Actor<u32>, template: u32) -> u64 {
    match actor.resume(Completion::StartMonitoring(Exchange::Answered(Ok(template)))) {
        Step::Watch { monitor_id, mining: MINING, thread: THREAD } => monitor_id,
        _ => panic!("not started"),
    }
}

fn sent(step: Step<u32>) -> (Request<u32>, bool, Pending<u32>) {
    match step {
        Step::Send { request, cancellable, pending } => (request, cancellable, pending),
        _ => panic!("nothing sent"),
    }
}

fn reply(step: Step<u32>) -> Result<Answer, BitcoinCapnpError> {
    match step {
        Step::Deliver(reply) => reply,
        _ => panic!("nothing delivered"),
    }
}

fn error_text(step: Step<u32>) -> String {
    match reply(step) {
        Err(BitcoinCapnpError::CapnpError(e)) => e.extra,
        _ => panic!("not a capnp error"),
    }
}

fn target_of(actor: &Actor<u32>, monitor_id: u64) -> u32 {
    sent(actor.handle(Command::MonitorGetBlock { monitor_id })).0.target
}

#[test]
fn subscribers_may_lag_sixteen_tips_behind() {
    assert_eq!(TIP_CHANGE_CAPACITY, 16);
}

#[test]
fn node_queries_go_to_the_mining_interface() {
    let a = actor();
    let (request, cancellable, pending) = sent(a.handle(Command::MiningIsTestChain));
    assert_eq!((request.target, request.thread, cancellable), (MINING, THREAD, false));
    assert!(matches!(request.method, Method::IsTestChain));
    assert!(matches!(pending, Pending::Bool));

    let (request, _, pending) = sent(a.handle(Command::MiningIsInitialBlockDownload));
    assert!(matches!(request.method, Method::IsInitialBlockDownload));
    assert!(matches!(pending, Pending::Bool));

    let (request, _, pending) = sent(a.handle(Command::MiningGetTip));
    assert!(matches!(request.method, Method::GetTip));
    assert!(matches!(pending, Pending::OptionBlockRef));
}

#[test]
fn tip_waits_are_filled_in() {
    let (request, cancellable, pending) = sent(actor().handle(Command::MiningWaitTipChanged {
        current_tip: vec![1, 2],
        timeout: Float64 { bits: 3 },
    }));
    assert_eq!((request.target, request.thread, cancellable), (MINING, THREAD, false));
    match request.method {
        Method::WaitTipChanged { current_tip, timeout } => {
            assert_eq!((current_tip, timeout.bits), (vec![1, 2], 3));
        }
        _ => panic!("wrong method"),
    }
    assert!(matches!(pending, Pending::BlockRef));
}

#[test]
fn block_creation_is_filled_in() {
    let options = BlockCreateOptions {
        use_mempool: true,
        block_reserved_weight: 77,
        coinbase_output_max_additional_sigops: 88,
    };
    let (request, cancellable, pending) =
        sent(actor().handle(Command::MiningCreateNewBlock { options }));
    assert_eq!((request.target, request.thread, cancellable), (MINING, THREAD, false));
    match request.method {
        Method::CreateNewBlock { options } => {
            assert!(options.use_mempool);
            assert_eq!(options.block_reserved_weight, 77);
            assert_eq!(options.coinbase_output_max_additional_sigops, 88);
        }
        _ => panic!("wrong method"),
    }
    assert!(matches!(pending, Pending::CreateNewBlock));
}

#[test]
fn monitoring_begins_with_a_template() {
    for (size, weight) in [(1, 2000), (500, 2000), (1000, 4000), (1_073_741_823, 4_294_967_292)] {
        let (request, _, pending) = sent(actor().handle(Command::MiningStartMonitoring {
            coinbase_output_max_additional_size: size,
            coinbase_output_max_additional_sigops: 3,
        }));
        assert_eq!((request.target, request.thread), (MINING, THREAD));
        match request.method {
            Method::CreateNewBlock { options } => {
                assert!(options.use_mempool);
                assert_eq!(options.block_reserved_weight, weight);
                assert_eq!(options.coinbase_output_max_additional_sigops, 3);
            }
            _ => panic!("wrong method"),
        }
        assert!(matches!(pending, Pending::StartMonitoring));
    }
}

#[test]
fn echo_is_the_one_cancellable_call() {
    let a = actor();
    let (request, cancellable, pending) =
        sent(a.handle(Command::EchoEcho { message: "ping".to_string() }));
    assert_eq!((request.target, request.thread, cancellable), (ECHO, THREAD, true));
    assert!(matches!(request.method, Method::Echo { message } if message == "ping"));
    assert!(matches!(pending, Pending::Text));

    let (request, cancellable, pending) = sent(a.handle(Command::EchoDestroy));
    assert_eq!((request.target, request.thread, cancellable), (ECHO, THREAD, false));
    assert!(matches!(request.method, Method::Destroy));
    assert!(matches!(pending, Pending::Unit));
}

#[test]
fn chain_commands_are_dropped() {
    assert!(matches!(actor().handle(Command::ChainGetHeight), Step::Drop));
}

#[test]
fn unknown_monitors_are_not_found() {
    let mut a = actor();
    start(&mut a, 100);
    for id in [0, 2, u64::MAX] {
        let commands = [
            Command::MonitorFetchBlockTemplate { monitor_id: id },
            Command::MonitorGetBlockHeader { monitor_id: id },
            Command::MonitorGetBlock { monitor_id: id },
            Command::MonitorGetTxFees { monitor_id: id },
            Command::MonitorGetTxSigops { monitor_id: id },
            Command::MonitorGetCoinbaseTx { monitor_id: id },
            Command::MonitorGetCoinbaseCommitment { monitor_id: id },
            Command::MonitorGetWitnessCommitmentIndex { monitor_id: id },
            Command::MonitorGetCoinbaseMerklePath { monitor_id: id },
            Command::MonitorSubmitSolution {
                monitor_id: id,
                version: 1,
                timestamp: 2,
                nonce: 3,
                coinbase: vec![4],
            },
            Command::MonitorWaitNext { monitor_id: id, options: None },
        ];
        for command in commands {
            match reply(a.handle(command)) {
                Err(BitcoinCapnpError::MonitorNotFound(missing)) => assert_eq!(missing, id),
                _ => panic!("the monitor does not exist"),
            }
        }
    }
}

#[test]
fn monitor_queries_go_to_the_template() {
    let mut a = actor();
    let id = start(&mut a, 100);
    let cases = [
        (Command::MonitorGetBlockHeader { monitor_id: id }, "header", "bytes"),
        (Command::MonitorGetBlock { monitor_id: id }, "block", "bytes"),
        (Command::MonitorGetTxFees { monitor_id: id }, "fees", "int64"),
        (Command::MonitorGetTxSigops { monitor_id: id }, "sigops", "int64"),
        (Command::MonitorGetCoinbaseTx { monitor_id: id }, "coinbase", "bytes"),
        (Command::MonitorGetCoinbaseCommitment { monitor_id: id }, "commitment", "bytes"),
        (Command::MonitorGetWitnessCommitmentIndex { monitor_id: id }, "index", "int32"),
        (Command::MonitorGetCoinbaseMerklePath { monitor_id: id }, "path", "data"),
    ];
    for (command, method, kind) in cases {
        let (request, cancellable, pending) = sent(a.handle(command));
        assert_eq!((request.target, request.thread, cancellable), (100, THREAD, false));
        let named = match request.method {
            Method::GetBlockHeader => "header",
            Method::GetBlock => "block",
            Method::GetTxFees => "fees",
            Method::GetTxSigops => "sigops",
            Method::GetCoinbaseTx => "coinbase",
            Method::GetCoinbaseCommitment => "commitment",
            Method::GetWitnessCommitmentIndex => "index",
            Method::GetCoinbaseMerklePath => "path",
            _ => "other",
        };
        assert_eq!(named, method);
        let awaited = match pending {
            Pending::Bytes => "bytes",
            Pending::Int64List => "int64",
            Pending::Int32 => "int32",
            Pending::DataList => "data",
            _ => "other",
        };
        assert_eq!(awaited, kind);
    }
}

#[test]
fn solutions_are_submitted_to_the_template() {
    let mut a = actor();
    let id = start(&mut a, 100);
    let (request, _, pending) = sent(a.handle(Command::MonitorSubmitSolution {
        monitor_id: id,
        version: 1,
        timestamp: 2,
        nonce: 3,
        coinbase: vec![4, 5],
    }));
    assert_eq!((request.target, request.thread), (100, THREAD));
    match request.method {
        Method::SubmitSolution { version, timestamp, nonce, coinbase } => {
            assert_eq!((version, timestamp, nonce, coinbase), (1, 2, 3, vec![4, 5]));
        }
        _ => panic!("wrong method"),
    }
    assert!(matches!(pending, Pending::Bool));
}

#[test]
fn template_waits_are_filled_in() {
    let mut a = actor();
    let id = start(&mut a, 100);
    let options = BlockWaitOptions {
        timeout: Float64 { bits: 120.0f64.to_bits() },
        fee_threshold: -7,
    };
    let (request, _, pending) =
        sent(a.handle(Command::MonitorWaitNext { monitor_id: id, options: Some(options) }));
    assert_eq!((request.target, request.thread), (100, THREAD));
    match request.method {
        Method::WaitNext { options: Some(filled) } => {
            assert_eq!(f64::from_bits(filled.timeout.bits), 120.0);
            assert_eq!(filled.fee_threshold, -7);
        }
        _ => panic!("wrong method"),
    }
    assert!(matches!(pending, Pending::WaitNext { monitor_id: 1 }));

    let (request, _, _) =
        sent(a.handle(Command::MonitorWaitNext { monitor_id: id, options: None }));
    assert!(matches!(request.method, Method::WaitNext { options: None }));
}

#[test]
fn every_failure_reaches_the_caller() {
    let mut a = actor();
    assert_eq!(
        error_text(a.resume(Completion::Bool(Exchange::NotSent(failed("not sent"))))),
        "not sent"
    );
    assert_eq!(
        error_text(a.resume(Completion::Int32(Exchange::Failed(failed("broken"))))),
        "broken"
    );
    assert_eq!(
        error_text(a.resume(Completion::Unit(Exchange::Unreadable(failed("unreadable"))))),
        "unreadable"
    );
    assert_eq!(
        error_text(a.resume(Completion::Bytes(Exchange::Answered(Err(failed("no data")))))),
        "no data"
    );
    assert!(matches!(
        reply(a.resume(Completion::Text(Exchange::Cancelled))),
        Err(BitcoinCapnpError::Cancelled)
    ));
}

#[test]
fn results_reach_the_caller() {
    let mut a = actor();
    assert!(matches!(
        reply(a.resume(Completion::Bool(Exchange::Answered(true)))),
        Ok(Answer::Bool(true))
    ));
    assert!(matches!(
        reply(a.resume(Completion::Int32(Exchange::Answered(-1)))),
        Ok(Answer::Int32(-1))
    ));
    assert!(matches!(
        reply(a.resume(Completion::Unit(Exchange::Answered(())))),
        Ok(Answer::Unit)
    ));
    assert!(matches!(
        reply(a.resume(Completion::Bytes(Exchange::Answered(Ok(&[1, 2]))))),
        Ok(Answer::Bytes(bytes)) if bytes == vec![1, 2]
    ));
    assert!(matches!(
        reply(a.resume(Completion::Text(Exchange::Answered(Ok(capnp::text::Reader(b"pong")))))),
        Ok(Answer::Text(text)) if text == "pong"
    ));
}

#[test]
fn tips_reach_the_caller() {
    let mut a = actor();
    let tip = BlockRefReader { hash: Ok(vec![1]), height: 5 };
    let results = OptionBlockRef { has_result: true, result: Ok(tip) };
    match reply(a.resume(Completion::OptionBlockRef(Exchange::Answered(results)))) {
        Ok(Answer::OptionBlockRef(Some(b))) => assert_eq!((b.hash, b.height), (vec![1], 5)),
        _ => panic!("no tip"),
    }
    let results = OptionBlockRef { has_result: false, result: Err(failed("unset")) };
    assert!(matches!(
        reply(a.resume(Completion::OptionBlockRef(Exchange::Answered(results)))),
        Ok(Answer::OptionBlockRef(None))
    ));
    let tip = BlockRefReader { hash: Ok(vec![2]), height: 6 };
    match reply(a.resume(Completion::BlockRef(Exchange::Answered(Ok(tip))))) {
        Ok(Answer::BlockRef(b)) => assert_eq!((b.hash, b.height), (vec![2], 6)),
        _ => panic!("no tip"),
    }
}

#[test]
fn lists_reach_the_caller() {
    let mut a = actor();
    let mut fees = capnp::message::Builder::new_default();
    {
        let mut list = fees.initn_root::<capnp::primitive_list::Builder<'_, i64>>(2);
        list.set(0, 100);
        list.set(1, 50_000);
    }
    let reader = fees
        .get_root_as_reader::<capnp::primitive_list::Reader<'_, i64>>()
        .unwrap();
    let completion = Completion::Int64List(Exchange::Answered(Ok(Int64ListReader { reader })));
    assert!(matches!(
        reply(a.resume(completion)),
        Ok(Answer::Int64List(items)) if items == vec![100, 50_000]
    ));

    let mut path = capnp::message::Builder::new_default();
    {
        let mut list = path.initn_root::<capnp::data_list::Builder<'_>>(2);
        list.set(0, &[1; 32]);
        list.set(1, &[2; 32]);
    }
    let reader = path
        .get_root_as_reader::<capnp::data_list::Reader<'_>>()
        .unwrap();
    assert!(matches!(
        reply(a.resume(Completion::DataList(Exchange::Answered(Ok(reader))))),
        Ok(Answer::DataList(items)) if items == vec![vec![1; 32], vec![2; 32]]
    ));
}

#[test]
fn monitors_are_numbered_from_one() {
    let mut a = actor();
    assert_eq!(start(&mut a, 100), 1);
    assert_eq!(start(&mut a, 200), 2);
    assert_eq!(
        error_text(a.resume(Completion::StartMonitoring(Exchange::Failed(failed("no"))))),
        "no"
    );
    assert_eq!(start(&mut a, 300), 3);
    assert_eq!(target_of(&a, 1), 100);
    assert_eq!(target_of(&a, 2), 200);
    assert_eq!(target_of(&a, 3), 300);
}

#[test]
fn a_new_block_reaches_every_monitor() {
    let mut a = actor();
    for template in [100, 200, 300] {
        start(&mut a, template);
    }
    let step = a.resume(Completion::CreateNewBlock(Exchange::Answered(Ok(999))));
    assert!(matches!(reply(step), Ok(Answer::Unit)));
    for id in 1..=3 {
        assert_eq!(target_of(&a, id), 999);
    }
    assert!(matches!(
        reply(a.handle(Command::MonitorGetBlock { monitor_id: 4 })),
        Err(BitcoinCapnpError::MonitorNotFound(4))
    ));
}

#[test]
fn a_failed_new_block_reaches_none() {
    let mut a = actor();
    start(&mut a, 100);
    assert_eq!(
        error_text(a.resume(Completion::CreateNewBlock(Exchange::Answered(Err(failed("no")))))),
        "no"
    );
    assert_eq!(target_of(&a, 1), 100);
}

#[test]
fn a_wait_reaches_its_monitor_only() {
    let mut a = actor();
    start(&mut a, 100);
    start(&mut a, 200);
    let exchange = Exchange::Answered(Ok(555));
    let step = a.resume(Completion::WaitNext { monitor_id: 2, exchange });
    assert!(matches!(reply(step), Ok(Answer::Unit)));
    assert_eq!(target_of(&a, 1), 100);
    assert_eq!(target_of(&a, 2), 555);

    let exchange = Exchange::Failed(failed("timed out"));
    assert_eq!(
        error_text(a.resume(Completion::WaitNext { monitor_id: 2, exchange })),
        "timed out"
    );
    assert_eq!(target_of(&a, 2), 555);

    let exchange = Exchange::Answered(Ok(777));
    assert!(matches!(
        reply(a.resume(Completion::WaitNext { monitor_id: 9, exchange })),
        Err(BitcoinCapnpError::MonitorNotFound(9))
    ));
}

#[test]
fn fetching_takes_the_block_and_its_coinbase() {
    let mut a = actor();
    let id = start(&mut a, 100);
    let (request, cancellable, pending) =
        sent(a.handle(Command::MonitorFetchBlockTemplate { monitor_id: id }));
    assert_eq!((request.target, request.thread, cancellable), (100, THREAD, false));
    assert!(matches!(request.method, Method::GetBlock));
    let template = match pending {
        Pending::FetchBlock { template } => template,
        _ => panic!("wrong purpose"),
    };
    assert_eq!(template, 100);

    let exchange = Exchange::Answered(Ok(&[1u8, 2, 3][..]));
    let (request, cancellable, pending) =
        sent(a.resume(Completion::FetchBlock { template, exchange }));
    assert_eq!((request.target, request.thread, cancellable), (100, THREAD, false));
    assert!(matches!(request.method, Method::GetCoinbaseTx));
    let block = match pending {
        Pending::FetchCoinbase { block } => block,
        _ => panic!("wrong purpose"),
    };

    let exchange = Exchange::Answered(Ok(&[4u8][..]));
    match reply(a.resume(Completion::FetchCoinbase { block, exchange })) {
        Ok(Answer::BlockAndCoinbase { block, coinbase }) => {
            assert_eq!((block, coinbase), (vec![1, 2, 3], vec![4]));
        }
        _ => panic!("no template"),
    }
}

#[test]
fn fetching_stops_at_the_first_failure() {
    let mut a = actor();
    let exchange = Exchange::Failed(failed("no block"));
    assert_eq!(
        error_text(a.resume(Completion::FetchBlock { template: 100, exchange })),
        "no block"
    );
    let exchange = Exchange::Answered(Err(failed("no coinbase")));
    assert_eq!(
        error_text(a.resume(Completion::FetchCoinbase { block: vec![1], exchange })),
        "no coinbase"
    );
}
