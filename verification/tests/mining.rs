use bitcoin_capnp::actor::Command;
use bitcoin_capnp::client::{Delivery, IntoCapnp};
use bitcoin_capnp::mining::{monitoring_options, MiningClient, MIN_BLOCK_RESERVED_WEIGHT};
use bitcoin_capnp::wire::{
    BlockCreateOptionsBuilder, BlockRefReader, BlockWaitOptionsBuilder, Float64,
};
use bitcoin_capnp::{
    BitcoinCapnpError, BlockCreateOptions, BlockRef, BlockValidationState, BlockWaitOptions,
    MonitorClient, TipChange,
};

fn monitor() -> MonitorClient<u32, &'static str> {
    MonitorClient { cmd_tx: 5, monitor_id: 9, tip_change_tx: "tips" }
}

#[test]
fn test_block_ref_from_capnp() {
    let mut message = capnp::message::Builder::new_default();
    message
        .initn_root::<capnp::data::Builder<'_>>(4)
        .copy_from_slice(b"\x00\x01\x02\xff");
    let hash = message
        .get_root_as_reader::<capnp::data::Reader<'_>>()
        .map(|data| data.to_vec());
    let reader = BlockRefReader { hash, height: 42 };

    let result = BlockRef::from(reader);

    assert_eq!(result.hash, vec![0x00, 0x01, 0x02, 0xff]);
    assert_eq!(result.height, 42);
}

#[test]
fn test_block_create_options_to_capnp() {
    let options = BlockCreateOptions {
        use_mempool: true,
        block_reserved_weight: 2000,
        coinbase_output_max_additional_sigops: 100,
    };

    let mut builder = BlockCreateOptionsBuilder::new();
    options.apply(&mut builder);

    assert!(builder.use_mempool);
    assert_eq!(builder.block_reserved_weight, 2000);
    assert_eq!(builder.coinbase_output_max_additional_sigops, 100);
}

#[test]
fn test_block_wait_options_to_capnp() {
    let options = BlockWaitOptions {
        timeout: Float64 { bits: 30.5f64.to_bits() },
        fee_threshold: 1000,
    };

    let mut builder = BlockWaitOptionsBuilder::new();
    options.apply(&mut builder);

    assert_eq!(f64::from_bits(builder.timeout.bits), 30.5);
    assert_eq!(builder.fee_threshold, 1000);
}

#[test]
fn applying_options_overwrites_what_was_there() {
    let mut create = BlockCreateOptionsBuilder {
        use_mempool: true,
        block_reserved_weight: 1,
        coinbase_output_max_additional_sigops: 2,
    };
    BlockCreateOptions {
        use_mempool: false,
        block_reserved_weight: u64::MAX,
        coinbase_output_max_additional_sigops: 0,
    }
    .apply(&mut create);
    assert!(!create.use_mempool);
    assert_eq!(create.block_reserved_weight, u64::MAX);
    assert_eq!(create.coinbase_output_max_additional_sigops, 0);

    let mut wait = BlockWaitOptionsBuilder { timeout: Float64 { bits: 7 }, fee_threshold: 8 };
    BlockWaitOptions { timeout: Float64 { bits: 0 }, fee_threshold: i64::MIN }.apply(&mut wait);
    assert_eq!(wait.timeout.bits, 0);
    assert_eq!(wait.fee_threshold, i64::MIN);
}

#[test]
fn reserved_weight_has_a_minimum() {
    let options = monitoring_options(1, 1);
    assert!(options.use_mempool);
    assert_eq!(options.block_reserved_weight, MIN_BLOCK_RESERVED_WEIGHT);
    assert_eq!(options.block_reserved_weight, 2000);
    assert_eq!(options.coinbase_output_max_additional_sigops, 1);

    assert_eq!(monitoring_options(0, 0).block_reserved_weight, 2000);
    assert_eq!(monitoring_options(500, 0).block_reserved_weight, 2000);
}

#[test]
fn reserved_weight_covers_large_outputs() {
    assert_eq!(monitoring_options(501, 0).block_reserved_weight, 2004);
    assert_eq!(monitoring_options(100_000, 0).block_reserved_weight, 400_000);
    let largest = monitoring_options(u32::MAX / 4, u16::MAX);
    assert_eq!(largest.block_reserved_weight, 4_294_967_292);
    assert_eq!(largest.coinbase_output_max_additional_sigops, 65_535);
}

#[test]
fn mining_calls_become_commands() {
    let mining = MiningClient::new(5u32);
    assert_eq!(mining.cmd_tx, 5);
    assert!(matches!(mining.is_test_chain(), Command::MiningIsTestChain));
    assert!(matches!(
        mining.is_initial_block_download(),
        Command::MiningIsInitialBlockDownload
    ));
    assert!(matches!(mining.get_tip(), Command::MiningGetTip));
    match mining.wait_tip_changed(&[1, 2, 3], Float64 { bits: 4 }) {
        Command::MiningWaitTipChanged { current_tip, timeout } => {
            assert_eq!(current_tip, vec![1, 2, 3]);
            assert_eq!(timeout.bits, 4);
        }
        _ => panic!("wrong command"),
    }
    let options = BlockCreateOptions {
        use_mempool: true,
        block_reserved_weight: 3,
        coinbase_output_max_additional_sigops: 4,
    };
    match mining.create_new_block(&options) {
        Command::MiningCreateNewBlock { options: sent } => assert_eq!(sent, options),
        _ => panic!("wrong command"),
    }
    assert!(matches!(
        mining.start_monitoring(6, 7),
        Command::MiningStartMonitoring {
            coinbase_output_max_additional_size: 6,
            coinbase_output_max_additional_sigops: 7,
        }
    ));
}

#[test]
fn monitor_calls_carry_the_monitor_id() {
    let m = monitor();
    assert!(matches!(
        m.fetch_block_template(),
        Command::MonitorFetchBlockTemplate { monitor_id: 9 }
    ));
    assert!(matches!(m.get_block_header(), Command::MonitorGetBlockHeader { monitor_id: 9 }));
    assert!(matches!(m.get_block(), Command::MonitorGetBlock { monitor_id: 9 }));
    assert!(matches!(m.get_tx_fees(), Command::MonitorGetTxFees { monitor_id: 9 }));
    assert!(matches!(m.get_tx_sigops(), Command::MonitorGetTxSigops { monitor_id: 9 }));
    assert!(matches!(m.get_coinbase_tx(), Command::MonitorGetCoinbaseTx { monitor_id: 9 }));
    assert!(matches!(
        m.get_coinbase_commitment(),
        Command::MonitorGetCoinbaseCommitment { monitor_id: 9 }
    ));
    assert!(matches!(
        m.get_witness_commitment_index(),
        Command::MonitorGetWitnessCommitmentIndex { monitor_id: 9 }
    ));
    assert!(matches!(
        m.get_coinbase_merkle_path(),
        Command::MonitorGetCoinbaseMerklePath { monitor_id: 9 }
    ));
}

#[test]
fn solutions_and_waits_carry_their_arguments() {
    let m = monitor();
    match m.submit_solution(1, 2, 3, &[4, 5]) {
        Command::MonitorSubmitSolution { monitor_id, version, timestamp, nonce, coinbase } => {
            assert_eq!((monitor_id, version, timestamp, nonce), (9, 1, 2, 3));
            assert_eq!(coinbase, vec![4, 5]);
        }
        _ => panic!("wrong command"),
    }
    let options = BlockWaitOptions { timeout: Float64 { bits: 1 }, fee_threshold: -2 };
    match m.wait_next(Some(&options)) {
        Command::MonitorWaitNext { monitor_id, options: Some(sent) } => {
            assert_eq!(monitor_id, 9);
            assert_eq!(sent, options);
        }
        _ => panic!("wrong command"),
    }
    assert!(matches!(
        m.wait_next(None),
        Command::MonitorWaitNext { monitor_id: 9, options: None }
    ));
}

#[test]
fn a_started_monitor_gets_a_client() {
    let mining = MiningClient::new(5u32);
    match mining.monitoring_started(Delivery::Replied(Ok((3, "tips")))) {
        Ok(client) => {
            assert_eq!(client.cmd_tx, 5);
            assert_eq!(client.monitor_id, 3);
            assert_eq!(client.tip_change_tx, "tips");
        }
        Err(_) => panic!("no client"),
    }
    assert!(matches!(
        mining.monitoring_started::<()>(Delivery::Dropped),
        Err(BitcoinCapnpError::ActorDisconnected)
    ));
    assert!(matches!(
        mining.monitoring_started::<()>(Delivery::Replied(Err(BitcoinCapnpError::Cancelled))),
        Err(BitcoinCapnpError::Cancelled)
    ));
}

#[test]
fn data_types_hold_their_fields() {
    let state = BlockValidationState {
        mode: 1,
        result: -1,
        reject_reason: "bad-txns".to_string(),
        debug_message: String::new(),
    };
    let copy = state.clone();
    assert_eq!((copy.mode, copy.result), (1, -1));
    assert_eq!(copy.reject_reason, "bad-txns");
    assert_eq!(copy.debug_message, "");
    let tip = TipChange { height: 842_103, hash: vec![0xa3] }.clone();
    assert_eq!((tip.height, tip.hash), (842_103, vec![0xa3]));
}
