use bitcoin_capnp::actor::{Exchange, Method, Request};
use bitcoin_capnp::monitor::{Effect, TipMonitor, WAIT_TIMEOUT_BITS};
use bitcoin_capnp::wire::BlockRefReader;

type Answer = Exchange<Result<BlockRefReader, capnp::Error>>;

fn failed() -> capnp::Error {
    capnp::Error::failed("no".to_string())
}

fn tip(hash: &[u8], height: i32) -> Answer {
    Exchange::Answered(Ok(BlockRefReader { hash: Ok(hash.to_vec()), height }))
}

fn unreadable_hash() -> Answer {
    Exchange::Answered(Ok(BlockRefReader { hash: Err(failed()), height: 1 }))
}

fn watching() -> TipMonitor {
    let mut m = TipMonitor::new();
    m.advance(tip(&[1], 100));
    m
}

fn waits_from(m: &TipMonitor) -> Vec<u8> {
    match m.request() {
        Some((Method::WaitTipChanged { current_tip, timeout }, true)) => {
            assert_eq!(timeout.bits, WAIT_TIMEOUT_BITS);
            current_tip
        }
        _ => panic!("not waiting"),
    }
}

fn is_quiet(effect: Effect) -> bool {
    effect.publish.is_none() && !effect.cancel_stop
}

#[test]
fn a_wait_lasts_ten_thousand() {
    assert_eq!(f64::from_bits(WAIT_TIMEOUT_BITS), 10_000f64);
}

#[test]
fn calls_go_to_mining_and_name_the_thread() {
    let mut m = TipMonitor::new();
    match m.call(&13u32, &12u32) {
        Some((Request { target: 13, thread: 12, method: Method::GetTip }, false)) => {}
        _ => panic!("not the first call"),
    }
    m.advance(tip(&[1], 100));
    match m.call(&13u32, &12u32) {
        Some((
            Request { target: 13, thread: 12, method: Method::WaitTipChanged { current_tip, .. } },
            true,
        )) => assert_eq!(current_tip, vec![1]),
        _ => panic!("not a wait"),
    }
    m.advance(Exchange::Cancelled);
    assert!(m.call(&13u32, &12u32).is_none());
}

#[test]
fn watching_begins_with_the_current_tip() {
    let mut m = TipMonitor::new();
    assert!(matches!(m.request(), Some((Method::GetTip, false))));
    assert!(is_quiet(m.advance(tip(&[1, 2], 100))));
    assert_eq!(waits_from(&m), vec![1, 2]);
    assert!(matches!(m, TipMonitor::Watching { height: 100, .. }));
}

#[test]
fn watching_gives_up_without_a_first_tip() {
    let answers = [
        Exchange::NotSent(failed()),
        Exchange::Failed(failed()),
        Exchange::Unreadable(failed()),
        Exchange::Answered(Err(failed())),
        unreadable_hash(),
    ];
    for answer in answers {
        let mut m = TipMonitor::new();
        let effect = m.advance(answer);
        assert!(effect.publish.is_none());
        assert!(effect.cancel_stop);
        assert!(matches!(m, TipMonitor::Stopped));
        assert!(m.request().is_none());
    }
}

#[test]
fn a_new_tip_is_published() {
    let mut m = watching();
    let effect = m.advance(tip(&[2], 101));
    match effect.publish {
        Some(change) => assert_eq!((change.height, change.hash), (101, vec![2])),
        None => panic!("nothing published"),
    }
    assert!(!effect.cancel_stop);
    assert_eq!(waits_from(&m), vec![2]);
}

#[test]
fn the_same_tip_is_not_published_again() {
    let mut m = watching();
    assert!(is_quiet(m.advance(tip(&[1], 100))));
    assert!(m.advance(tip(&[2], 101)).publish.is_some());
    assert!(is_quiet(m.advance(tip(&[2], 101))));
    assert!(m.advance(tip(&[1], 100)).publish.is_some());
    assert_eq!(waits_from(&m), vec![1]);
}

#[test]
fn failed_waits_are_passed_over() {
    let mut m = watching();
    let answers = [
        Exchange::Failed(failed()),
        Exchange::Unreadable(failed()),
        Exchange::Answered(Err(failed())),
        unreadable_hash(),
    ];
    for answer in answers {
        assert!(is_quiet(m.advance(answer)));
        assert_eq!(waits_from(&m), vec![1]);
    }
}

#[test]
fn cancellation_ends_the_watch_quietly() {
    let mut m = watching();
    assert!(is_quiet(m.advance(Exchange::Cancelled)));
    assert!(m.request().is_none());
    assert!(is_quiet(m.advance(tip(&[9], 9))));
    assert!(matches!(m, TipMonitor::Stopped));
}

#[test]
fn a_wait_that_cannot_be_sent_ends_the_watch() {
    let mut m = watching();
    let effect = m.advance(Exchange::NotSent(failed()));
    assert!(effect.publish.is_none());
    assert!(effect.cancel_stop);
    assert!(m.request().is_none());
}

#[test]
fn heights_are_sign_extended() {
    let mut m = watching();
    match m.advance(tip(&[3], -1)).publish {
        Some(change) => assert_eq!(change.height, u64::MAX),
        None => panic!("nothing published"),
    }
    match m.advance(tip(&[4], i32::MIN)).publish {
        Some(change) => assert_eq!(change.height, 0xFFFF_FFFF_8000_0000),
        None => panic!("nothing published"),
    }
    match m.advance(tip(&[5], i32::MAX)).publish {
        Some(change) => assert_eq!(change.height, 2_147_483_647),
        None => panic!("nothing published"),
    }
}
