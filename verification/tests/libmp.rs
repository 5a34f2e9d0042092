use bitcoin_capnp::libmp::Bootstrap;
use bitcoin_capnp::BitcoinCapnpError;

type Setup = Bootstrap<&'static str, u32>;

fn begin() -> Setup {
    Bootstrap::Connect { path: "/tmp/node.sock" }
}

#[test]
fn setup_asks_for_one_capability_after_the_other() {
    let s = begin().step(Ok(1));
    assert!(matches!(s, Bootstrap::Construct { init: 1 }));
    let s = s.step(Ok(2));
    assert!(matches!(s, Bootstrap::MakeThread { init: 1, thread_map: 2 }));
    let s = s.step(Ok(3));
    assert!(matches!(s, Bootstrap::MakeMining { init: 1, thread: 3 }));
    let s = s.step(Ok(4));
    assert!(matches!(s, Bootstrap::MakeEcho { init: 1, thread: 3, mining: 4 }));
    match s.step(Ok(5)) {
        Bootstrap::Ready(actor) => {
            assert_eq!(actor.thread_ipc_client, 3);
            assert_eq!(actor.mining_ipc_client, 4);
            assert_eq!(actor.echo_ipc_client, 5);
            assert_eq!(actor.next_monitor_id, 1);
            assert!(actor.monitors.is_empty());
        }
        _ => panic!("not ready"),
    }
}

#[test]
fn setup_fails_with_the_first_error() {
    for failing in 0..5u64 {
        let mut s = begin();
        for call in 0..failing {
            s = s.step(Ok(call as u32));
        }
        s = s.step(Err(BitcoinCapnpError::MonitorNotFound(failing)));
        s = s.step(Err(BitcoinCapnpError::Cancelled));
        s = s.step(Ok(9));
        match s {
            Bootstrap::Failed(BitcoinCapnpError::MonitorNotFound(first)) => {
                assert_eq!(first, failing);
            }
            _ => panic!("not failed"),
        }
    }
}

#[test]
fn a_ready_setup_stays_ready() {
    let mut s = begin();
    for call in 1..=5 {
        s = s.step(Ok(call));
    }
    s = s.step(Err(BitcoinCapnpError::Cancelled));
    s = s.step(Ok(9));
    assert!(matches!(s, Bootstrap::Ready(actor) if actor.echo_ipc_client == 5));
}
