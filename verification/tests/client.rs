use bitcoin_capnp::actor::Command;
use bitcoin_capnp::client::Delivery;
use bitcoin_capnp::error::IpcBitcoinCoreError;
use bitcoin_capnp::libmp::Bootstrap;
use bitcoin_capnp::{BitcoinCapnp, BitcoinCapnpError};

#[test]
fn clients_share_the_actor() {
    let (ipc, setup): (BitcoinCapnp<String>, Bootstrap<&str, u8>) =
        BitcoinCapnp::new("/path/to/bitcoin.sock", "actor".to_string());
    assert_eq!(ipc.mining.cmd_tx, "actor");
    assert_eq!(ipc.echo.cmd_tx, "actor");
    assert_eq!(ipc.chain.cmd_tx, "actor");
    assert!(matches!(setup, Bootstrap::Connect { path: "/path/to/bitcoin.sock" }));
    assert_eq!(ipc.clone().mining.cmd_tx, "actor");
}

#[test]
fn echo_and_chain_calls_become_commands() {
    let (ipc, _): (BitcoinCapnp<u32>, Bootstrap<(), u8>) = BitcoinCapnp::new((), 1);
    match ipc.echo.echo("ping #1") {
        Command::EchoEcho { message } => assert_eq!(message, "ping #1"),
        _ => panic!("wrong command"),
    }
    assert!(matches!(ipc.echo.destroy(), Command::EchoDestroy));
    assert!(matches!(ipc.chain.get_height(), Command::ChainGetHeight));
}

#[test]
fn a_missing_reply_is_a_disconnect() {
    assert!(matches!(
        Delivery::<bool>::NotSent.settle(),
        Err(BitcoinCapnpError::ActorDisconnected)
    ));
    assert!(matches!(
        Delivery::<bool>::Dropped.settle(),
        Err(BitcoinCapnpError::ActorDisconnected)
    ));
}

#[test]
fn a_reply_is_passed_on() {
    assert!(matches!(Delivery::Replied(Ok(Some(7u32))).settle(), Ok(Some(7))));
    assert!(matches!(
        Delivery::<u8>::Replied(Err(BitcoinCapnpError::MonitorNotFound(4))).settle(),
        Err(BitcoinCapnpError::MonitorNotFound(4))
    ));
}

#[test]
fn outside_errors_are_wrapped() {
    let e = BitcoinCapnpError::from(capnp::Error::failed("gone".to_string()));
    match e {
        BitcoinCapnpError::CapnpError(inner) => {
            assert_eq!(inner.kind, capnp::ErrorKind::Failed);
            assert_eq!(inner.extra, "gone");
        }
        _ => panic!("wrong error"),
    }
    let io = std::io::Error::new(std::io::ErrorKind::NotFound, "no socket");
    match BitcoinCapnpError::from(io) {
        BitcoinCapnpError::IoError(inner) => assert_eq!(inner.kind(), std::io::ErrorKind::NotFound),
        _ => panic!("wrong error"),
    }
}

#[test]
fn template_errors_are_wrapped() {
    match IpcBitcoinCoreError::from(capnp::Error::failed("gone".to_string())) {
        IpcBitcoinCoreError::CapnpError(inner) => assert_eq!(inner.extra, "gone"),
        _ => panic!("wrong error"),
    }
    let io = std::io::Error::new(std::io::ErrorKind::NotFound, "no socket");
    assert!(matches!(IpcBitcoinCoreError::from(io), IpcBitcoinCoreError::IoError(_)));
    let short: Result<bitcoin::block::Header, bitcoin::consensus::encode::Error> =
        bitcoin::consensus::encode::deserialize(&[0u8; 79]);
    match short {
        Err(e) => assert!(matches!(
            IpcBitcoinCoreError::from(e),
            IpcBitcoinCoreError::InvalidTemplateHeader(_)
        )),
        Ok(_) => panic!("a header has 80 bytes"),
    }
}
