//! Error types returned by the Bitcoin Core IPC client.

use vstd::prelude::*;

verus! {

/// `capnp::Error`, the error of every Cap'n Proto operation. Its two public
/// fields are visible to contracts: the kind of the error and the text that
/// goes with it.
#[verifier::external_type_specification]
pub struct ExCapnpError(capnp::Error);

/// `capnp::ErrorKind`, the kinds that a `capnp::Error` can have.
#[verifier::external_type_specification]
pub struct ExCapnpErrorKind(capnp::ErrorKind);

/// `capnp::NotInSchema`, the payload of one error kind. Opaque.
#[verifier::external_type_specification]
#[verifier::external_body]
pub struct ExNotInSchema(capnp::NotInSchema);

/// `core::str::Utf8Error`, the payload of one error kind. Opaque.
#[verifier::external_type_specification]
#[verifier::external_body]
pub struct ExUtf8Error(core::str::Utf8Error);

/// `std::io::Error`, the error of a failed socket connection. Opaque.
#[verifier::external_type_specification]
#[verifier::external_body]
pub struct ExIoError(std::io::Error);

/// `bitcoin::consensus::encode::Error`, the error of a failed consensus
/// decoding. Opaque.
#[verifier::external_type_specification]
#[verifier::external_body]
pub struct ExEncodeError(bitcoin::consensus::encode::Error);

/// What a call on one of the clients can fail with.
#[derive(Debug)]
pub enum BitcoinCapnpError {
    /// A Cap'n Proto operation failed.
    CapnpError(capnp::Error),
    /// The socket could not be connected.
    IoError(std::io::Error),
    /// The caller's cancellation token fired before the response came.
    Cancelled,
    /// The actor is gone: it did not take the command, or it dropped the reply.
    ActorDisconnected,
    /// No monitor is registered under this id.
    MonitorNotFound(u64),
}

impl From<capnp::Error> for BitcoinCapnpError {
    fn from(error: capnp::Error) -> (r: Self) {
        BitcoinCapnpError::CapnpError(error)
    }
}

impl vstd::std_specs::convert::FromSpecImpl<capnp::Error> for BitcoinCapnpError {
    open spec fn obeys_from_spec() -> bool {
        true
    }

    open spec fn from_spec(error: capnp::Error) -> Self {
        BitcoinCapnpError::CapnpError(error)
    }
}

impl From<std::io::Error> for BitcoinCapnpError {
    fn from(error: std::io::Error) -> (r: Self) {
        BitcoinCapnpError::IoError(error)
    }
}

impl vstd::std_specs::convert::FromSpecImpl<std::io::Error> for BitcoinCapnpError {
    open spec fn obeys_from_spec() -> bool {
        true
    }

    open spec fn from_spec(error: std::io::Error) -> Self {
        BitcoinCapnpError::IoError(error)
    }
}

/// What can go wrong with a block template that the node handed over.
#[derive(Debug)]
pub enum IpcBitcoinCoreError {
    CapnpError(capnp::Error),
    IoError(std::io::Error),
    InvalidTemplateHeader(bitcoin::consensus::encode::Error),
    InvalidTemplateHeaderLength,
    InvalidBlockStructure,
    TemplateNotFound,
}

impl From<capnp::Error> for IpcBitcoinCoreError {
    fn from(error: capnp::Error) -> (r: Self) {
        IpcBitcoinCoreError::CapnpError(error)
    }
}

impl vstd::std_specs::convert::FromSpecImpl<capnp::Error> for IpcBitcoinCoreError {
    open spec fn obeys_from_spec() -> bool {
        true
    }

    open spec fn from_spec(error: capnp::Error) -> Self {
        IpcBitcoinCoreError::CapnpError(error)
    }
}

impl From<std::io::Error> for IpcBitcoinCoreError {
    fn from(error: std::io::Error) -> (r: Self) {
        IpcBitcoinCoreError::IoError(error)
    }
}

impl vstd::std_specs::convert::FromSpecImpl<std::io::Error> for IpcBitcoinCoreError {
    open spec fn obeys_from_spec() -> bool {
        true
    }

    open spec fn from_spec(error: std::io::Error) -> Self {
        IpcBitcoinCoreError::IoError(error)
    }
}

impl From<bitcoin::consensus::encode::Error> for IpcBitcoinCoreError {
    fn from(error: bitcoin::consensus::encode::Error) -> (r: Self) {
        IpcBitcoinCoreError::InvalidTemplateHeader(error)
    }
}

impl vstd::std_specs::convert::FromSpecImpl<bitcoin::consensus::encode::Error> for IpcBitcoinCoreError {
    open spec fn obeys_from_spec() -> bool {
        true
    }

    open spec fn from_spec(error: bitcoin::consensus::encode::Error) -> Self {
        IpcBitcoinCoreError::InvalidTemplateHeader(error)
    }
}

} // verus!
