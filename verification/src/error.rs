//! Failures that the client reports.

use vstd::prelude::*;
use vstd::string::StringExecFns;

verus! {

/// The error that `serde_cbor` reports; nothing inside it is read here.
#[verifier::external_type_specification]
#[verifier::external_body]
pub struct ExCborError(serde_cbor::Error);

/// Transaction client error.
#[derive(Clone, Debug, PartialEq, Eq)]
pub enum TxnClientError {
    /// The transport failed: a refused connection, a timeout, a broken stream.
    CallFailed(String),
    /// The block subscription ended.
    WatcherClosed,
    /// The node rejected the submitted call.
    TxnFailed(String),
}

/// The ways in which a well-formed payload can be of the wrong shape.
#[derive(Clone, Copy, Debug, PartialEq, Eq)]
pub enum Malformed {
    /// The item is not a call envelope.
    Call,
    /// The item is not an output envelope.
    Output,
    /// The item is not a block header.
    Header,
    /// A stored value is not UTF-8 text.
    Text,
}

/// Everything that an operation of this crate can fail with.
#[derive(Debug)]
pub enum Failure {
    /// A failure of the client itself.
    Client(TxnClientError),
    /// The bytes are not one CBOR item, or the item has no CBOR form; the
    /// codec's own error is carried as it came.
    Codec(serde_cbor::Error),
    /// The item cannot be written by this crate: one of its integers lies
    /// outside of what CBOR can hold, or it holds a floating-point number.
    Unencodable,
    /// The item was read but is not of the shape that was asked for.
    Malformed(Malformed),
    /// A handler was aborted: the key manager or the store failed, with
    /// this description.
    Aborted(String),
}

impl TxnClientError {
    /// The text of the failure, as shown to a user.
    pub fn message(&self) -> (res: String)
        ensures
            res@ == self.spec_message(),
    {
        match self {
            TxnClientError::CallFailed(description) => {
                String::from_str("node call failed: ").concat(description.as_str())
            },
            TxnClientError::WatcherClosed => String::from_str("block watcher closed"),
            TxnClientError::TxnFailed(message) => {
                String::from_str("transaction failed: ").concat(message.as_str())
            },
        }
    }

    /// The text that `message` returns.
    pub open spec fn spec_message(&self) -> Seq<char> {
        match self {
            TxnClientError::CallFailed(description) => "node call failed: "@ + description@,
            TxnClientError::WatcherClosed => "block watcher closed"@,
            TxnClientError::TxnFailed(message) => "transaction failed: "@ + message@,
        }
    }
}

} // verus!
