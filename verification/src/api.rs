//! The messages of the node's RPC surface, as plain values.
//!
//! The transport fills and reads its own message types; these are what the
//! client hands to it and takes back.

use vstd::prelude::*;

verus! {

/// What a call over the transport comes to: the reply, or the transport's
/// description of why there is none.
pub type RpcResult<T> = Result<T, String>;

#[derive(Clone, Debug, PartialEq, Eq)]
pub struct SubmitTxRequest {
    pub runtime_id: Vec<u8>,
    pub data: Vec<u8>,
}

#[derive(Clone, Debug, PartialEq, Eq)]
pub struct SubmitTxResponse {
    pub result: Vec<u8>,
}

#[derive(Clone, Debug, PartialEq, Eq)]
pub struct IsSyncedResponse {
    pub synced: bool,
}

#[derive(Clone, Debug, PartialEq, Eq)]
pub struct WatchBlocksRequest {
    pub runtime_id: Vec<u8>,
}

#[derive(Clone, Debug, PartialEq, Eq)]
pub struct GetBlockRequest {
    pub runtime_id: Vec<u8>,
    pub round: u64,
}

#[derive(Clone, Debug, PartialEq, Eq)]
pub struct GetTxnRequest {
    pub runtime_id: Vec<u8>,
    pub round: u64,
    pub index: u32,
}

#[derive(Clone, Debug, PartialEq, Eq)]
pub struct GetTxnByBlockHashRequest {
    pub runtime_id: Vec<u8>,
    pub block_hash: Vec<u8>,
    pub index: u32,
}

#[derive(Clone, Debug, PartialEq, Eq)]
pub struct GetTransactionsRequest {
    pub runtime_id: Vec<u8>,
    pub root: Vec<u8>,
}

#[derive(Clone, Debug, PartialEq, Eq)]
pub struct QueryBlockRequest {
    pub runtime_id: Vec<u8>,
    pub key: Vec<u8>,
    pub value: Vec<u8>,
}

#[derive(Clone, Debug, PartialEq, Eq)]
pub struct QueryTxnRequest {
    pub runtime_id: Vec<u8>,
    pub key: Vec<u8>,
    pub value: Vec<u8>,
}

/// A block: the reply to `GetBlock` and `QueryBlock`, and each element of
/// the `WatchBlocks` stream.
#[derive(Clone, Debug, PartialEq, Eq)]
pub struct BlockResponse {
    pub block: Vec<u8>,
    pub block_hash: Vec<u8>,
}

/// A transaction with its block: the reply to `GetTxn` and
/// `GetTxnByBlockHash`.
#[derive(Clone, Debug, PartialEq, Eq)]
pub struct TxnResponse {
    pub block: Vec<u8>,
    pub block_hash: Vec<u8>,
    pub input: Vec<u8>,
    pub output: Vec<u8>,
}

#[derive(Clone, Debug, PartialEq, Eq)]
pub struct QueryTxnResponse {
    pub block: Vec<u8>,
    pub block_hash: Vec<u8>,
    pub txn_index: u32,
    pub input: Vec<u8>,
    pub output: Vec<u8>,
}

#[derive(Clone, Debug, PartialEq, Eq)]
pub struct TransactionsResponse {
    pub txns: Vec<Vec<u8>>,
}

} // verus!
