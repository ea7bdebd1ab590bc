//! Transaction client.
//!
//! The client does no I/O. For each operation of the node it builds the
//! request (`.._request`) and turns the transport's reply into the result;
//! whoever embeds it sends the one and hands back the other.

use std::time::Duration;
use vstd::prelude::*;
use vstd::slice::slice_to_vec;
use crate::api::{
    BlockResponse, GetBlockRequest, GetTransactionsRequest, GetTxnByBlockHashRequest,
    GetTxnRequest, IsSyncedResponse, QueryBlockRequest, QueryTxnRequest, QueryTxnResponse,
    RpcResult, SubmitTxRequest, SubmitTxResponse, TransactionsResponse, TxnResponse,
    WatchBlocksRequest,
};
use crate::block_watcher::{BlockWatcher, Step, WatcherModel};
use crate::bytes::{padded, B256, H256};
use crate::cbor::{cbor_decoding, cbor_encoding, encodable, Cbor};
use crate::error::{Failure, Malformed, TxnClientError};
use crate::header::{lemma_reads_as_one_header, reads_as, Header};
use crate::snapshot::{batch_view, BlockSnapshot, TransactionSnapshot};
use crate::types::{call_item, item_output, CallView, OutputView, TxnBatch, TxnCall, TxnOutput};

verus! {

/// Special round number always referring to the latest round.
pub const ROUND_LATEST: u64 = 0xffff_ffff_ffff_ffff;

/// Tag used for storing the block hash.
pub const TAG_BLOCK_HASH: [u8; 4] = [0x68, 0x62, 0x6c, 0x6b];

/// What bounds a call over the transport.
#[derive(Clone, Copy, Debug, PartialEq, Eq)]
pub struct CallOptions {
    /// How long the call may take; without it the transport decides.
    pub timeout: Option<Duration>,
}

/// Interface for the node's client interface.
#[derive(Debug)]
pub struct TxnClient {
    runtime_id: B256,
    timeout: Option<Duration>,
    block_watcher: BlockWatcher,
}

/// What a caller that asks for the latest block has to do.
#[derive(Debug)]
pub enum LatestBlock {
    /// Open the block stream with this request and report how that went
    /// with `watch_blocks_opened`.
    Subscribe(WatchBlocksRequest),
    /// Nothing: this is the latest block.
    Ready(BlockSnapshot),
    /// Wait to be named in a `Wake`.
    Wait,
}

/// The answer to callers that waited for a block.
#[derive(Debug)]
pub struct Wake {
    /// The callers, in the order in which they came.
    pub waiters: Vec<u64>,
    /// What each of them is answered with.
    pub answer: Result<BlockSnapshot, TxnClientError>,
}

/// Whether `res` is the failure of a call that the transport could not
/// make, with the transport's description in it.
pub open spec fn call_failed<T>(res: Result<T, Failure>, description: String) -> bool {
    res matches Err(Failure::Client(TxnClientError::CallFailed(found))) && found@ == description@
}

/// Whether `res` is what reading a block comes to: the snapshot of the
/// header that the bytes stand for, with the hash cut or zero-filled to 32
/// bytes and no transactions fetched; the codec's error where the bytes are
/// no CBOR item; `Malformed` where the item reads as no header.
pub open spec fn block_read(
    block: Seq<u8>,
    block_hash: Seq<u8>,
    res: Result<BlockSnapshot, Failure>,
) -> bool {
    match cbor_decoding(block) {
        None => res matches Err(Failure::Codec(_)),
        Some(item) => match res {
            Ok(snapshot) => {
                &&& reads_as(item, snapshot.block())
                &&& snapshot.block_hash()@ == padded(block_hash)
                &&& snapshot.kept() is None
            },
            Err(failure) => {
                &&& failure == Failure::Malformed(Malformed::Header)
                &&& forall|h: Header| !reads_as(item, h)
            },
        },
    }
}

/// Reads a block from its binary form.
pub fn read_block(block: &[u8], block_hash: &[u8]) -> (res: Result<BlockSnapshot, Failure>)
    ensures
        block_read(block@, block_hash@, res),
{
    let item = match Cbor::decode(block) {
        Ok(item) => item,
        Err(failure) => {
            return Err(failure);
        },
    };
    match Header::from_cbor(&item) {
        Ok(header) => Ok(BlockSnapshot::new(header, H256::from_slice(block_hash))),
        Err(failure) => Err(failure),
    }
}

/// Reading is repeatable. Two readings of the same reply either both fail or
/// show the same block: the same header under the same hash. A query that is
/// asked again with the same key and value, and is answered from an
/// unchanged index with the same reply, so gives the same snapshot.
pub proof fn lemma_block_read_is_repeatable(
    block: Seq<u8>,
    block_hash: Seq<u8>,
    first: Result<BlockSnapshot, Failure>,
    second: Result<BlockSnapshot, Failure>,
)
    requires
        block_read(block, block_hash, first),
        block_read(block, block_hash, second),
    ensures
        first is Ok <==> second is Ok,
        first matches Ok(a) ==> (second matches Ok(b) && a.block_hash() == b.block_hash()
            && a.block() == b.block()),
{
    if let Ok(a) = first {
        if let Ok(b) = second {
            lemma_reads_as_one_header(cbor_decoding(block)->Some_0, a.block(), b.block());
            assert(a.block_hash().bytes =~= b.block_hash().bytes);
        }
    }
}

/// Whether `res` is what reading a transaction comes to: its block read as
/// `block_read` says, with the place, the call and the output as given.
pub open spec fn txn_read(
    block: Seq<u8>,
    block_hash: Seq<u8>,
    index: u32,
    input: Seq<u8>,
    output: Seq<u8>,
    res: Result<TransactionSnapshot, Failure>,
) -> bool {
    match cbor_decoding(block) {
        None => res matches Err(Failure::Codec(_)),
        Some(item) => match res {
            Ok(snapshot) => {
                &&& reads_as(item, snapshot.block)
                &&& snapshot.block_hash@ == padded(block_hash)
                &&& snapshot.round == snapshot.block.round
                &&& snapshot.index == index
                &&& snapshot.input@ == input
                &&& snapshot.output@ == output
            },
            Err(failure) => {
                &&& failure == Failure::Malformed(Malformed::Header)
                &&& forall|h: Header| !reads_as(item, h)
            },
        },
    }
}

/// Reads a transaction and its block from their binary form.
pub fn read_txn(
    block: &[u8],
    block_hash: &[u8],
    index: u32,
    input: Vec<u8>,
    output: Vec<u8>,
) -> (res: Result<TransactionSnapshot, Failure>)
    ensures
        txn_read(block@, block_hash@, index, input@, output@, res),
{
    match read_block(block, block_hash) {
        Ok(snapshot) => Ok(
            TransactionSnapshot::new(snapshot.block(), snapshot.block_hash(), index, input, output),
        ),
        Err(failure) => Err(failure),
    }
}

/// Whether `res` is what the output of a call comes to: the data of a
/// success; `TxnFailed` with the node's message for an error; the codec's
/// error where the bytes are no CBOR item; `Malformed` where the item is no
/// output.
pub open spec fn output_read(output: Seq<u8>, res: Result<Cbor, Failure>) -> bool {
    match cbor_decoding(output) {
        None => res matches Err(Failure::Codec(_)),
        Some(item) => match item_output(item) {
            None => res matches Err(Failure::Malformed(Malformed::Output)),
            Some(OutputView::Success(data)) => res matches Ok(found) && found@ == data,
            Some(OutputView::Error(message)) => res matches Err(
                Failure::Client(TxnClientError::TxnFailed(found)),
            ) && found@ == message,
        },
    }
}

/// Parse runtime call output.
pub fn parse_call_output(output: Vec<u8>) -> (res: Result<Cbor, Failure>)
    ensures
        output_read(output@, res),
{
    let item = match Cbor::decode(output.as_slice()) {
        Ok(item) => item,
        Err(failure) => {
            return Err(failure);
        },
    };
    match TxnOutput::from_cbor(item) {
        Ok(output) => output.into_result(),
        Err(failure) => Err(failure),
    }
}

/// Whether `res` is the request that submits the call: the binary form of
/// the call's item for the client's runtime; `Unencodable` where the
/// arguments hold what this crate cannot write; the codec's error where it
/// reports one.
pub open spec fn call_submitted(
    runtime_id: B256,
    call: CallView,
    res: Result<SubmitTxRequest, Failure>,
) -> bool {
    if !encodable(call_item(call)) {
        res matches Err(Failure::Unencodable)
    } else {
        match cbor_encoding(call_item(call)) {
            Some(bytes) => res matches Ok(request) && request.runtime_id@ == runtime_id@
                && request.data@ == bytes,
            None => res matches Err(Failure::Codec(_)),
        }
    }
}

impl TxnClient {
    /// The runtime that the client speaks for.
    pub closed spec fn runtime_id(&self) -> B256 {
        self.runtime_id
    }

    /// The bound on each call.
    pub closed spec fn timeout(&self) -> Option<Duration> {
        self.timeout
    }

    /// The client's block watcher.
    pub closed spec fn watcher(&self) -> WatcherModel {
        self.block_watcher@
    }

    /// Create a new transaction client.
    pub fn new(runtime_id: B256, timeout: Option<Duration>) -> (res: Self)
        ensures
            res.runtime_id() == runtime_id,
            res.timeout() == timeout,
            res.watcher() == WatcherModel::fresh(),
    {
        TxnClient { runtime_id, timeout, block_watcher: BlockWatcher::new() }
    }

    /// The options of every call that the client makes: its timeout, where
    /// it has one.
    pub fn prepare_options(&self) -> (res: CallOptions)
        ensures
            res.timeout == self.timeout(),
    {
        CallOptions { timeout: self.timeout }
    }

    /// The request that calls a remote method.
    pub fn call_request(&self, method: &str, args: Cbor) -> (res: Result<
        SubmitTxRequest,
        Failure,
    >)
        ensures
            call_submitted(self.runtime_id(), CallView { method: method@, args: args@ }, res),
    {
        self.submit_tx_raw_request(TxnCall { method: method.to_owned(), args })
    }

    /// Call a remote method: what the node's reply to the request comes to.
    /// A success gives the data that the method returned. An error of the
    /// method fails with `TxnFailed` and the node's message, whatever the
    /// call was.
    pub fn call(&self, reply: RpcResult<SubmitTxResponse>) -> (res: Result<Cbor, Failure>)
        ensures
            match reply {
                Ok(response) => output_read(response.result@, res),
                Err(description) => call_failed(res, description),
            },
    {
        match self.submit_tx_raw(reply) {
            Ok(output) => parse_call_output(output),
            Err(failure) => Err(failure),
        }
    }

    /// The request that dispatches a raw call to the node.
    pub fn submit_tx_raw_request(&self, call: TxnCall) -> (res: Result<SubmitTxRequest, Failure>)
        ensures
            call_submitted(self.runtime_id(), call@, res),
    {
        let item = call.into_cbor();
        match item.encode() {
            Ok(data) => Ok(SubmitTxRequest { runtime_id: self.runtime_id.to_vec(), data }),
            Err(failure) => Err(failure),
        }
    }

    /// Dispatch a raw call to the node: the output that the node returned,
    /// in its binary form.
    pub fn submit_tx_raw(&self, reply: RpcResult<SubmitTxResponse>) -> (res: Result<
        Vec<u8>,
        Failure,
    >)
        ensures
            match reply {
                Ok(response) => res matches Ok(output) && output@ == response.result@,
                Err(description) => call_failed(res, description),
            },
    {
        match reply {
            Ok(response) => Ok(response.result),
            Err(description) => Err(Failure::Client(TxnClientError::CallFailed(description))),
        }
    }

    /// Wait for the node to finish syncing.
    pub fn wait_sync(&self, reply: RpcResult<()>) -> (res: Result<(), Failure>)
        ensures
            match reply {
                Ok(_) => res is Ok,
                Err(description) => call_failed(res, description),
            },
    {
        match reply {
            Ok(_) => Ok(()),
            Err(description) => Err(Failure::Client(TxnClientError::CallFailed(description))),
        }
    }

    /// Check if the node is finished syncing.
    pub fn is_synced(&self, reply: RpcResult<IsSyncedResponse>) -> (res: Result<bool, Failure>)
        ensures
            match reply {
                Ok(response) => res == Ok::<bool, Failure>(response.synced),
                Err(description) => call_failed(res, description),
            },
    {
        match reply {
            Ok(response) => Ok(response.synced),
            Err(description) => Err(Failure::Client(TxnClientError::CallFailed(description))),
        }
    }

    /// The request for the block at a round; `ROUND_LATEST` asks for the
    /// most recent one.
    pub fn get_block_request(&self, round: u64) -> (res: GetBlockRequest)
        ensures
            res.runtime_id@ == self.runtime_id()@,
            res.round == round,
    {
        GetBlockRequest { runtime_id: self.runtime_id.to_vec(), round }
    }

    /// Retrieve block snapshot at specified round.
    pub fn get_block(&self, reply: RpcResult<BlockResponse>) -> (res: Result<
        BlockSnapshot,
        Failure,
    >)
        ensures
            match reply {
                Ok(response) => block_read(response.block@, response.block_hash@, res),
                Err(description) => call_failed(res, description),
            },
    {
        match reply {
            Ok(response) => read_block(response.block.as_slice(), response.block_hash.as_slice()),
            Err(description) => Err(Failure::Client(TxnClientError::CallFailed(description))),
        }
    }

    /// The request for the transaction at a place of the block at a round.
    pub fn get_txn_request(&self, round: u64, index: u32) -> (res: GetTxnRequest)
        ensures
            res.runtime_id@ == self.runtime_id()@,
            res.round == round,
            res.index == index,
    {
        GetTxnRequest { runtime_id: self.runtime_id.to_vec(), round, index }
    }

    /// Retrieve transaction at specified block round and index.
    pub fn get_txn(&self, index: u32, reply: RpcResult<TxnResponse>) -> (res: Result<
        TransactionSnapshot,
        Failure,
    >)
        ensures
            match reply {
                Ok(response) => txn_read(
                    response.block@,
                    response.block_hash@,
                    index,
                    response.input@,
                    response.output@,
                    res,
                ),
                Err(description) => call_failed(res, description),
            },
    {
        match reply {
            Ok(response) => read_txn(
                response.block.as_slice(),
                response.block_hash.as_slice(),
                index,
                response.input,
                response.output,
            ),
            Err(description) => Err(Failure::Client(TxnClientError::CallFailed(description))),
        }
    }

    /// The request for the transaction at a place of the block with a hash.
    pub fn get_txn_by_block_hash_request(&self, block_hash: H256, index: u32) -> (res:
        GetTxnByBlockHashRequest)
        ensures
            res.runtime_id@ == self.runtime_id()@,
            res.block_hash@ == block_hash@,
            res.index == index,
    {
        GetTxnByBlockHashRequest {
            runtime_id: self.runtime_id.to_vec(),
            block_hash: block_hash.to_vec(),
            index,
        }
    }

    /// Retrieve transaction at specified block hash and index.
    pub fn get_txn_by_block_hash(&self, index: u32, reply: RpcResult<TxnResponse>) -> (res: Result<
        TransactionSnapshot,
        Failure,
    >)
        ensures
            match reply {
                Ok(response) => txn_read(
                    response.block@,
                    response.block_hash@,
                    index,
                    response.input@,
                    response.output@,
                    res,
                ),
                Err(description) => call_failed(res, description),
            },
    {
        self.get_txn(index, reply)
    }

    /// The request for the transactions under a root.
    pub fn get_transactions_request(&self, root: H256) -> (res: GetTransactionsRequest)
        ensures
            res.runtime_id@ == self.runtime_id()@,
            res.root@ == root@,
    {
        GetTransactionsRequest { runtime_id: self.runtime_id.to_vec(), root: root.to_vec() }
    }

    /// Retrieve transactions at specific root.
    pub fn get_transactions(&self, reply: RpcResult<TransactionsResponse>) -> (res: Result<
        TxnBatch,
        Failure,
    >)
        ensures
            match reply {
                Ok(response) => res matches Ok(batch) && batch_view(batch)
                    == response.txns.deep_view(),
                Err(description) => call_failed(res, description),
            },
    {
        match reply {
            Ok(response) => Ok(TxnBatch(response.txns)),
            Err(description) => Err(Failure::Client(TxnClientError::CallFailed(description))),
        }
    }

    /// The request for the block that was tagged with the key and the value.
    pub fn query_block_request(&self, key: &[u8], value: &[u8]) -> (res: QueryBlockRequest)
        ensures
            res.runtime_id@ == self.runtime_id()@,
            res.key@ == key@,
            res.value@ == value@,
    {
        QueryBlockRequest {
            runtime_id: self.runtime_id.to_vec(),
            key: slice_to_vec(key),
            value: slice_to_vec(value),
        }
    }

    /// Query the block index.
    pub fn query_block(&self, reply: RpcResult<BlockResponse>) -> (res: Result<
        BlockSnapshot,
        Failure,
    >)
        ensures
            match reply {
                Ok(response) => block_read(response.block@, response.block_hash@, res),
                Err(description) => call_failed(res, description),
            },
    {
        self.get_block(reply)
    }

    /// The request for the transaction that was tagged with the key and the
    /// value.
    pub fn query_txn_request(&self, key: &[u8], value: &[u8]) -> (res: QueryTxnRequest)
        ensures
            res.runtime_id@ == self.runtime_id()@,
            res.key@ == key@,
            res.value@ == value@,
    {
        QueryTxnRequest {
            runtime_id: self.runtime_id.to_vec(),
            key: slice_to_vec(key),
            value: slice_to_vec(value),
        }
    }

    /// Query the transaction index. The place of the transaction is the one
    /// that the node reports.
    pub fn query_txn(&self, reply: RpcResult<QueryTxnResponse>) -> (res: Result<
        TransactionSnapshot,
        Failure,
    >)
        ensures
            match reply {
                Ok(response) => txn_read(
                    response.block@,
                    response.block_hash@,
                    response.txn_index,
                    response.input@,
                    response.output@,
                    res,
                ),
                Err(description) => call_failed(res, description),
            },
    {
        match reply {
            Ok(response) => read_txn(
                response.block.as_slice(),
                response.block_hash.as_slice(),
                response.txn_index,
                response.input,
                response.output,
            ),
            Err(description) => Err(Failure::Client(TxnClientError::CallFailed(description))),
        }
    }

    /// Retrieve the latest block snapshot.
    ///
    /// The first caller is told to open the block stream. Every other caller
    /// is given the cached block or waits for the stream's next report.
    pub fn get_latest_block(&mut self, waiter: u64) -> (res: LatestBlock)
        ensures
            final(self).runtime_id() == old(self).runtime_id(),
            final(self).timeout() == old(self).timeout(),
            final(self).watcher() == old(self).watcher().ask(waiter).0,
            match old(self).watcher().ask(waiter).1 {
                Step::Subscribe => res matches LatestBlock::Subscribe(request)
                    && request.runtime_id@ == old(self).runtime_id()@,
                Step::Ready(block, block_hash) => res matches LatestBlock::Ready(snapshot)
                    && snapshot.block() == block && snapshot.block_hash() == block_hash
                    && snapshot.kept() is None,
                Step::Wait => res is Wait,
            },
    {
        if self.block_watcher.start_spawn() {
            LatestBlock::Subscribe(WatchBlocksRequest { runtime_id: self.runtime_id.to_vec() })
        } else {
            match self.block_watcher.get_latest_block(waiter) {
                Some(snapshot) => LatestBlock::Ready(snapshot),
                None => LatestBlock::Wait,
            }
        }
    }

    /// Takes the owner's report on opening the block stream. After a
    /// success the owner asks like any other caller: it is given the cached
    /// block or `None`, to wait. After a failure the claim is given back, so
    /// that the next caller opens the stream anew, and the owner fails with
    /// `CallFailed`.
    pub fn watch_blocks_opened(&mut self, waiter: u64, opened: RpcResult<()>) -> (res: Result<
        Option<BlockSnapshot>,
        Failure,
    >)
        ensures
            final(self).runtime_id() == old(self).runtime_id(),
            final(self).timeout() == old(self).timeout(),
            match opened {
                Ok(_) => {
                    &&& final(self).watcher() == old(self).watcher().request(waiter)
                    &&& match old(self).watcher().latest {
                        Some((block, block_hash)) => res matches Ok(Some(snapshot))
                            && snapshot.block() == block && snapshot.block_hash() == block_hash
                            && snapshot.kept() is None,
                        None => res matches Ok(None),
                    }
                },
                Err(description) => {
                    &&& final(self).watcher() == old(self).watcher().cancel_spawn()
                    &&& call_failed(res, description)
                },
            },
    {
        match opened {
            Ok(_) => Ok(self.block_watcher.get_latest_block(waiter)),
            Err(description) => {
                self.block_watcher.cancel_spawn();
                Err(Failure::Client(TxnClientError::CallFailed(description)))
            },
        }
    }

    /// Takes one element of the block stream. A block that reads well
    /// becomes the latest block and answers the callers that waited. An
    /// element that is an error of the transport, or does not read as a
    /// block, ends the stream: see `blocks_ended`.
    pub fn block_received(&mut self, element: RpcResult<BlockResponse>) -> (res: Wake)
        ensures
            final(self).runtime_id() == old(self).runtime_id(),
            final(self).timeout() == old(self).timeout(),
            res.waiters@ == old(self).watcher().waiters,
            match res.answer {
                Ok(snapshot) => {
                    &&& element matches Ok(response)
                    &&& block_read(response.block@, response.block_hash@, Ok(snapshot))
                    &&& final(self).watcher() == old(self).watcher().deliver(
                        snapshot.block(),
                        snapshot.block_hash(),
                    )
                },
                Err(error) => {
                    &&& error is WatcherClosed
                    &&& final(self).watcher() == old(self).watcher().close()
                    &&& element matches Ok(response) ==> exists|failure: Failure|
                        block_read(response.block@, response.block_hash@, Err(failure))
                },
            },
    {
        let read = match element {
            Ok(response) => read_block(response.block.as_slice(), response.block_hash.as_slice()),
            Err(description) => Err(Failure::Client(TxnClientError::CallFailed(description))),
        };
        match read {
            Ok(snapshot) => {
                let waiters = self.block_watcher.deliver(snapshot.block(), snapshot.block_hash());
                Wake { waiters, answer: Ok(snapshot) }
            },
            Err(failure) => {
                let waiters = self.block_watcher.close();
                Wake { waiters, answer: Err(TxnClientError::WatcherClosed) }
            },
        }
    }

    /// Takes the end of the block stream. The callers that waited fail with
    /// `WatcherClosed`, and the next caller opens the stream anew.
    pub fn blocks_ended(&mut self) -> (res: Wake)
        ensures
            final(self).runtime_id() == old(self).runtime_id(),
            final(self).timeout() == old(self).timeout(),
            final(self).watcher() == old(self).watcher().close(),
            res.waiters@ == old(self).watcher().waiters,
            res.answer matches Err(TxnClientError::WatcherClosed),
    {
        let waiters = self.block_watcher.close();
        Wake { waiters, answer: Err(TxnClientError::WatcherClosed) }
    }
}

} // verus!
