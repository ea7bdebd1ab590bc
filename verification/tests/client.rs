use std::time::Duration;

use ekiden_client::api::{
    BlockResponse, IsSyncedResponse, QueryTxnResponse, SubmitTxResponse, TransactionsResponse,
    TxnResponse,
};
use ekiden_client::bytes::{H256, U256};
use ekiden_client::cbor::Cbor;
use ekiden_client::client::{
    read_block, LatestBlock, TxnClient, ROUND_LATEST, TAG_BLOCK_HASH,
};
use ekiden_client::error::{Failure, Malformed, TxnClientError};
use ekiden_client::header::Header;
use ekiden_client::snapshot::Transactions;
use ekiden_client::types::{TxnBatch, TxnCall, TxnOutput};

fn runtime_id() -> H256 {
    H256::from_slice(&[0x11; 32])
}

fn client() -> TxnClient {
    TxnClient::new(runtime_id(), Some(Duration::from_secs(5)))
}

fn header(round: u8) -> Header {
    let mut header = Header::default();
    header.version = 1;
    header.round = U256::from_little_endian(&[round]).unwrap();
    header.transaction_hash = H256::from_slice(&[0x77; 32]);
    header
}

fn block_response(round: u8) -> BlockResponse {
    BlockResponse {
        block: header(round).to_cbor().encode().unwrap(),
        block_hash: vec![round; 32],
    }
}

fn down<T>() -> Result<T, String> {
    Err("connection refused".to_string())
}

fn assert_call_failed<T: std::fmt::Debug>(res: Result<T, Failure>, description: &str) {
    match res {
        Err(Failure::Client(TxnClientError::CallFailed(found))) => assert_eq!(found, description),
        other => panic!("unexpected {:?}", other),
    }
}

#[test]
fn constants_are_the_reserved_ones() {
    assert_eq!(ROUND_LATEST, u64::MAX);
    assert_eq!(&TAG_BLOCK_HASH, b"hblk");
}

#[test]
fn options_carry_the_timeout() {
    assert_eq!(client().prepare_options().timeout, Some(Duration::from_secs(5)));
    assert_eq!(TxnClient::new(runtime_id(), None).prepare_options().timeout, None);
}

#[test]
fn requests_name_the_runtime_and_the_arguments() {
    let client = client();
    let request = client.get_block_request(ROUND_LATEST);
    assert_eq!(request.runtime_id, vec![0x11; 32]);
    assert_eq!(request.round, u64::MAX);

    let request = client.get_txn_request(5, 2);
    assert_eq!((request.runtime_id, request.round, request.index), (vec![0x11; 32], 5, 2));

    let request = client.get_txn_by_block_hash_request(H256::from_slice(&[9; 32]), 4);
    assert_eq!((request.runtime_id, request.block_hash, request.index), (vec![0x11; 32], vec![9; 32], 4));

    let request = client.get_transactions_request(H256::from_slice(&[8; 32]));
    assert_eq!((request.runtime_id, request.root), (vec![0x11; 32], vec![8; 32]));

    let request = client.query_block_request(b"kv_hello", b"insert");
    assert_eq!(request.runtime_id, vec![0x11; 32]);
    assert_eq!((request.key, request.value), (b"kv_hello".to_vec(), b"insert".to_vec()));

    let request = client.query_txn_request(b"kv_key", b"k");
    assert_eq!(request.runtime_id, vec![0x11; 32]);
    assert_eq!((request.key, request.value), (b"kv_key".to_vec(), b"k".to_vec()));
}

#[test]
fn get_txn_shows_what_the_node_returned() {
    let client = client();
    let request = client.get_txn_request(5, 2);
    let response = TxnResponse {
        block: header(5).to_cbor().encode().unwrap(),
        block_hash: vec![0xbb; 32],
        input: vec![1, 2, 3],
        output: vec![4, 5],
    };
    let snapshot = client.get_txn(request.index, Ok(response)).unwrap();
    assert_eq!(snapshot.round, U256::from_little_endian(&[5]).unwrap());
    assert_eq!(snapshot.index, 2);
    assert_eq!(snapshot.input, vec![1, 2, 3]);
    assert_eq!(snapshot.output, vec![4, 5]);
    assert_eq!(snapshot.block, header(5));
    assert_eq!(snapshot.block_hash, H256::from_slice(&[0xbb; 32]));
}

#[test]
fn get_txn_by_block_hash_shows_what_the_node_returned() {
    let response = TxnResponse {
        block: header(6).to_cbor().encode().unwrap(),
        block_hash: vec![0xcc; 32],
        input: vec![9],
        output: vec![],
    };
    let snapshot = client().get_txn_by_block_hash(1, Ok(response)).unwrap();
    assert_eq!(snapshot.index, 1);
    assert_eq!(snapshot.block, header(6));
    assert_eq!(snapshot.input, vec![9]);
}

#[test]
fn query_txn_takes_the_place_from_the_node() {
    let response = QueryTxnResponse {
        block: header(6).to_cbor().encode().unwrap(),
        block_hash: vec![0xcc; 32],
        txn_index: 17,
        input: vec![9],
        output: vec![8],
    };
    let snapshot = client().query_txn(Ok(response)).unwrap();
    assert_eq!(snapshot.index, 17);
    assert_eq!(snapshot.output, vec![8]);
}

#[test]
fn get_block_reads_the_header_and_the_hash() {
    let snapshot = client().get_block(Ok(block_response(3))).unwrap();
    assert_eq!(snapshot.block(), header(3));
    assert_eq!(snapshot.block_hash(), H256::from_slice(&[3; 32]));
    assert_eq!(
        snapshot.transactions(),
        Transactions::Fetch(H256::from_slice(&[0x77; 32]))
    );
}

#[test]
fn transport_failure_is_call_failed_everywhere() {
    let client = client();
    assert_call_failed(client.get_block(down()), "connection refused");
    assert_call_failed(client.query_block(down()), "connection refused");
    assert_call_failed(client.get_txn(0, down()), "connection refused");
    assert_call_failed(client.get_txn_by_block_hash(0, down()), "connection refused");
    assert_call_failed(client.query_txn(down()), "connection refused");
    assert_call_failed(client.get_transactions(down()), "connection refused");
    assert_call_failed(client.submit_tx_raw(down()), "connection refused");
    assert_call_failed(client.call(down()), "connection refused");
    assert_call_failed(client.wait_sync(down()), "connection refused");
    assert_call_failed(client.is_synced(down()), "connection refused");
}

#[test]
fn block_that_does_not_decode_is_not_a_call_failure() {
    let garbled = BlockResponse { block: vec![0xff, 0x00], block_hash: vec![0; 32] };
    assert!(matches!(client().get_block(Ok(garbled)), Err(Failure::Codec(_))));
    let no_header = BlockResponse {
        block: Cbor::Array(vec![]).encode().unwrap(),
        block_hash: vec![0; 32],
    };
    assert!(matches!(
        client().get_block(Ok(no_header)),
        Err(Failure::Malformed(Malformed::Header))
    ));
    assert!(matches!(read_block(&[], &[]), Err(Failure::Codec(_))));
}

#[test]
fn sync_status_is_passed_on() {
    let client = client();
    assert!(client.wait_sync(Ok(())).is_ok());
    assert_eq!(client.is_synced(Ok(IsSyncedResponse { synced: true })).unwrap(), true);
    assert_eq!(client.is_synced(Ok(IsSyncedResponse { synced: false })).unwrap(), false);
}

#[test]
fn transactions_come_in_the_nodes_order() {
    let response = TransactionsResponse { txns: vec![vec![1], vec![], vec![2, 3]] };
    assert_eq!(
        client().get_transactions(Ok(response)).unwrap(),
        TxnBatch(vec![vec![1], vec![], vec![2, 3]])
    );
}

#[test]
fn snapshot_keeps_the_transactions_it_fetched_first() {
    let mut snapshot = client().get_block(Ok(block_response(3))).unwrap();
    snapshot.resolve(TxnBatch(vec![vec![1]]));
    assert_eq!(snapshot.transactions(), Transactions::Known(&TxnBatch(vec![vec![1]])));
    snapshot.resolve(TxnBatch(vec![vec![2]]));
    assert_eq!(snapshot.transactions(), Transactions::Known(&TxnBatch(vec![vec![1]])));
    assert_eq!(snapshot.block(), header(3));
}

#[test]
fn repeated_query_gives_the_same_snapshot() {
    let client = client();
    let first_request = client.query_block_request(b"kv_hello", b"insert");
    let second_request = client.query_block_request(b"kv_hello", b"insert");
    assert_eq!(first_request, second_request);
    let first = client.query_block(Ok(block_response(8))).unwrap();
    let second = client.query_block(Ok(block_response(8))).unwrap();
    assert_eq!(first.block_hash(), second.block_hash());
    assert_eq!(first, second);
}

#[test]
fn call_request_carries_the_encoded_call() {
    let request = client().call_request("get", Cbor::Text("k".to_string())).unwrap();
    assert_eq!(request.runtime_id, vec![0x11; 32]);
    let item = Cbor::decode(&request.data).unwrap();
    let call = TxnCall::from_cbor(&item).unwrap();
    assert_eq!(call.method, "get");
    assert_eq!(call.args, Cbor::Text("k".to_string()));

    let raw = client()
        .submit_tx_raw_request(TxnCall { method: "get".to_string(), args: Cbor::Text("k".to_string()) })
        .unwrap();
    assert_eq!(raw, request);
}

#[test]
fn call_with_arguments_that_cannot_be_written_fails_before_it_is_sent() {
    let res = client().call_request("f", Cbor::Integer(-(1i128 << 64) - 1));
    assert!(matches!(res, Err(Failure::Unencodable)));
    let res = client().call_request("f", Cbor::Array(vec![Cbor::Float(0)]));
    assert!(matches!(res, Err(Failure::Unencodable)));
    assert!(client().call_request("f", Cbor::Integer(-(1i128 << 64))).is_ok());
}

#[test]
fn call_gives_the_data_of_a_success() {
    let result = TxnOutput::Success(Cbor::Integer(42)).into_cbor().encode().unwrap();
    assert_eq!(client().call(Ok(SubmitTxResponse { result })).unwrap(), Cbor::Integer(42));
}

#[test]
fn call_fails_with_the_message_of_an_error() {
    let result = TxnOutput::Error("out of gas".to_string()).into_cbor().encode().unwrap();
    match client().call(Ok(SubmitTxResponse { result })) {
        Err(Failure::Client(TxnClientError::TxnFailed(message))) => assert_eq!(message, "out of gas"),
        other => panic!("unexpected {:?}", other),
    }
}

#[test]
fn submit_tx_raw_gives_the_bytes_of_the_reply() {
    let res = client().submit_tx_raw(Ok(SubmitTxResponse { result: vec![1, 2] }));
    assert_eq!(res.unwrap(), vec![1, 2]);
}

#[test]
fn many_callers_open_one_subscription_and_all_see_the_first_block() {
    let mut client = client();
    let mut subscriptions = 0;
    let mut waiting = Vec::new();
    for waiter in 0..5u64 {
        match client.get_latest_block(waiter) {
            LatestBlock::Subscribe(request) => {
                assert_eq!(request.runtime_id, vec![0x11; 32]);
                subscriptions += 1;
                assert_eq!(client.watch_blocks_opened(waiter, Ok(())).unwrap(), None);
                waiting.push(waiter);
            }
            LatestBlock::Wait => waiting.push(waiter),
            LatestBlock::Ready(_) => panic!("no block has arrived"),
        }
    }
    assert_eq!(subscriptions, 1);
    let wake = client.block_received(Ok(block_response(1)));
    assert_eq!(wake.waiters, waiting);
    assert_eq!(wake.waiters, vec![0, 1, 2, 3, 4]);
    assert_eq!(wake.answer.unwrap().block(), header(1));
    match client.get_latest_block(9) {
        LatestBlock::Ready(snapshot) => assert_eq!(snapshot.block(), header(1)),
        other => panic!("unexpected {:?}", other),
    }
}

#[test]
fn callers_that_come_while_the_stream_opens_wait_for_it() {
    let mut client = client();
    assert!(matches!(client.get_latest_block(1), LatestBlock::Subscribe(_)));
    assert!(matches!(client.get_latest_block(2), LatestBlock::Wait));
    assert_eq!(client.watch_blocks_opened(1, Ok(())).unwrap(), None);
    let wake = client.block_received(Ok(block_response(4)));
    assert_eq!(wake.waiters, vec![2, 1]);
}

#[test]
fn failed_subscription_is_call_failed_and_the_next_caller_retries() {
    let mut client = client();
    assert!(matches!(client.get_latest_block(1), LatestBlock::Subscribe(_)));
    assert_call_failed(
        client.watch_blocks_opened(1, Err("unavailable".to_string())),
        "unavailable",
    );
    assert!(matches!(client.get_latest_block(2), LatestBlock::Subscribe(_)));
    assert!(matches!(client.get_latest_block(3), LatestBlock::Wait));
}

#[test]
fn end_of_stream_fails_the_waiters_with_watcher_closed() {
    let mut client = client();
    assert!(matches!(client.get_latest_block(1), LatestBlock::Subscribe(_)));
    assert_eq!(client.watch_blocks_opened(1, Ok(())).unwrap(), None);
    assert!(matches!(client.get_latest_block(2), LatestBlock::Wait));
    let wake = client.blocks_ended();
    assert_eq!(wake.waiters, vec![1, 2]);
    assert!(matches!(wake.answer, Err(TxnClientError::WatcherClosed)));
    assert!(matches!(client.get_latest_block(3), LatestBlock::Subscribe(_)));
}

#[test]
fn stream_error_or_garbled_block_closes_the_watcher() {
    let mut client = client();
    assert!(matches!(client.get_latest_block(1), LatestBlock::Subscribe(_)));
    assert_eq!(client.watch_blocks_opened(1, Ok(())).unwrap(), None);
    let wake = client.block_received(Err("reset".to_string()));
    assert_eq!(wake.waiters, vec![1]);
    assert!(matches!(wake.answer, Err(TxnClientError::WatcherClosed)));

    assert!(matches!(client.get_latest_block(2), LatestBlock::Subscribe(_)));
    assert_eq!(client.watch_blocks_opened(2, Ok(())).unwrap(), None);
    let garbled = BlockResponse { block: vec![0xff], block_hash: vec![] };
    let wake = client.block_received(Ok(garbled));
    assert_eq!(wake.waiters, vec![2]);
    assert!(matches!(wake.answer, Err(TxnClientError::WatcherClosed)));
}
