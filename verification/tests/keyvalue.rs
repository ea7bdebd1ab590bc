use std::collections::HashMap;

use ekiden_client::api::SubmitTxResponse;
use ekiden_client::bytes::H256;
use ekiden_client::cbor::Cbor;
use ekiden_client::client::TxnClient;
use ekiden_client::error::{Failure, Malformed};
use ekiden_client::hash::digest_bytes;
use ekiden_client::keyvalue::{
    enc_get, enc_insert, enc_remove, existing_text, get, insert, remove, sealed_text,
    with_encryption, KeyValue, StoreOp, Tag, TxnContext,
};
use ekiden_client::types::{TxnCall, TxnOutput};

fn tag(key: &str, value: &str) -> Tag {
    Tag { key: key.as_bytes().to_vec(), value: value.as_bytes().to_vec() }
}

fn apply(store: &mut HashMap<Vec<u8>, Vec<u8>>, op: StoreOp) -> Option<Vec<u8>> {
    match op {
        StoreOp::Get { key } => store.get(&key).cloned(),
        StoreOp::Insert { key, value } => store.insert(key, value),
        StoreOp::Remove { key } => store.remove(&key),
    }
}

fn text(s: &str) -> Cbor {
    Cbor::Text(s.to_string())
}

/// Plays the node: reads the call, runs the handler on the store and writes
/// the output.
fn node(store: &mut HashMap<Vec<u8>, Vec<u8>>, data: &[u8]) -> Vec<u8> {
    let call = TxnCall::from_cbor(&Cbor::decode(data).unwrap()).unwrap();
    let mut ctx = TxnContext::new();
    let op = match (call.method.as_str(), &call.args) {
        ("insert", args) => {
            let (Some(Cbor::Text(key)), Some(Cbor::Text(value))) =
                (args.field("key"), args.field("value"))
            else {
                panic!("insert takes a key and a value");
            };
            insert(&KeyValue { key: key.clone(), value: value.clone() }, &mut ctx)
        }
        ("get", Cbor::Text(key)) => get(key, &mut ctx),
        ("remove", Cbor::Text(key)) => remove(key, &mut ctx),
        _ => {
            return TxnOutput::Error("method not found".to_string()).into_cbor().encode().unwrap()
        }
    };
    let output = match existing_text(apply(store, op)) {
        Ok(Some(text)) => TxnOutput::Success(Cbor::Text(text)),
        Ok(None) => TxnOutput::Success(Cbor::Null),
        Err(_) => TxnOutput::Error("value is no text".to_string()),
    };
    output.into_cbor().encode().unwrap()
}

#[test]
fn insert_then_get_returns_the_value() {
    let client = TxnClient::new(H256::zero(), None);
    let mut store = HashMap::new();

    let args = Cbor::Table(vec![(text("key"), text("k")), (text("value"), text("v"))]);
    let request = client.call_request("insert", args).unwrap();
    let result = node(&mut store, &request.data);
    assert_eq!(client.call(Ok(SubmitTxResponse { result })).unwrap(), Cbor::Null);

    let request = client.call_request("get", text("k")).unwrap();
    let result = node(&mut store, &request.data);
    assert_eq!(client.call(Ok(SubmitTxResponse { result })).unwrap(), text("v"));
}

#[test]
fn call_gives_what_the_node_computed() {
    let client = TxnClient::new(H256::zero(), None);
    let mut store = HashMap::new();
    store.insert(b"a".to_vec(), b"1".to_vec());
    let mut oracle = store.clone();

    let request = client.call_request("remove", text("a")).unwrap();
    let result = node(&mut store, &request.data);
    let expected = oracle.remove(&b"a".to_vec()).map(|v| String::from_utf8(v).unwrap());
    assert_eq!(
        client.call(Ok(SubmitTxResponse { result })).unwrap(),
        text(&expected.unwrap())
    );
    assert_eq!(store, oracle);
}

#[test]
fn unknown_method_surfaces_as_the_nodes_error() {
    let client = TxnClient::new(H256::zero(), None);
    let mut store = HashMap::new();
    let request = client.call_request("frobnicate", Cbor::Null).unwrap();
    let result = node(&mut store, &request.data);
    match client.call(Ok(SubmitTxResponse { result })) {
        Err(Failure::Client(error)) => {
            assert_eq!(error.message(), "transaction failed: method not found")
        }
        other => panic!("unexpected {:?}", other),
    }
}

#[test]
fn plain_handlers_emit_their_tags() {
    let mut ctx = TxnContext::new();
    let op = insert(&KeyValue { key: "k".to_string(), value: "v".to_string() }, &mut ctx);
    assert_eq!(op, StoreOp::Insert { key: b"k".to_vec(), value: b"v".to_vec() });
    assert_eq!(ctx.block_tags, vec![tag("kv_hello", "insert")]);
    assert_eq!(ctx.txn_tags, vec![tag("kv_op", "insert"), tag("kv_key", "k")]);

    let op = get(&"k".to_string(), &mut ctx);
    assert_eq!(op, StoreOp::Get { key: b"k".to_vec() });
    let op = remove(&"k2".to_string(), &mut ctx);
    assert_eq!(op, StoreOp::Remove { key: b"k2".to_vec() });
    assert_eq!(
        ctx.block_tags,
        vec![tag("kv_hello", "insert"), tag("kv_hello", "get"), tag("kv_hello", "remove")]
    );
    assert_eq!(
        ctx.txn_tags,
        vec![
            tag("kv_op", "insert"),
            tag("kv_key", "k"),
            tag("kv_op", "get"),
            tag("kv_key", "k"),
            tag("kv_op", "remove"),
            tag("kv_key", "k2"),
        ]
    );
}

#[test]
fn tags_are_kept_apart() {
    let mut ctx = TxnContext::new();
    ctx.emit_block_tag(b"a", b"1");
    ctx.emit_txn_tag(b"b", b"2");
    ctx.emit_block_tag(b"c", b"3");
    assert_eq!(ctx.block_tags, vec![tag("a", "1"), tag("c", "3")]);
    assert_eq!(ctx.txn_tags, vec![tag("b", "2")]);
}

#[test]
fn contract_is_the_digest_of_the_key() {
    let sealed = with_encryption(b"k", StoreOp::Get { key: b"k".to_vec() });
    assert_eq!(sealed.contract_id, digest_bytes(b"k"));
    assert_eq!(sealed.op, StoreOp::Get { key: b"k".to_vec() });
}

#[test]
fn different_keys_fall_into_different_contracts() {
    let first = enc_insert(&KeyValue { key: "alice".to_string(), value: "v".to_string() });
    let second = enc_insert(&KeyValue { key: "bob".to_string(), value: "v".to_string() });
    assert_ne!(first.contract_id, second.contract_id);
    assert_eq!(first.op, StoreOp::Insert { key: b"alice".to_vec(), value: b"v".to_vec() });
    assert_eq!(second.op, StoreOp::Insert { key: b"bob".to_vec(), value: b"v".to_vec() });
}

#[test]
fn same_key_always_falls_into_the_same_contract() {
    let inserted = enc_insert(&KeyValue { key: "alice".to_string(), value: "v".to_string() });
    let read = enc_get(&"alice".to_string());
    let removed = enc_remove(&"alice".to_string());
    assert_eq!(inserted.contract_id, read.contract_id);
    assert_eq!(read.contract_id, removed.contract_id);
    assert_eq!(read.op, StoreOp::Get { key: b"alice".to_vec() });
    assert_eq!(removed.op, StoreOp::Remove { key: b"alice".to_vec() });
}

#[test]
fn stored_bytes_become_text() {
    assert_eq!(existing_text(None).unwrap(), None);
    assert_eq!(existing_text(Some(b"v".to_vec())).unwrap(), Some("v".to_string()));
    assert_eq!(
        existing_text(Some(vec![0xc3, 0xa9])).unwrap(),
        Some("\u{e9}".to_string())
    );
    assert!(matches!(
        existing_text(Some(vec![0xff, 0xfe])),
        Err(Failure::Malformed(Malformed::Text))
    ));
}

#[test]
fn failed_keys_or_store_abort_the_handler() {
    assert_eq!(sealed_text(Ok(Some(b"v".to_vec()))).unwrap(), Some("v".to_string()));
    assert_eq!(sealed_text(Ok(None)).unwrap(), None);
    match sealed_text(Err("key manager unreachable".to_string())) {
        Err(Failure::Aborted(description)) => assert_eq!(description, "key manager unreachable"),
        other => panic!("unexpected {:?}", other),
    }
    assert!(matches!(
        sealed_text(Ok(Some(vec![0x80]))),
        Err(Failure::Malformed(Malformed::Text))
    ));
}
