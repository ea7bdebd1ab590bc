//! A key-value runtime: its transaction handlers, plain and confidential.
//!
//! A handler decides what is done to the store and which tags are emitted.
//! The store, and the key manager that a confidential operation needs, are
//! somebody else's: a handler names the operation, and what the store
//! returned is turned into the handler's result afterwards.

use vstd::prelude::*;
use vstd::string::StrSliceExecFns;
use vstd::slice::slice_to_vec;
use vstd::utf8::{decode_utf8, encode_utf8, valid_utf8};
use crate::bytes::H256;
use crate::error::{Failure, Malformed};
use crate::hash::{digest_bytes, sha512_256};

verus! {

/// The confidentiality domain of a logical key.
pub type ContractId = H256;

/// A key and the value to store under it.
#[derive(Clone, Debug, PartialEq, Eq)]
pub struct KeyValue {
    pub key: String,
    pub value: String,
}

/// A tag: a key and a value under which the index finds a block or a
/// transaction again.
#[derive(Clone, Debug, PartialEq, Eq)]
pub struct Tag {
    pub key: Vec<u8>,
    pub value: Vec<u8>,
}

/// What a handler has emitted during one invocation.
#[derive(Clone, Debug, PartialEq, Eq)]
pub struct TxnContext {
    /// The tags of the block, in the order in which they were emitted.
    pub block_tags: Vec<Tag>,
    /// The tags of the transaction, in the order in which they were emitted.
    pub txn_tags: Vec<Tag>,
}

/// An operation on the store. Each returns the value that the key held
/// before.
#[derive(Clone, Debug, PartialEq, Eq)]
pub enum StoreOp {
    Get { key: Vec<u8> },
    Insert { key: Vec<u8>, value: Vec<u8> },
    Remove { key: Vec<u8> },
}

/// An operation on the store under the encryption key of a contract: the
/// key pair of `contract_id` is fetched, or created, before the operation
/// runs on the store that it wraps.
#[derive(Clone, Debug, PartialEq, Eq)]
pub struct Sealed {
    pub contract_id: ContractId,
    pub op: StoreOp,
}

/// Tags as mathematical values.
pub open spec fn tags_view(tags: Vec<Tag>) -> Seq<(Seq<u8>, Seq<u8>)> {
    Seq::new(tags@.len(), |i: int| (tags@[i].key@, tags@[i].value@))
}

/// An operation as a mathematical value.
pub enum OpView {
    Get(Seq<u8>),
    Insert(Seq<u8>, Seq<u8>),
    Remove(Seq<u8>),
}

impl View for StoreOp {
    type V = OpView;

    open spec fn view(&self) -> OpView {
        match self {
            StoreOp::Get { key } => OpView::Get(key@),
            StoreOp::Insert { key, value } => OpView::Insert(key@, value@),
            StoreOp::Remove { key } => OpView::Remove(key@),
        }
    }
}

/// `String::from_utf8`: the text that the bytes encode, where they are
/// valid UTF-8, and nothing where they are not.
#[verifier::external_body]
fn from_utf8(bytes: Vec<u8>) -> (res: Option<String>)
    ensures
        res is Some <==> valid_utf8(bytes@),
        res matches Some(text) ==> text@ == decode_utf8(bytes@),
{
    String::from_utf8(bytes).ok()
}

impl TxnContext {
    /// A context in which nothing has been emitted.
    pub fn new() -> (res: Self)
        ensures
            tags_view(res.block_tags).len() == 0,
            tags_view(res.txn_tags).len() == 0,
    {
        TxnContext { block_tags: Vec::new(), txn_tags: Vec::new() }
    }

    /// Emits a tag of the block.
    pub fn emit_block_tag(&mut self, key: &[u8], value: &[u8])
        ensures
            tags_view(final(self).block_tags) == tags_view(old(self).block_tags).push(
                (key@, value@),
            ),
            final(self).txn_tags == old(self).txn_tags,
    {
        self.block_tags.push(Tag { key: slice_to_vec(key), value: slice_to_vec(value) });
        assert(tags_view(self.block_tags) =~= tags_view(old(self).block_tags).push(
            (key@, value@),
        ));
    }

    /// Emits a tag of the transaction.
    pub fn emit_txn_tag(&mut self, key: &[u8], value: &[u8])
        ensures
            tags_view(final(self).txn_tags) == tags_view(old(self).txn_tags).push(
                (key@, value@),
            ),
            final(self).block_tags == old(self).block_tags,
    {
        self.txn_tags.push(Tag { key: slice_to_vec(key), value: slice_to_vec(value) });
        assert(tags_view(self.txn_tags) =~= tags_view(old(self).txn_tags).push((key@, value@)));
    }
}

/// Emits the tags of a plain operation: the operation's name on the block
/// and on the transaction, and the key on the transaction.
fn emit_tags(ctx: &mut TxnContext, name: &str, key: &str)
    ensures
        tags_view(final(ctx).block_tags) == tags_view(old(ctx).block_tags).push(
            (encode_utf8("kv_hello"@), encode_utf8(name@)),
        ),
        tags_view(final(ctx).txn_tags) == tags_view(old(ctx).txn_tags).push(
            (encode_utf8("kv_op"@), encode_utf8(name@)),
        ).push((encode_utf8("kv_key"@), encode_utf8(key@))),
{
    ctx.emit_block_tag("kv_hello".as_bytes(), name.as_bytes());
    ctx.emit_txn_tag("kv_op".as_bytes(), name.as_bytes());
    ctx.emit_txn_tag("kv_key".as_bytes(), key.as_bytes());
}

/// Insert a key/value pair.
pub fn insert(args: &KeyValue, ctx: &mut TxnContext) -> (res: StoreOp)
    ensures
        res@ == OpView::Insert(encode_utf8(args.key@), encode_utf8(args.value@)),
        tags_view(final(ctx).block_tags) == tags_view(old(ctx).block_tags).push(
            (encode_utf8("kv_hello"@), encode_utf8("insert"@)),
        ),
        tags_view(final(ctx).txn_tags) == tags_view(old(ctx).txn_tags).push(
            (encode_utf8("kv_op"@), encode_utf8("insert"@)),
        ).push((encode_utf8("kv_key"@), encode_utf8(args.key@))),
{
    emit_tags(ctx, "insert", args.key.as_str());
    StoreOp::Insert {
        key: args.key.as_str().as_bytes_vec(),
        value: args.value.as_str().as_bytes_vec(),
    }
}

/// Retrieve a key/value pair.
pub fn get(args: &String, ctx: &mut TxnContext) -> (res: StoreOp)
    ensures
        res@ == OpView::Get(encode_utf8(args@)),
        tags_view(final(ctx).block_tags) == tags_view(old(ctx).block_tags).push(
            (encode_utf8("kv_hello"@), encode_utf8("get"@)),
        ),
        tags_view(final(ctx).txn_tags) == tags_view(old(ctx).txn_tags).push(
            (encode_utf8("kv_op"@), encode_utf8("get"@)),
        ).push((encode_utf8("kv_key"@), encode_utf8(args@))),
{
    emit_tags(ctx, "get", args.as_str());
    StoreOp::Get { key: args.as_str().as_bytes_vec() }
}

/// Remove a key/value pair.
pub fn remove(args: &String, ctx: &mut TxnContext) -> (res: StoreOp)
    ensures
        res@ == OpView::Remove(encode_utf8(args@)),
        tags_view(final(ctx).block_tags) == tags_view(old(ctx).block_tags).push(
            (encode_utf8("kv_hello"@), encode_utf8("remove"@)),
        ),
        tags_view(final(ctx).txn_tags) == tags_view(old(ctx).txn_tags).push(
            (encode_utf8("kv_op"@), encode_utf8("remove"@)),
        ).push((encode_utf8("kv_key"@), encode_utf8(args@))),
{
    emit_tags(ctx, "remove", args.as_str());
    StoreOp::Remove { key: args.as_str().as_bytes_vec() }
}

/// Helper for doing encrypted store operations: the contract is the digest
/// of the logical key, so a key always falls into the same contract.
pub fn with_encryption(key: &[u8], op: StoreOp) -> (res: Sealed)
    ensures
        res.contract_id@ == sha512_256(key@),
        res.op == op,
{
    Sealed { contract_id: digest_bytes(key), op }
}

/// (encrypted) Insert a key/value pair.
pub fn enc_insert(args: &KeyValue) -> (res: Sealed)
    ensures
        res.contract_id@ == sha512_256(encode_utf8(args.key@)),
        res.op@ == OpView::Insert(
            encode_utf8(args.key@),
            encode_utf8(args.value@),
        ),
{
    let key = args.key.as_str().as_bytes_vec();
    let value = args.value.as_str().as_bytes_vec();
    with_encryption(args.key.as_str().as_bytes(), StoreOp::Insert { key, value })
}

/// (encrypted) Retrieve a key/value pair.
pub fn enc_get(args: &String) -> (res: Sealed)
    ensures
        res.contract_id@ == sha512_256(encode_utf8(args@)),
        res.op@ == OpView::Get(encode_utf8(args@)),
{
    let key = args.as_str().as_bytes_vec();
    with_encryption(args.as_str().as_bytes(), StoreOp::Get { key })
}

/// (encrypted) Remove a key/value pair.
pub fn enc_remove(args: &String) -> (res: Sealed)
    ensures
        res.contract_id@ == sha512_256(encode_utf8(args@)),
        res.op@ == OpView::Remove(encode_utf8(args@)),
{
    let key = args.as_str().as_bytes_vec();
    with_encryption(args.as_str().as_bytes(), StoreOp::Remove { key })
}

/// The result of a handler, from what the store returned: the text that
/// the key held before, if it held any. A value that is not UTF-8 is no
/// text.
pub fn existing_text(existing: Option<Vec<u8>>) -> (res: Result<Option<String>, Failure>)
    ensures
        match existing {
            None => res matches Ok(None),
            Some(bytes) => if valid_utf8(bytes@) {
                res matches Ok(Some(text)) && text@ == decode_utf8(bytes@)
            } else {
                res matches Err(Failure::Malformed(Malformed::Text))
            },
        },
{
    match existing {
        None => Ok(None),
        Some(bytes) => match from_utf8(bytes) {
            Some(text) => Ok(Some(text)),
            None => Err(Failure::Malformed(Malformed::Text)),
        },
    }
}

/// The result of a confidential handler, from what came of its operation.
/// Where the keys could not be had or the store failed, the handler fails
/// with the description of that, and nothing was applied.
pub fn sealed_text(outcome: Result<Option<Vec<u8>>, String>) -> (res: Result<
    Option<String>,
    Failure,
>)
    ensures
        match outcome {
            Ok(None) => res matches Ok(None),
            Ok(Some(bytes)) => if valid_utf8(bytes@) {
                res matches Ok(Some(text)) && text@ == decode_utf8(bytes@)
            } else {
                res matches Err(Failure::Malformed(Malformed::Text))
            },
            Err(description) => res matches Err(Failure::Aborted(found)) && found@
                == description@,
        },
{
    match outcome {
        Ok(existing) => existing_text(existing),
        Err(description) => Err(Failure::Aborted(description)),
    }
}

} // verus!
