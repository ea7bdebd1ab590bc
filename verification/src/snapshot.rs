//! Read-only views of a block and of one transaction in it.
//!
//! A snapshot holds what the node returned. The transactions of a block are
//! not part of that: they are fetched from the store on first use, by the
//! root that the header names, and kept for as long as the snapshot lives.

use vstd::prelude::*;
use crate::bytes::{H256, U256};
use crate::header::Header;
use crate::types::TxnBatch;

verus! {

/// The transactions of a batch, each as its bytes.
pub open spec fn batch_view(batch: TxnBatch) -> Seq<Seq<u8>> {
    batch.0.deep_view()
}

/// A point-in-time view of one block.
#[derive(Clone, Debug, PartialEq, Eq)]
pub struct BlockSnapshot {
    block: Header,
    block_hash: H256,
    transactions: Option<TxnBatch>,
}

/// Where the transactions of a block are to be had.
#[derive(Debug, PartialEq, Eq)]
pub enum Transactions<'a> {
    /// They were fetched before.
    Known(&'a TxnBatch),
    /// They have to be fetched from the store under this root.
    Fetch(H256),
}

impl BlockSnapshot {
    /// The block's header.
    pub closed spec fn spec_block(&self) -> Header {
        self.block
    }

    /// The block's hash, as the node gave it.
    pub closed spec fn spec_block_hash(&self) -> H256 {
        self.block_hash
    }

    /// The block's header.
    #[verifier::when_used_as_spec(spec_block)]
    pub fn block(&self) -> (res: Header)
        ensures
            res == self.block(),
    {
        self.block
    }

    /// The block's hash, as the node gave it.
    #[verifier::when_used_as_spec(spec_block_hash)]
    pub fn block_hash(&self) -> (res: H256)
        ensures
            res == self.block_hash(),
    {
        self.block_hash
    }

    /// The transactions that this snapshot has kept, if it fetched them.
    pub closed spec fn kept(&self) -> Option<Seq<Seq<u8>>> {
        match self.transactions {
            Some(batch) => Some(batch_view(batch)),
            None => None,
        }
    }

    /// A snapshot of the block with this header and hash, with no
    /// transactions fetched.
    pub fn new(block: Header, block_hash: H256) -> (res: Self)
        ensures
            res.block() == block,
            res.block_hash() == block_hash,
            res.kept() is None,
    {
        BlockSnapshot { block, block_hash, transactions: None }
    }

    /// The transactions of the block, or the root under which the store
    /// holds them.
    pub fn transactions(&self) -> (res: Transactions<'_>)
        ensures
            match self.kept() {
                Some(batch) => res matches Transactions::Known(known) && batch_view(*known)
                    == batch,
                None => res == Transactions::Fetch(self.block().transaction_hash),
            },
    {
        match &self.transactions {
            Some(batch) => Transactions::Known(batch),
            None => Transactions::Fetch(self.block.transaction_hash),
        }
    }

    /// Keeps the transactions that the store returned. What was kept before
    /// stays: a snapshot never changes what it has shown.
    pub fn resolve(&mut self, batch: TxnBatch)
        ensures
            final(self).block() == old(self).block(),
            final(self).block_hash() == old(self).block_hash(),
            final(self).kept() == match old(self).kept() {
                Some(before) => Some(before),
                None => Some(batch_view(batch)),
            },
    {
        if self.transactions.is_none() {
            self.transactions = Some(batch);
        }
    }
}

/// A point-in-time view of one transaction and its block.
#[derive(Clone, Debug, PartialEq, Eq)]
pub struct TransactionSnapshot {
    /// The header of the block that holds the transaction.
    pub block: Header,
    /// The block's hash, as the node gave it.
    pub block_hash: H256,
    /// The block's round.
    pub round: U256,
    /// The place of the transaction in the block.
    pub index: u32,
    /// The call, in its binary form.
    pub input: Vec<u8>,
    /// The output, in its binary form.
    pub output: Vec<u8>,
}

impl TransactionSnapshot {
    /// A snapshot of the transaction at `index` of the block with this
    /// header and hash.
    pub fn new(block: Header, block_hash: H256, index: u32, input: Vec<u8>, output: Vec<u8>) -> (res:
        Self)
        ensures
            res.block == block,
            res.block_hash == block_hash,
            res.round == block.round,
            res.index == index,
            res.input@ == input@,
            res.output@ == output@,
    {
        TransactionSnapshot { block, block_hash, round: block.round, index, input, output }
    }
}

} // verus!
