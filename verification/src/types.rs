//! Transaction envelopes: the call that a client submits and the output that
//! the node returns for it.

use vstd::prelude::*;
use crate::cbor::{entry, entry_index, entry_of, Cbor, Item};
use crate::error::{Failure, Malformed, TxnClientError};

verus! {

/// Transaction call.
#[derive(Clone, Debug, PartialEq)]
pub struct TxnCall {
    /// Method name.
    pub method: String,
    /// Method arguments.
    pub args: Cbor,
}

/// Transaction call output.
#[derive(Clone, Debug, PartialEq)]
pub enum TxnOutput {
    /// Call invoked successfully.
    Success(Cbor),
    /// Call raised an error.
    Error(String),
}

/// The transactions committed under one root, in order, each in its binary
/// form.
#[derive(Clone, Debug, PartialEq, Eq)]
pub struct TxnBatch(pub Vec<Vec<u8>>);

/// A call as a mathematical value.
pub struct CallView {
    pub method: Seq<char>,
    pub args: Item,
}

/// An output as a mathematical value.
pub enum OutputView {
    Success(Item),
    Error(Seq<char>),
}

impl View for TxnCall {
    type V = CallView;

    open spec fn view(&self) -> CallView {
        CallView { method: self.method@, args: self.args@ }
    }
}

impl View for TxnOutput {
    type V = OutputView;

    open spec fn view(&self) -> OutputView {
        match self {
            TxnOutput::Success(data) => OutputView::Success(data@),
            TxnOutput::Error(message) => OutputView::Error(message@),
        }
    }
}

/// The item that stands for a call: a map that holds the arguments under
/// `args` and the name of the method under `method`.
pub open spec fn call_item(call: CallView) -> Item {
    Item::Table(
        seq![
            (Item::Text("args"@), call.args),
            (Item::Text("method"@), Item::Text(call.method)),
        ],
    )
}

/// The call that an item stands for: a map that holds a text under `method`
/// and anything under `args`.
pub open spec fn item_call(item: Item) -> Option<CallView> {
    match (entry_of(item, "method"@), entry_of(item, "args"@)) {
        (Some(Item::Text(method)), Some(args)) => Some(CallView { method, args }),
        _ => None,
    }
}

/// The item that stands for an output: a map of one entry, from the name of
/// the variant to what the variant holds.
pub open spec fn output_item(output: OutputView) -> Item {
    match output {
        OutputView::Success(data) => Item::Table(seq![(Item::Text("Success"@), data)]),
        OutputView::Error(message) => Item::Table(
            seq![(Item::Text("Error"@), Item::Text(message))],
        ),
    }
}

/// The output that an item stands for: a map of exactly one entry, which is
/// either anything under `Success` or a text under `Error`.
pub open spec fn item_output(item: Item) -> Option<OutputView> {
    match item {
        Item::Table(entries) => {
            if entries.len() != 1 {
                None
            } else if entries[0].0 == Item::Text("Success"@) {
                Some(OutputView::Success(entries[0].1))
            } else if entries[0].0 == Item::Text("Error"@) {
                match entries[0].1 {
                    Item::Text(message) => Some(OutputView::Error(message)),
                    _ => None,
                }
            } else {
                None
            }
        },
        _ => None,
    }
}

/// What a caller gets from an output: the data of a success, or the failure
/// that carries the node's message.
pub open spec fn output_outcome(output: OutputView) -> Result<Item, Seq<char>> {
    match output {
        OutputView::Success(data) => Ok(data),
        OutputView::Error(message) => Err(message),
    }
}

/// The item of a call reads as that call.
pub proof fn lemma_call_item_reads_back(call: CallView)
    ensures
        item_call(call_item(call)) == Some(call),
{
    reveal_with_fuel(entry_index, 3);
    reveal_strlit("args");
    reveal_strlit("method");
    assert("args"@.len() == 4);
    assert("method"@.len() == 6);
    let entries = call_item(call)->Table_0;
    assert(entry_index(entries, "args"@, 0) == Some(0int));
    assert(entry_index(entries, "method"@, 0) == Some(1int));
}

/// The item of an output reads as that output: a success comes back as the
/// success with the same data, an error as the error with the same message.
pub proof fn lemma_output_item_reads_back(output: OutputView)
    ensures
        item_output(output_item(output)) == Some(output),
{
    reveal_strlit("Success");
    reveal_strlit("Error");
    assert("Success"@.len() == 7);
    assert("Error"@.len() == 5);
}

impl TxnCall {
    /// The item that stands for this call.
    pub fn into_cbor(self) -> (res: Cbor)
        ensures
            res@ == call_item(self@),
    {
        let ghost call = self@;
        let mut entries: Vec<(Cbor, Cbor)> = Vec::new();
        entries.push(entry("args", self.args));
        entries.push(entry("method", Cbor::Text(self.method)));
        let res = Cbor::Table(entries);
        assert(res@->Table_0 =~= call_item(call)->Table_0);
        res
    }

    /// Reads a call from the item that stands for it.
    pub fn from_cbor(value: &Cbor) -> (res: Result<TxnCall, Failure>)
        ensures
            match item_call(value@) {
                Some(call) => res matches Ok(found) && found@ == call,
                None => res matches Err(Failure::Malformed(Malformed::Call)),
            },
    {
        let method = match value.field("method") {
            Some(Cbor::Text(method)) => method.clone(),
            _ => {
                return Err(Failure::Malformed(Malformed::Call));
            },
        };
        let args = match value.field("args") {
            Some(args) => args.duplicate(),
            None => {
                return Err(Failure::Malformed(Malformed::Call));
            },
        };
        Ok(TxnCall { method, args })
    }
}

impl TxnOutput {
    /// The item that stands for this output.
    pub fn into_cbor(self) -> (res: Cbor)
        ensures
            res@ == output_item(self@),
    {
        let ghost output = self@;
        let mut entries: Vec<(Cbor, Cbor)> = Vec::new();
        match self {
            TxnOutput::Success(data) => {
                entries.push(entry("Success", data));
            },
            TxnOutput::Error(message) => {
                entries.push(entry("Error", Cbor::Text(message)));
            },
        }
        let res = Cbor::Table(entries);
        assert(res@->Table_0 =~= output_item(output)->Table_0);
        res
    }

    /// Reads an output from the item that stands for it.
    pub fn from_cbor(value: Cbor) -> (res: Result<TxnOutput, Failure>)
        ensures
            match item_output(value@) {
                Some(output) => res matches Ok(found) && found@ == output,
                None => res matches Err(Failure::Malformed(Malformed::Output)),
            },
    {
        match value {
            Cbor::Table(mut entries) => {
                if entries.len() != 1 {
                    return Err(Failure::Malformed(Malformed::Output));
                }
                let ghost only = entries@[0];
                assert(value@->Table_0[0] == (only.0@, only.1@));
                match entries.pop() {
                    Some((Cbor::Text(name), payload)) => {
                        if name == "Success".to_owned() {
                            Ok(TxnOutput::Success(payload))
                        } else if name == "Error".to_owned() {
                            match payload {
                                Cbor::Text(message) => Ok(TxnOutput::Error(message)),
                                _ => Err(Failure::Malformed(Malformed::Output)),
                            }
                        } else {
                            Err(Failure::Malformed(Malformed::Output))
                        }
                    },
                    _ => Err(Failure::Malformed(Malformed::Output)),
                }
            },
            _ => Err(Failure::Malformed(Malformed::Output)),
        }
    }

    /// What the caller of the method gets: the data of a success, or
    /// `TxnFailed` with the node's message, unchanged.
    pub fn into_result(self) -> (res: Result<Cbor, Failure>)
        ensures
            match output_outcome(self@) {
                Ok(data) => res matches Ok(found) && found@ == data,
                Err(message) => res matches Err(
                    Failure::Client(TxnClientError::TxnFailed(found)),
                ) && found@ == message,
            },
    {
        match self {
            TxnOutput::Success(data) => Ok(data),
            TxnOutput::Error(message) => Err(Failure::Client(TxnClientError::TxnFailed(message))),
        }
    }
}

} // verus!
