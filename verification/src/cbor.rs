//! CBOR items and their binary form.
//!
//! The binary form is `serde_cbor`'s. This module gives the items a type that
//! the rest of the crate can take apart, and names what the codec returns.

use vstd::prelude::*;
use serde_cbor::Value as Foreign;
use crate::error::Failure;

verus! {

/// A CBOR item as a mathematical value.
#[verifier::ext_equal]
pub enum Item {
    Null,
    Bool(bool),
    Integer(int),
    /// A floating-point number, by the bits of its IEEE 754 double form.
    Float(u64),
    Bytes(Seq<u8>),
    Text(Seq<char>),
    Array(Seq<Item>),
    Table(Seq<(Item, Item)>),
    Tag(u64, Box<Item>),
}

/// A CBOR item.
#[derive(Debug, PartialEq)]
pub enum Cbor {
    Null,
    Bool(bool),
    Integer(i128),
    /// A floating-point number, by the bits of its IEEE 754 double form.
    Float(u64),
    Bytes(Vec<u8>),
    Text(String),
    Array(Vec<Cbor>),
    /// The entries of a map, key before value.
    Table(Vec<(Cbor, Cbor)>),
    Tag(u64, Box<Cbor>),
}

impl Cbor {
    /// The mathematical value that this item stands for.
    pub open spec fn item(&self) -> Item
        decreases self,
    {
        match self {
            Cbor::Null => Item::Null,
            Cbor::Bool(b) => Item::Bool(*b),
            Cbor::Integer(i) => Item::Integer(*i as int),
            Cbor::Float(bits) => Item::Float(*bits),
            Cbor::Bytes(b) => Item::Bytes(b@),
            Cbor::Text(s) => Item::Text(s@),
            Cbor::Array(items) => Item::Array(
                Seq::new(
                    items@.len(),
                    |i: int|
                        if 0 <= i < items@.len() {
                            items@[i].item()
                        } else {
                            Item::Null
                        },
                ),
            ),
            Cbor::Table(entries) => Item::Table(
                Seq::new(
                    entries@.len(),
                    |i: int|
                        if 0 <= i < entries@.len() {
                            (entries@[i].0.item(), entries@[i].1.item())
                        } else {
                            (Item::Null, Item::Null)
                        },
                ),
            ),
            Cbor::Tag(tag, inner) => Item::Tag(*tag, Box::new((**inner).item())),
        }
    }

    /// A copy of this item.
    pub fn duplicate(&self) -> (res: Cbor)
        ensures
            res@ == self@,
        decreases self,
    {
        match self {
            Cbor::Null => Cbor::Null,
            Cbor::Bool(b) => Cbor::Bool(*b),
            Cbor::Integer(i) => Cbor::Integer(*i),
            Cbor::Float(bits) => Cbor::Float(*bits),
            Cbor::Bytes(b) => Cbor::Bytes(b.clone()),
            Cbor::Text(s) => Cbor::Text(s.clone()),
            Cbor::Array(items) => {
                let mut copy: Vec<Cbor> = Vec::new();
                let mut i: usize = 0;
                while i < items.len()
                    invariant
                        decreases_to!(*self => *items),
                        i <= items.len(),
                        copy.len() == i,
                        forall|j: int| 0 <= j < i ==> copy@[j]@ == items@[j]@,
                    decreases items.len() - i,
                {
                    assert(decreases_to!(*items => items[i as int]));
                    copy.push(items[i].duplicate());
                    i += 1;
                }
                let res = Cbor::Array(copy);
                assert(res@->Array_0 =~= self@->Array_0);
                res
            },
            Cbor::Table(entries) => {
                let mut copy: Vec<(Cbor, Cbor)> = Vec::new();
                let mut i: usize = 0;
                while i < entries.len()
                    invariant
                        decreases_to!(*self => *entries),
                        i <= entries.len(),
                        copy.len() == i,
                        forall|j: int|
                            0 <= j < i ==> copy@[j].0@ == entries@[j].0@ && copy@[j].1@
                                == entries@[j].1@,
                    decreases entries.len() - i,
                {
                    assert(decreases_to!(*entries => entries[i as int]));
                    let key = entries[i].0.duplicate();
                    let value = entries[i].1.duplicate();
                    copy.push((key, value));
                    i += 1;
                }
                let res = Cbor::Table(copy);
                assert(res@->Table_0 =~= self@->Table_0);
                res
            },
            Cbor::Tag(tag, inner) => Cbor::Tag(*tag, Box::new(inner.duplicate())),
        }
    }
}

/// The item tree that `serde_cbor` reads and writes; nothing inside it is
/// read here.
#[verifier::external_type_specification]
#[verifier::external_body]
pub struct ExForeign(serde_cbor::Value);

/// What `serde_cbor::from_slice` reads from the bytes as one item, or `None`
/// where it reports an error.
pub uninterp spec fn cbor_decoding(bytes: Seq<u8>) -> Option<Item>;

/// The bytes that `serde_cbor::to_vec` writes for the item, or `None` where
/// it reports an error.
pub uninterp spec fn cbor_encoding(item: Item) -> Option<Seq<u8>>;

/// Whether this crate can write the item: every integer in it lies in the
/// range that CBOR can hold, from -2^64 to 2^64 - 1, and it holds no
/// floating-point number.
pub open spec fn encodable(item: Item) -> bool
    decreases item,
{
    match item {
        Item::Integer(i) => -0x1_0000_0000_0000_0000 <= i <= 0xffff_ffff_ffff_ffff,
        Item::Float(_) => false,
        Item::Array(items) => forall|i: int| 0 <= i < items.len() ==> encodable(#[trigger] items[i]),
        Item::Table(entries) => forall|i: int|
            0 <= i < entries.len() ==> encodable((#[trigger] entries[i]).0) && encodable(
                entries[i].1,
            ),
        Item::Tag(_, inner) => encodable(*inner),
        _ => true,
    }
}

/// The place of the first entry at or after `from` whose key is the text
/// `key`.
pub open spec fn entry_index(entries: Seq<(Item, Item)>, key: Seq<char>, from: int) -> Option<int>
    decreases entries.len() - from,
{
    if from < 0 || from >= entries.len() {
        None
    } else if entries[from].0 == Item::Text(key) {
        Some(from)
    } else {
        entry_index(entries, key, from + 1)
    }
}

/// The value that a map holds under the text `key`: that of the first such
/// entry. An item that is no map holds nothing.
pub open spec fn entry_of(item: Item, key: Seq<char>) -> Option<Item> {
    match item {
        Item::Table(entries) => match entry_index(entries, key, 0) {
            Some(i) => Some(entries[i].1),
            None => None,
        },
        _ => None,
    }
}

/// One entry of a map, under a text key.
pub fn entry(key: &str, value: Cbor) -> (res: (Cbor, Cbor))
    ensures
        res.0@ == Item::Text(key@),
        res.1@ == value@,
{
    (Cbor::Text(key.to_owned()), value)
}

/// Turns a tree of `serde_cbor` into an item of this crate, variant by
/// variant; a map's entries come in the order in which the map holds them,
/// and a floating-point number comes as its bits. The tree's reserved
/// variant, which the codec never builds, is taken as null.
#[verifier::external_body]
fn lift(tree: Foreign) -> Cbor {
    match tree {
        Foreign::Null => Cbor::Null,
        Foreign::Bool(b) => Cbor::Bool(b),
        Foreign::Integer(i) => Cbor::Integer(i),
        Foreign::Float(x) => Cbor::Float(x.to_bits()),
        Foreign::Bytes(b) => Cbor::Bytes(b),
        Foreign::Text(s) => Cbor::Text(s),
        Foreign::Array(a) => Cbor::Array(a.into_iter().map(lift).collect()),
        Foreign::Map(m) => Cbor::Table(m.into_iter().map(|(k, v)| (lift(k), lift(v))).collect()),
        Foreign::Tag(t, inner) => Cbor::Tag(t, Box::new(lift(*inner))),
        _ => Cbor::Null,
    }
}

/// Turns an item of this crate into a tree of `serde_cbor`, variant by
/// variant; of two entries with the same key the map keeps the later. An
/// item that holds a floating-point number has no tree here: `to_vec`, the
/// only caller, leaves it out by its `requires`.
#[verifier::external_body]
fn lower(item: &Cbor) -> Foreign {
    match item {
        Cbor::Null => Foreign::Null,
        Cbor::Bool(b) => Foreign::Bool(*b),
        Cbor::Integer(i) => Foreign::Integer(*i),
        Cbor::Float(_) => Foreign::Null,
        Cbor::Bytes(b) => Foreign::Bytes(b.clone()),
        Cbor::Text(s) => Foreign::Text(s.clone()),
        Cbor::Array(a) => Foreign::Array(a.iter().map(lower).collect()),
        Cbor::Table(m) => Foreign::Map(m.iter().map(|(k, v)| (lower(k), lower(v))).collect()),
        Cbor::Tag(t, inner) => Foreign::Tag(*t, Box::new(lower(inner))),
    }
}

/// `serde_cbor::from_slice`, reading one item: the result is `Ok` exactly
/// where the codec accepts the bytes, and then holds the item it read.
#[verifier::external_body]
fn from_slice(bytes: &[u8]) -> (res: Result<Cbor, serde_cbor::Error>)
    ensures
        res is Ok <==> cbor_decoding(bytes@) is Some,
        res matches Ok(value) ==> cbor_decoding(bytes@) == Some(value@),
{
    serde_cbor::from_slice::<Foreign>(bytes).map(lift)
}

/// `serde_cbor::to_vec`, writing one item: the result is `Ok` exactly where
/// the codec writes the item, and then holds the bytes it wrote. The codec
/// orders map keys by their binary form and stops the program on a key that
/// has none, so the item's integers must be in range; floating-point numbers
/// are not built in this crate, so the item must hold none.
#[verifier::external_body]
fn to_vec(item: &Cbor) -> (res: Result<Vec<u8>, serde_cbor::Error>)
    requires
        encodable(item@),
    ensures
        res is Ok <==> cbor_encoding(item@) is Some,
        res matches Ok(bytes) ==> cbor_encoding(item@) == Some(bytes@),
{
    serde_cbor::to_vec(&lower(item))
}

impl Cbor {
    /// Whether this crate can write the item.
    pub fn fits(&self) -> (res: bool)
        ensures
            res == encodable(self@),
        decreases self,
    {
        match self {
            Cbor::Integer(i) => -0x1_0000_0000_0000_0000 <= *i && *i <= 0xffff_ffff_ffff_ffff,
            Cbor::Float(_) => false,
            Cbor::Array(items) => {
                let mut i: usize = 0;
                while i < items.len()
                    invariant
                        decreases_to!(*self => *items),
                        self@ is Array,
                        self@->Array_0.len() == items@.len(),
                        forall|j: int|
                            0 <= j < items@.len() ==> (#[trigger] self@->Array_0[j])
                                == items@[j]@,
                        i <= items.len(),
                        forall|j: int| 0 <= j < i ==> encodable(#[trigger] items@[j]@),
                    decreases items.len() - i,
                {
                    assert(decreases_to!(*items => items[i as int]));
                    if !items[i].fits() {
                        assert(self@->Array_0[i as int] == items@[i as int]@);
                        return false;
                    }
                    i += 1;
                }
                assert forall|j: int| 0 <= j < self@->Array_0.len() implies encodable(
                    #[trigger] self@->Array_0[j],
                ) by {
                    assert(encodable(items@[j]@));
                }
                true
            },
            Cbor::Table(entries) => {
                let mut i: usize = 0;
                while i < entries.len()
                    invariant
                        decreases_to!(*self => *entries),
                        self@ is Table,
                        self@->Table_0.len() == entries@.len(),
                        forall|j: int|
                            0 <= j < entries@.len() ==> (#[trigger] self@->Table_0[j]) == (
                                entries@[j].0@,
                                entries@[j].1@,
                            ),
                        i <= entries.len(),
                        forall|j: int|
                            0 <= j < i ==> encodable((#[trigger] entries@[j]).0@) && encodable(
                                entries@[j].1@,
                            ),
                    decreases entries.len() - i,
                {
                    assert(decreases_to!(*entries => entries[i as int]));
                    if !entries[i].0.fits() || !entries[i].1.fits() {
                        assert(self@->Table_0[i as int] == (
                            entries@[i as int].0@,
                            entries@[i as int].1@,
                        ));
                        return false;
                    }
                    i += 1;
                }
                assert forall|j: int| 0 <= j < self@->Table_0.len() implies encodable(
                    (#[trigger] self@->Table_0[j]).0,
                ) && encodable(self@->Table_0[j].1) by {
                    assert(encodable(entries@[j].0@));
                }
                true
            },
            Cbor::Tag(_, inner) => inner.fits(),
            _ => true,
        }
    }

    /// The value that this map holds under the text `key`.
    pub fn field(&self, key: &str) -> (res: Option<&Cbor>)
        ensures
            match entry_of(self@, key@) {
                Some(item) => res matches Some(value) && value@ == item,
                None => res is None,
            },
    {
        match self {
            Cbor::Table(entries) => {
                let wanted = key.to_owned();
                let mut i: usize = 0;
                while i < entries.len()
                    invariant
                        wanted@ == key@,
                        self@ is Table,
                        self@->Table_0.len() == entries@.len(),
                        forall|j: int|
                            0 <= j < entries@.len() ==> (#[trigger] self@->Table_0[j]) == (
                                entries@[j].0@,
                                entries@[j].1@,
                            ),
                        i <= entries.len(),
                        entry_index(self@->Table_0, key@, 0) == entry_index(
                            self@->Table_0,
                            key@,
                            i as int,
                        ),
                    decreases entries.len() - i,
                {
                    let found = match &entries[i].0 {
                        Cbor::Text(text) => *text == wanted,
                        _ => false,
                    };
                    assert(found == (self@->Table_0[i as int].0 == Item::Text(key@)));
                    if found {
                        return Some(&entries[i].1);
                    }
                    i += 1;
                }
                None
            },
            _ => None,
        }
    }

    /// Reads one item from its binary form.
    pub fn decode(bytes: &[u8]) -> (res: Result<Cbor, Failure>)
        ensures
            match cbor_decoding(bytes@) {
                Some(item) => res matches Ok(value) && value@ == item,
                None => res matches Err(Failure::Codec(_)),
            },
    {
        match from_slice(bytes) {
            Ok(value) => Ok(value),
            Err(error) => Err(Failure::Codec(error)),
        }
    }

    /// Writes the item in its binary form.
    pub fn encode(&self) -> (res: Result<Vec<u8>, Failure>)
        ensures
            !encodable(self@) ==> res matches Err(Failure::Unencodable),
            encodable(self@) ==> match cbor_encoding(self@) {
                Some(bytes) => res matches Ok(written) && written@ == bytes,
                None => res matches Err(Failure::Codec(_)),
            },
    {
        if !self.fits() {
            return Err(Failure::Unencodable);
        }
        match to_vec(self) {
            Ok(bytes) => Ok(bytes),
            Err(error) => Err(Failure::Codec(error)),
        }
    }
}

impl Clone for Cbor {
    fn clone(&self) -> (res: Self)
        ensures
            res@ == self@,
    {
        self.duplicate()
    }
}

impl View for Cbor {
    type V = Item;

    open spec fn view(&self) -> Item {
        self.item()
    }
}

} // verus!
