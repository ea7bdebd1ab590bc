//! Block header type.

use vstd::prelude::*;
use crate::bytes::{le_value, padded, B256, H256, U256};
use crate::cbor::{cbor_encoding, encodable, entry, entry_index, entry_of, Cbor, Item};
use crate::error::{Failure, Malformed};
use crate::hash::{digest_bytes, sha512_256};

verus! {

/// Block header.
#[derive(Clone, Copy, Debug, PartialEq, Eq)]
pub struct Header {
    /// Protocol version number.
    pub version: u16,
    /// Chain namespace.
    pub namespace: B256,
    /// Round.
    pub round: U256,
    /// Hash of the previous block.
    pub previous_hash: H256,
    /// Computation group hash.
    pub group_hash: H256,
    /// Transaction hash.
    pub transaction_hash: H256,
    /// State root hash.
    pub state_root: H256,
    /// Commitments hash.
    pub commitments_hash: H256,
}

/// A header as the consensus interface carries it: a wide version number and
/// byte strings of whatever length arrived.
#[derive(Debug, PartialEq, Eq)]
pub struct WireHeader {
    pub version: u32,
    pub namespace: Vec<u8>,
    pub round: Vec<u8>,
    pub previous_hash: Vec<u8>,
    pub group_hash: Vec<u8>,
    pub transaction_hash: Vec<u8>,
    pub state_root: Vec<u8>,
    pub commitments_hash: Vec<u8>,
}

/// Whether `h` is what the wire form `a` holds: the low 16 bits of the
/// version, each byte string cut or zero-filled to 32 bytes, and the round
/// read least significant byte first.
pub open spec fn from_wire(a: WireHeader, h: Header) -> bool {
    &&& h.version == a.version % 0x1_0000
    &&& h.namespace@ == padded(a.namespace@)
    &&& h.round.bytes@ == padded(a.round@)
    &&& h.round@ == le_value(a.round@)
    &&& h.previous_hash@ == padded(a.previous_hash@)
    &&& h.group_hash@ == padded(a.group_hash@)
    &&& h.transaction_hash@ == padded(a.transaction_hash@)
    &&& h.state_root@ == padded(a.state_root@)
    &&& h.commitments_hash@ == padded(a.commitments_hash@)
}

/// Whether `a` is the wire form of `h`: every field in full.
pub open spec fn to_wire(h: Header, a: WireHeader) -> bool {
    &&& a.version == h.version
    &&& a.namespace@ == h.namespace@
    &&& a.round@ == h.round.bytes@
    &&& a.previous_hash@ == h.previous_hash@
    &&& a.group_hash@ == h.group_hash@
    &&& a.transaction_hash@ == h.transaction_hash@
    &&& a.state_root@ == h.state_root@
    &&& a.commitments_hash@ == h.commitments_hash@
}

/// The item that stands for a header: a map from the names of the fields to
/// their values, the keys in the order in which the codec keeps them.
pub open spec fn header_item(h: Header) -> Item {
    Item::Table(
        seq![
            (Item::Text("round"@), Item::Bytes(h.round.bytes@)),
            (Item::Text("version"@), Item::Integer(h.version as int)),
            (Item::Text("namespace"@), Item::Bytes(h.namespace@)),
            (Item::Text("group_hash"@), Item::Bytes(h.group_hash@)),
            (Item::Text("state_root"@), Item::Bytes(h.state_root@)),
            (Item::Text("previous_hash"@), Item::Bytes(h.previous_hash@)),
            (Item::Text("commitments_hash"@), Item::Bytes(h.commitments_hash@)),
            (Item::Text("transaction_hash"@), Item::Bytes(h.transaction_hash@)),
        ],
    )
}

/// Whether the item reads as the header `h`: it is a map that holds each
/// field of `h` under the field's name. Entries under other keys are passed
/// over.
pub open spec fn reads_as(item: Item, h: Header) -> bool {
    &&& entry_of(item, "version"@) == Some(Item::Integer(h.version as int))
    &&& entry_of(item, "namespace"@) == Some(Item::Bytes(h.namespace@))
    &&& entry_of(item, "round"@) == Some(Item::Bytes(h.round.bytes@))
    &&& entry_of(item, "previous_hash"@) == Some(Item::Bytes(h.previous_hash@))
    &&& entry_of(item, "group_hash"@) == Some(Item::Bytes(h.group_hash@))
    &&& entry_of(item, "transaction_hash"@) == Some(Item::Bytes(h.transaction_hash@))
    &&& entry_of(item, "state_root"@) == Some(Item::Bytes(h.state_root@))
    &&& entry_of(item, "commitments_hash"@) == Some(Item::Bytes(h.commitments_hash@))
}

/// The content hash of a header: the digest of its binary form, where the
/// codec writes one.
pub open spec fn header_hash(h: Header) -> Option<Seq<u8>> {
    match cbor_encoding(header_item(h)) {
        Some(bytes) => Some(sha512_256(bytes)),
        None => None,
    }
}

/// The item of a header holds nothing that the codec cannot write.
pub proof fn lemma_header_item_encodable(h: Header)
    ensures
        encodable(header_item(h)),
{
    reveal_with_fuel(encodable, 2);
    let entries = header_item(h)->Table_0;
    assert forall|i: int| 0 <= i < entries.len() implies encodable((#[trigger] entries[i]).0)
        && encodable(entries[i].1) by {
    }
}

/// The item of a header reads as that header.
pub proof fn lemma_header_item_reads_back(h: Header)
    ensures
        reads_as(header_item(h), h),
{
    reveal_with_fuel(entry_index, 9);
    reveal_strlit("round");
    reveal_strlit("version");
    reveal_strlit("namespace");
    reveal_strlit("group_hash");
    reveal_strlit("state_root");
    reveal_strlit("previous_hash");
    reveal_strlit("commitments_hash");
    reveal_strlit("transaction_hash");
    assert("group_hash"@[0] != "state_root"@[0]);
    assert("commitments_hash"@[0] != "transaction_hash"@[0]);
    assert("round"@.len() == 5);
    assert("version"@.len() == 7);
    assert("namespace"@.len() == 9);
    assert("group_hash"@.len() == 10);
    assert("state_root"@.len() == 10);
    assert("previous_hash"@.len() == 13);
    assert("commitments_hash"@.len() == 16);
    assert("transaction_hash"@.len() == 16);
    let entries = header_item(h)->Table_0;
    assert(entry_index(entries, "round"@, 0) == Some(0int));
    assert(entry_index(entries, "version"@, 0) == Some(1int));
    assert(entry_index(entries, "namespace"@, 0) == Some(2int));
    assert(entry_index(entries, "group_hash"@, 0) == Some(3int));
    assert(entry_index(entries, "state_root"@, 0) == Some(4int));
    assert(entry_index(entries, "previous_hash"@, 0) == Some(5int));
    assert(entry_index(entries, "commitments_hash"@, 0) == Some(6int));
    assert(entry_index(entries, "transaction_hash"@, 0) == Some(7int));
}

/// An item reads as one header at most.
pub proof fn lemma_reads_as_one_header(item: Item, h1: Header, h2: Header)
    requires
        reads_as(item, h1),
        reads_as(item, h2),
    ensures
        h1 == h2,
{
    assert(h1.namespace.bytes =~= h2.namespace.bytes);
    assert(h1.round.bytes =~= h2.round.bytes);
    assert(h1.previous_hash.bytes =~= h2.previous_hash.bytes);
    assert(h1.group_hash.bytes =~= h2.group_hash.bytes);
    assert(h1.transaction_hash.bytes =~= h2.transaction_hash.bytes);
    assert(h1.state_root.bytes =~= h2.state_root.bytes);
    assert(h1.commitments_hash.bytes =~= h2.commitments_hash.bytes);
}

/// A header comes back unchanged from its wire form.
pub proof fn lemma_wire_round_trip(h: Header, a: WireHeader, back: Header)
    requires
        to_wire(h, a),
        from_wire(a, back),
    ensures
        back == h,
{
    assert(back.namespace.bytes =~= h.namespace.bytes);
    assert(back.round.bytes =~= h.round.bytes);
    assert(back.previous_hash.bytes =~= h.previous_hash.bytes);
    assert(back.group_hash.bytes =~= h.group_hash.bytes);
    assert(back.transaction_hash.bytes =~= h.transaction_hash.bytes);
    assert(back.state_root.bytes =~= h.state_root.bytes);
    assert(back.commitments_hash.bytes =~= h.commitments_hash.bytes);
}

/// The 32 bytes that a map holds under `key`, if it holds exactly that.
fn digest_field(value: &Cbor, key: &str) -> (res: Option<H256>)
    ensures
        match entry_of(value@, key@) {
            Some(Item::Bytes(bytes)) if bytes.len() == 32 => res matches Some(found) && found@
                == bytes,
            _ => res is None,
        },
{
    match value.field(key) {
        Some(Cbor::Bytes(bytes)) => {
            if bytes.len() == 32 {
                let found = H256::from_slice(bytes.as_slice());
                assert(found@ =~= bytes@);
                Some(found)
            } else {
                None
            }
        },
        _ => None,
    }
}

impl Header {
    /// Check if this header is the parent of a child header: whether the
    /// child's previous hash is the content hash of this header.
    pub fn is_parent_of(&self, child: &Header) -> (res: bool)
        ensures
            res == (header_hash(*self) == Some(child.previous_hash@)),
    {
        match self.encoded_hash() {
            Ok(hash) => hash.equals(&child.previous_hash),
            Err(_) => false,
        }
    }

    /// The content hash of this header.
    pub fn encoded_hash(&self) -> (res: Result<H256, Failure>)
        ensures
            match header_hash(*self) {
                Some(hash) => res matches Ok(found) && found@ == hash,
                None => res matches Err(Failure::Codec(_)),
            },
    {
        let item = self.to_cbor();
        proof {
            lemma_header_item_encodable(*self);
        }
        match item.encode() {
            Ok(bytes) => Ok(digest_bytes(bytes.as_slice())),
            Err(failure) => Err(failure),
        }
    }

    /// The item that stands for this header.
    pub fn to_cbor(&self) -> (res: Cbor)
        ensures
            res@ == header_item(*self),
    {
        let mut entries: Vec<(Cbor, Cbor)> = Vec::new();
        entries.push(entry("round", Cbor::Bytes(self.round.to_vec())));
        entries.push(entry("version", Cbor::Integer(self.version as i128)));
        entries.push(entry("namespace", Cbor::Bytes(self.namespace.to_vec())));
        entries.push(entry("group_hash", Cbor::Bytes(self.group_hash.to_vec())));
        entries.push(entry("state_root", Cbor::Bytes(self.state_root.to_vec())));
        entries.push(entry("previous_hash", Cbor::Bytes(self.previous_hash.to_vec())));
        entries.push(entry("commitments_hash", Cbor::Bytes(self.commitments_hash.to_vec())));
        entries.push(entry("transaction_hash", Cbor::Bytes(self.transaction_hash.to_vec())));
        let res = Cbor::Table(entries);
        assert(res@->Table_0 =~= header_item(*self)->Table_0);
        res
    }

    /// Reads a header from the item that stands for it.
    pub fn from_cbor(value: &Cbor) -> (res: Result<Header, Failure>)
        ensures
            res matches Ok(h) ==> reads_as(value@, h),
            res is Err ==> res matches Err(Failure::Malformed(Malformed::Header)),
            res is Err ==> forall|h: Header| !reads_as(value@, h),
    {
        let version = match value.field("version") {
            Some(Cbor::Integer(number)) => {
                if 0 <= *number && *number <= 0xffff {
                    *number as u16
                } else {
                    return Err(Failure::Malformed(Malformed::Header));
                }
            },
            _ => {
                return Err(Failure::Malformed(Malformed::Header));
            },
        };
        let namespace = match digest_field(value, "namespace") {
            Some(found) => found,
            None => {
                return Err(Failure::Malformed(Malformed::Header));
            },
        };
        let round = match digest_field(value, "round") {
            Some(found) => U256 { bytes: found.bytes },
            None => {
                return Err(Failure::Malformed(Malformed::Header));
            },
        };
        let previous_hash = match digest_field(value, "previous_hash") {
            Some(found) => found,
            None => {
                return Err(Failure::Malformed(Malformed::Header));
            },
        };
        let group_hash = match digest_field(value, "group_hash") {
            Some(found) => found,
            None => {
                return Err(Failure::Malformed(Malformed::Header));
            },
        };
        let transaction_hash = match digest_field(value, "transaction_hash") {
            Some(found) => found,
            None => {
                return Err(Failure::Malformed(Malformed::Header));
            },
        };
        let state_root = match digest_field(value, "state_root") {
            Some(found) => found,
            None => {
                return Err(Failure::Malformed(Malformed::Header));
            },
        };
        let commitments_hash = match digest_field(value, "commitments_hash") {
            Some(found) => found,
            None => {
                return Err(Failure::Malformed(Malformed::Header));
            },
        };
        Ok(
            Header {
                version,
                namespace,
                round,
                previous_hash,
                group_hash,
                transaction_hash,
                state_root,
                commitments_hash,
            },
        )
    }

    /// Reads a header from its wire form. A round of more than 32 bytes is
    /// no 256-bit number and is refused; every other field is taken as
    /// `from_wire` says.
    pub fn try_from(a: WireHeader) -> (res: Result<Header, Failure>)
        ensures
            a.round@.len() <= 32 ==> (res matches Ok(h) && from_wire(a, h)),
            a.round@.len() > 32 ==> res matches Err(Failure::Malformed(Malformed::Header)),
    {
        let round = match U256::from_little_endian(a.round.as_slice()) {
            Some(round) => round,
            None => {
                return Err(Failure::Malformed(Malformed::Header));
            },
        };
        Ok(
            Header {
                version: (a.version % 0x1_0000) as u16,
                namespace: H256::from_slice(a.namespace.as_slice()),
                round,
                previous_hash: H256::from_slice(a.previous_hash.as_slice()),
                group_hash: H256::from_slice(a.group_hash.as_slice()),
                transaction_hash: H256::from_slice(a.transaction_hash.as_slice()),
                state_root: H256::from_slice(a.state_root.as_slice()),
                commitments_hash: H256::from_slice(a.commitments_hash.as_slice()),
            },
        )
    }

    /// The wire form of this header.
    pub fn into(self) -> (res: WireHeader)
        ensures
            to_wire(self, res),
    {
        WireHeader {
            version: self.version as u32,
            namespace: self.namespace.to_vec(),
            round: self.round.to_vec(),
            previous_hash: self.previous_hash.to_vec(),
            group_hash: self.group_hash.to_vec(),
            transaction_hash: self.transaction_hash.to_vec(),
            state_root: self.state_root.to_vec(),
            commitments_hash: self.commitments_hash.to_vec(),
        }
    }
}

impl Default for Header {
    /// The header whose every field is zero.
    fn default() -> (res: Header)
        ensures
            res.version == 0,
            res.namespace@ == padded(Seq::<u8>::empty()),
            res.round.bytes@ == padded(Seq::<u8>::empty()),
            res.previous_hash@ == padded(Seq::<u8>::empty()),
            res.group_hash@ == padded(Seq::<u8>::empty()),
            res.transaction_hash@ == padded(Seq::<u8>::empty()),
            res.state_root@ == padded(Seq::<u8>::empty()),
            res.commitments_hash@ == padded(Seq::<u8>::empty()),
    {
        let zero = H256::zero();
        Header {
            version: 0,
            namespace: zero,
            round: U256 { bytes: zero.bytes },
            previous_hash: zero,
            group_hash: zero,
            transaction_hash: zero,
            state_root: zero,
            commitments_hash: zero,
        }
    }
}

} // verus!
