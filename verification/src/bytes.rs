//! Fixed-width byte values: 256-bit identifiers and digests.

use vstd::prelude::*;

verus! {

/// The first 32 bytes of `s`, zero-filled on the right where `s` is shorter.
pub open spec fn padded(s: Seq<u8>) -> Seq<u8> {
    Seq::new(32, |i: int| if i < s.len() { s[i] } else { 0u8 })
}

/// A 256-bit digest.
#[derive(Clone, Copy, Debug, PartialEq, Eq, Hash)]
pub struct H256 {
    pub bytes: [u8; 32],
}

/// A 256-bit identifier, such as a chain namespace.
pub type B256 = H256;

impl View for H256 {
    type V = Seq<u8>;

    open spec fn view(&self) -> Seq<u8> {
        self.bytes@
    }
}

impl H256 {
    /// The value whose bytes are all zero.
    pub fn zero() -> (res: Self)
        ensures
            res@ == padded(Seq::<u8>::empty()),
    {
        let res = H256 { bytes: [0u8; 32] };
        assert(res@ =~= padded(Seq::<u8>::empty()));
        res
    }

    /// Takes the leading bytes of `src`; missing bytes are zero and bytes past
    /// the 32nd are ignored.
    pub fn from_slice(src: &[u8]) -> (res: Self)
        ensures
            res@ == padded(src@),
    {
        let mut bytes = [0u8; 32];
        let mut i: usize = 0;
        while i < 32
            invariant
                i <= 32,
                forall|j: int| 0 <= j < i ==> bytes@[j] == padded(src@)[j],
                forall|j: int| i <= j < 32 ==> bytes@[j] == 0u8,
            decreases 32 - i,
        {
            if i < src.len() {
                bytes[i] = src[i];
            }
            i += 1;
        }
        let res = H256 { bytes };
        assert(res@ =~= padded(src@));
        res
    }

    /// The 32 bytes, in order.
    pub fn to_vec(&self) -> (res: Vec<u8>)
        ensures
            res@ == self@,
    {
        let mut res: Vec<u8> = Vec::new();
        let mut i: usize = 0;
        while i < 32
            invariant
                i <= 32,
                res@ == self@.subrange(0, i as int),
            decreases 32 - i,
        {
            res.push(self.bytes[i]);
            assert(res@ =~= self@.subrange(0, i + 1));
            i += 1;
        }
        assert(res@ =~= self@);
        res
    }

    /// Whether both values hold the same bytes.
    pub fn equals(&self, other: &Self) -> (res: bool)
        ensures
            res == (self@ == other@),
    {
        let mut i: usize = 0;
        while i < 32
            invariant
                i <= 32,
                forall|j: int| 0 <= j < i ==> self@[j] == other@[j],
            decreases 32 - i,
        {
            if self.bytes[i] != other.bytes[i] {
                return false;
            }
            i += 1;
        }
        assert(self@ =~= other@);
        true
    }
}

/// The number that the bytes spell, least significant byte first.
pub open spec fn le_value(s: Seq<u8>) -> nat
    decreases s.len(),
{
    if s.len() == 0 {
        0
    } else {
        s[0] as nat + 256 * le_value(s.drop_first())
    }
}

/// A 256-bit unsigned number, held least significant byte first.
#[derive(Clone, Copy, Debug, PartialEq, Eq, Hash)]
pub struct U256 {
    pub bytes: [u8; 32],
}

impl View for U256 {
    type V = nat;

    open spec fn view(&self) -> nat {
        le_value(self.bytes@)
    }
}

impl U256 {
    /// Reads a number from its bytes, least significant byte first. More
    /// than 32 bytes are no 256-bit number.
    pub fn from_little_endian(slice: &[u8]) -> (res: Option<Self>)
        ensures
            slice@.len() <= 32 ==> (res matches Some(number) && number@ == le_value(slice@)
                && number.bytes@ == padded(slice@)),
            slice@.len() > 32 ==> res is None,
    {
        if slice.len() > 32 {
            return None;
        }
        let digits = H256::from_slice(slice);
        proof {
            lemma_le_value_padded(slice@);
        }
        Some(U256 { bytes: digits.bytes })
    }

    /// The 32 bytes of the number, least significant byte first.
    pub fn to_vec(&self) -> (res: Vec<u8>)
        ensures
            res@ == self.bytes@,
            le_value(res@) == self@,
    {
        H256 { bytes: self.bytes }.to_vec()
    }

    /// Whether both numbers are the same.
    pub fn equals(&self, other: &Self) -> (res: bool)
        ensures
            res == (self.bytes@ == other.bytes@),
            res ==> self@ == other@,
    {
        H256 { bytes: self.bytes }.equals(&H256 { bytes: other.bytes })
    }
}

/// Zeros after the last byte do not change the number.
pub proof fn lemma_le_value_padded(s: Seq<u8>)
    requires
        s.len() <= 32,
    ensures
        le_value(padded(s)) == le_value(s),
{
    lemma_le_value_zeros(s, (32 - s.len()) as nat);
    assert(padded(s) =~= s + Seq::new((32 - s.len()) as nat, |i: int| 0u8));
}

/// Appending zero bytes does not change the number.
pub proof fn lemma_le_value_zeros(s: Seq<u8>, n: nat)
    ensures
        le_value(s + Seq::new(n, |i: int| 0u8)) == le_value(s),
    decreases s.len(), n,
{
    let zeros = Seq::new(n, |i: int| 0u8);
    if s.len() == 0 {
        assert(s + zeros =~= zeros);
        if n > 0 {
            let rest = Seq::new((n - 1) as nat, |i: int| 0u8);
            assert(zeros.drop_first() =~= rest);
            assert(Seq::<u8>::empty() + rest =~= rest);
            lemma_le_value_zeros(Seq::<u8>::empty(), (n - 1) as nat);
        }
    } else {
        assert((s + zeros).drop_first() =~= s.drop_first() + zeros);
        lemma_le_value_zeros(s.drop_first(), n);
    }
}

} // verus!
