use vstd::prelude::*;

use crate::datastructures::{wire::{put_bytes, splice}, WireFormatError};

verus! {

/// The identity of a PTP node.
///
/// Must have a unique value for each node in a ptp network. For notes on
/// generating these, see IEEE1588-2019 section 7.5.2.2
#[derive(Debug, Clone, Copy, PartialEq, Eq, PartialOrd, Ord, Hash)]
pub struct ClockIdentity(pub [u8; 8]);

/// The lexicographic order of two byte sequences: `-1` when `a` comes
/// first, `1` when `b` comes first and `0` when neither does.
pub open spec fn lex_order(a: Seq<u8>, b: Seq<u8>) -> int
    decreases a.len(),
{
    if a.len() == 0 || b.len() == 0 {
        0
    } else if a[0] < b[0] {
        -1
    } else if a[0] > b[0] {
        1
    } else {
        lex_order(a.drop_first(), b.drop_first())
    }
}

/// Swapping the arguments reverses the order.
pub proof fn lemma_lex_order_antisymmetric(a: Seq<u8>, b: Seq<u8>)
    ensures
        lex_order(b, a) == -lex_order(a, b),
    decreases a.len(),
{
    if a.len() > 0 && b.len() > 0 && a[0] == b[0] {
        lemma_lex_order_antisymmetric(a.drop_first(), b.drop_first());
    }
}

/// Sequences of the same length are in neither order exactly when they are
/// equal.
pub proof fn lemma_lex_order_equal(a: Seq<u8>, b: Seq<u8>)
    requires
        a.len() == b.len(),
    ensures
        (lex_order(a, b) == 0) == (a == b),
    decreases a.len(),
{
    if a.len() > 0 {
        lemma_lex_order_equal(a.drop_first(), b.drop_first());
        if a[0] == b[0] && a.drop_first() == b.drop_first() {
            assert(a =~= b) by {
                assert forall|i: int| 0 <= i < a.len() implies a[i] == b[i] by {
                    if i > 0 {
                        assert(a[i] == a.drop_first()[i - 1]);
                        assert(b[i] == b.drop_first()[i - 1]);
                    }
                }
            }
        }
        if a == b {
            assert(a.drop_first() =~= b.drop_first());
        }
    } else {
        assert(a =~= b);
    }
}

impl ClockIdentity {
    /// Compares two identities byte by byte, as the derived order of the
    /// byte array does: `-1` when `self` comes first, `1` when `other`
    /// comes first and `0` when they are equal.
    pub fn byte_order(&self, other: &Self) -> (r: i8)
        ensures
            r == lex_order(self.bytes(), other.bytes()),
    {
        let mut i: usize = 0;
        assert(self.bytes().skip(0) =~= self.bytes());
        assert(other.bytes().skip(0) =~= other.bytes());
        while i < 8
            invariant
                i <= 8,
                self.bytes().len() == 8,
                other.bytes().len() == 8,
                lex_order(self.bytes(), other.bytes()) == lex_order(
                    self.bytes().skip(i as int),
                    other.bytes().skip(i as int),
                ),
            decreases 8 - i,
        {
            let a = self.0[i];
            let b = other.0[i];
            assert(self.bytes().skip(i as int)[0] == a);
            assert(other.bytes().skip(i as int)[0] == b);
            if a < b {
                return -1;
            } else if a > b {
                return 1;
            }
            assert(self.bytes().skip(i as int).drop_first() =~= self.bytes().skip(i + 1));
            assert(other.bytes().skip(i as int).drop_first() =~= other.bytes().skip(i + 1));
            i = i + 1;
        }
        0
    }

    /// The eight bytes of the identity.
    pub open spec fn bytes(self) -> Seq<u8> {
        self.0@
    }

    /// Create a `ClockIdentity` from a mac address
    ///
    /// This fills the first six bytes with the mac address and the rest with
    /// zeroes.
    pub fn from_mac_address(addr: [u8; 6]) -> (r: Self)
        ensures
            r.bytes() == addr@ + seq![0u8, 0u8],
    {
        let r = Self([addr[0], addr[1], addr[2], addr[3], addr[4], addr[5], 0, 0]);
        assert(r.bytes() =~= addr@ + seq![0u8, 0u8]);
        r
    }

    /// Whether two identities are the same.
    pub fn same_as(&self, other: &Self) -> (r: bool)
        ensures
            r == (*self == *other),
    {
        let c = self.byte_order(other);
        proof {
            lemma_lex_order_equal(self.bytes(), other.bytes());
            if self.bytes() == other.bytes() {
                assert(self.0 =~= other.0);
            }
        }
        c == 0
    }

    /// The byte size on the wire of this object
    pub fn wire_size(&self) -> (r: usize)
        ensures
            r == 8,
    {
        8
    }

    /// The bytes of this identity on the wire.
    pub open spec fn to_wire(self) -> Seq<u8> {
        self.bytes()
    }

    /// The identity stored at `at` in `b`.
    pub open spec fn from_wire(b: Seq<u8>, at: int) -> Self {
        ClockIdentity([b[at], b[at + 1], b[at + 2], b[at + 3], b[at + 4], b[at + 5], b[at + 6], b[at + 7]])
    }

    /// Writes the identity at `at`.
    pub fn write_at(&self, buffer: &mut [u8], at: usize)
        requires
            at + 8 <= old(buffer).len(),
        ensures
            final(buffer)@ == splice(old(buffer)@, at as int, self.to_wire()),
    {
        put_bytes(buffer, at, &self.0);
    }

    /// Reads the identity stored at `at`.
    pub fn read_at(buffer: &[u8], at: usize) -> (r: Self)
        requires
            at + 8 <= buffer.len(),
        ensures
            r == Self::from_wire(buffer@, at as int),
    {
        ClockIdentity([buffer[at], buffer[at + 1], buffer[at + 2], buffer[at + 3], buffer[at + 4], buffer[at + 5], buffer[at + 6], buffer[at + 7]])
    }

    /// Serializes the identity into the first eight bytes of the buffer.
    pub fn serialize(&self, buffer: &mut [u8]) -> (r: Result<(), WireFormatError>)
        requires
            old(buffer).len() >= 8,
        ensures
            r is Ok,
            final(buffer)@ == splice(old(buffer)@, 0, self.to_wire()),
    {
        self.write_at(buffer, 0);
        Ok(())
    }

    /// Deserializes an identity from the first eight bytes of the buffer.
    pub fn deserialize(buffer: &[u8]) -> (r: Result<Self, WireFormatError>)
        requires
            buffer.len() >= 8,
        ensures
            r == Ok::<Self, WireFormatError>(Self::from_wire(buffer@, 0)),
    {
        Ok(Self::read_at(buffer, 0))
    }

    /// Reading back a written identity gives the identity.
    pub proof fn lemma_roundtrip(self, b: Seq<u8>, at: int)
        requires
            0 <= at,
            at + 8 <= b.len(),
            b.subrange(at, at + 8) == self.to_wire(),
        ensures
            Self::from_wire(b, at) == self,
    {
        let s = b.subrange(at, at + 8);
        assert forall|i: int| 0 <= i < 8 implies b[at + i] == self.0@[i] by {
            assert(b[at + i] == s[i]);
        }
        assert(Self::from_wire(b, at).0 =~= self.0);
    }

    /// Writing a read identity gives back the bytes.
    pub proof fn lemma_bytes(b: Seq<u8>, at: int)
        requires
            0 <= at,
            at + 8 <= b.len(),
        ensures
            Self::from_wire(b, at).to_wire() == b.subrange(at, at + 8),
    {
        assert(Self::from_wire(b, at).to_wire() =~= b.subrange(at, at + 8));
    }
}

impl ClockIdentity {
    /// The identity of eight zero bytes.
    pub open spec fn spec_default() -> ClockIdentity {
        ClockIdentity([0u8, 0u8, 0u8, 0u8, 0u8, 0u8, 0u8, 0u8])
    }
}

impl Default for ClockIdentity {
    fn default() -> (r: Self)
        ensures
            r == ClockIdentity::spec_default(),
            r.bytes() == seq![0u8, 0u8, 0u8, 0u8, 0u8, 0u8, 0u8, 0u8],
    {
        let r = ClockIdentity([0, 0, 0, 0, 0, 0, 0, 0]);
        assert(r.bytes() =~= seq![0u8, 0u8, 0u8, 0u8, 0u8, 0u8, 0u8, 0u8]);
        r
    }
}

} // verus!
