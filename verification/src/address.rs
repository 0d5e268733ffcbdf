//! Account addresses.

use vstd::prelude::*;

verus! {

/// The 32-byte identifier of an account or program.
#[derive(Clone, Copy, Debug)]
pub struct Address {
    pub bytes: [u8; 32],
}

impl View for Address {
    type V = Seq<u8>;

    open spec fn view(&self) -> Seq<u8> {
        self.bytes@
    }
}

impl PartialEq for Address {
    fn eq(&self, other: &Self) -> (same: bool) {
        let mut i: usize = 0;
        while i < 32
            invariant
                i <= 32,
                forall|j: int| 0 <= j < i ==> self.bytes[j] == other.bytes[j],
            decreases 32 - i,
        {
            if self.bytes[i] != other.bytes[i] {
                return false;
            }
            i += 1;
        }
        assert(self.bytes =~= other.bytes);
        true
    }
}

impl vstd::std_specs::cmp::PartialEqSpecImpl for Address {
    open spec fn obeys_eq_spec() -> bool {
        true
    }

    open spec fn eq_spec(&self, other: &Self) -> bool {
        self.bytes == other.bytes
    }
}

impl Eq for Address {}

impl Default for Address {
    fn default() -> (address: Address)
        ensures
            address@ == Address::spec_zeroes(),
    {
        let address = Address { bytes: [0u8; 32] };
        assert(address@ =~= Address::spec_zeroes());
        address
    }
}

impl Address {
    /// Thirty-two zero bytes, the bytes of the default address.
    pub open spec fn spec_zeroes() -> Seq<u8> {
        Seq::new(32, |i: int| 0u8)
    }

    /// The address whose bytes are the first 32 of `s`.
    #[verifier::opaque]
    pub open spec fn from_seq(s: Seq<u8>) -> Address {
        Address {
            bytes: [
                s[0], s[1], s[2], s[3], s[4], s[5], s[6], s[7],
                s[8], s[9], s[10], s[11], s[12], s[13], s[14], s[15],
                s[16], s[17], s[18], s[19], s[20], s[21], s[22], s[23],
                s[24], s[25], s[26], s[27], s[28], s[29], s[30], s[31],
            ],
        }
    }

    /// The address with the bytes `bytes`.
    pub fn new_from_array(bytes: [u8; 32]) -> (address: Address)
        ensures
            address.bytes == bytes,
    {
        Address { bytes }
    }

    /// The bytes of the address.
    pub fn to_bytes(&self) -> (bytes: [u8; 32])
        ensures
            bytes == self.bytes,
    {
        self.bytes
    }

    /// An address is what its 32 bytes are: reading the bytes back gives
    /// the address again.
    pub proof fn lemma_from_view(self)
        ensures
            self@.len() == 32,
            Address::from_seq(self@) == self,
    {
        reveal(Address::from_seq);
        assert(Address::from_seq(self@).bytes =~= self.bytes);
    }

    /// Any 32 bytes are the bytes of exactly one address.
    pub proof fn lemma_view_from_seq(s: Seq<u8>)
        requires
            s.len() == 32,
        ensures
            Address::from_seq(s)@ == s,
    {
        reveal(Address::from_seq);
    }

    /// Two addresses with the same bytes are the same address.
    pub proof fn lemma_view_injective(a: Address, b: Address)
        requires
            a@ == b@,
        ensures
            a == b,
    {
        assert(a.bytes =~= b.bytes);
    }
}

} // verus!
