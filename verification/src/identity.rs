use vstd::prelude::*;

verus! {

broadcast use vstd::array::group_array_axioms;

/// A participant's identity: the 32-byte key under which the hosting ledger
/// knows a player, an admin or an oracle. The engine never interprets the
/// bytes; it only compares identities and rejects the all-zero (null) one
/// as an admin.
#[derive(Clone, Copy, Debug, PartialEq, Eq)]
pub struct Identity {
    pub bytes: [u8; 32],
}

impl View for Identity {
    type V = Seq<u8>;

    open spec fn view(&self) -> Seq<u8> {
        self.bytes@
    }
}

impl Identity {
    /// The all-zero identity, which no participant may use.
    pub open spec fn spec_is_null(self) -> bool {
        forall|i: int| 0 <= i < 32 ==> self.bytes@[i] == 0
    }

    pub fn new(bytes: [u8; 32]) -> (r: Identity)
        ensures
            r.bytes@ == bytes@,
    {
        Identity { bytes }
    }

    pub fn is_null(&self) -> (r: bool)
        ensures
            r == self.spec_is_null(),
    {
        let mut i: usize = 0;
        while i < 32
            invariant
                0 <= i <= 32,
                forall|j: int| 0 <= j < i ==> self.bytes@[j] == 0,
            decreases 32 - i,
        {
            if self.bytes[i] != 0 {
                return false;
            }
            i = i + 1;
        }
        true
    }

    /// Byte-for-byte comparison; the ledger treats two identities as the
    /// same participant exactly when their keys coincide.
    pub fn equals(&self, other: &Identity) -> (r: bool)
        ensures
            r == (*self == *other),
    {
        let mut i: usize = 0;
        while i < 32
            invariant
                0 <= i <= 32,
                forall|j: int| 0 <= j < i ==> self.bytes@[j] == other.bytes@[j],
            decreases 32 - i,
        {
            if self.bytes[i] != other.bytes[i] {
                return false;
            }
            i = i + 1;
        }
        proof {
            assert(self.bytes =~= other.bytes);
        }
        true
    }
}

} // verus!
