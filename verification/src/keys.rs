use vstd::prelude::*;

verus! {

/// A 32-byte account key. It identifies ledger accounts and also serves as
/// the explicit authorization token that the custody transfer interface
/// checks against an account's authority.
#[derive(Clone, Copy, Debug, PartialEq, Eq)]
pub struct Pubkey {
    pub bytes: [u8; 32],
}

impl Pubkey {
    /// Byte-for-byte equality of two keys. The derived `PartialEq` is opaque
    /// to the verifier, so the comparison is spelled out with a proved
    /// meaning.
    pub fn key_eq(&self, other: &Pubkey) -> (r: bool)
        ensures
            r <==> *self == *other,
    {
        let mut i: usize = 0;
        while i < 32
            invariant
                i <= 32,
                forall|j: int| 0 <= j < i ==> self.bytes@[j] == other.bytes@[j],
            decreases 32 - i,
        {
            if self.bytes[i] != other.bytes[i] {
                return false;
            }
            i += 1;
        }
        proof {
            assert(self.bytes =~= other.bytes);
        }
        true
    }
}

} // verus!
