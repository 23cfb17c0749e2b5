use vstd::prelude::*;
use vstd::std_specs::cmp::PartialEqSpecImpl;

verus! {

/// A 32-byte identifier of an asset, a token mint or a participant.
///
/// The engine never looks inside a key: it only tells two keys apart.
#[derive(Clone, Copy, Debug, Hash)]
pub struct Pubkey(pub [u8; 32]);

impl PartialEq for Pubkey {
    /// Two keys are equal when all 32 bytes agree.
    fn eq(&self, other: &Pubkey) -> (r: bool) {
        let mut i: usize = 0;
        while i < 32
            invariant
                i <= 32,
                forall|j: int| 0 <= j < i ==> self.0[j] == other.0[j],
            decreases 32 - i,
        {
            if self.0[i] != other.0[i] {
                return false;
            }
            i += 1;
        }
        assert(self.0 =~= other.0);
        true
    }
}

impl Eq for Pubkey {

}

impl PartialEqSpecImpl for Pubkey {
    open spec fn obeys_eq_spec() -> bool {
        true
    }

    open spec fn eq_spec(&self, other: &Pubkey) -> bool {
        *self == *other
    }
}

impl Pubkey {
    /// The key whose bytes are all zero.
    pub open spec fn zero() -> Pubkey {
        Pubkey(vstd::array::spec_array_fill_for_copy_type::<u8, 32>(0u8))
    }
}

impl Default for Pubkey {
    /// The all-zero key, which stands for "no key".
    fn default() -> (key: Pubkey)
        ensures
            key == Pubkey::zero(),
            forall|i: int| 0 <= i < 32 ==> key.0[i] == 0,
    {
        Pubkey([0u8; 32])
    }
}

} // verus!
