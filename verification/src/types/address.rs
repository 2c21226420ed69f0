//! 20-byte account addresses and their order.

use vstd::prelude::*;

verus! {

/// A 20-byte address.
#[derive(Clone, Copy, Debug)]
pub struct Address {
    pub bytes: [u8; 20],
}

impl View for Address {
    type V = Seq<u8>;

    open spec fn view(&self) -> Seq<u8> {
        self.bytes@
    }
}

/// Whether `a` comes before `b` byte by byte, the first differing byte deciding.
pub open spec fn precedes(a: Seq<u8>, b: Seq<u8>) -> bool {
    exists|i: int|
        0 <= i < a.len() && i < b.len() && #[trigger] a[i] < b[i] && (forall|j: int|
            0 <= j < i ==> a[j] == b[j])
}

impl Address {
    /// The address made of the given bytes.
    pub fn new(bytes: [u8; 20]) -> (r: Address)
        ensures
            r@ == bytes@,
    {
        Address { bytes }
    }

    /// Whether `self` sorts strictly before `other`.
    pub fn lt(&self, other: &Address) -> (b: bool)
        ensures
            b == precedes(self@, other@),
    {
        let mut i: usize = 0;
        while i < 20
            invariant
                i <= 20,
                forall|j: int| 0 <= j < i ==> self@[j] == other@[j],
            decreases 20 - i,
        {
            if self.bytes[i] != other.bytes[i] {
                let below = self.bytes[i] < other.bytes[i];
                proof {
                    if !below {
                        assert forall|k: int|
                            0 <= k < 20 && #[trigger] self@[k] < other@[k] implies !(forall|j: int|
                                0 <= j < k ==> self@[j] == other@[j]) by {
                            if k < i {
                            } else if k > i {
                                assert(self@[i as int] != other@[i as int]);
                            }
                        }
                    }
                }
                return below;
            }
            i += 1;
        }
        false
    }

    /// Whether the two addresses are the same.
    pub fn is_equal(&self, other: &Address) -> (b: bool)
        ensures
            b == (self@ == other@),
    {
        let mut i: usize = 0;
        while i < 20
            invariant
                i <= 20,
                forall|j: int| 0 <= j < i ==> self@[j] == other@[j],
            decreases 20 - i,
        {
            if self.bytes[i] != other.bytes[i] {
                return false;
            }
            i += 1;
        }
        assert(self@ =~= other@);
        true
    }
}

} // verus!
