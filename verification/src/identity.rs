//! Who a caller is.

use vstd::prelude::*;

verus! {

/// The identity of a caller, as the host reports it: twenty bytes that the
/// engine stores and compares, and never interprets.
#[derive(Clone, Copy, Debug, Eq)]
pub struct Identity {
    pub bytes: [u8; 20],
}

impl View for Identity {
    type V = Seq<u8>;

    open spec fn view(&self) -> Seq<u8> {
        self.bytes@
    }
}

impl PartialEq for Identity {
    /// Two identities are equal when all their bytes are.
    fn eq(&self, other: &Identity) -> (same: bool) {
        let mut i: usize = 0;
        while i < 20
            invariant
                i <= 20,
                forall|k: int| 0 <= k < i ==> self.bytes@[k] == other.bytes@[k],
            decreases 20 - i,
        {
            if self.bytes[i] != other.bytes[i] {
                return false;
            }
            i += 1;
        }
        assert(self.bytes@ =~= other.bytes@);
        true
    }
}

impl vstd::std_specs::cmp::PartialEqSpecImpl for Identity {
    open spec fn obeys_eq_spec() -> bool {
        true
    }

    open spec fn eq_spec(&self, other: &Identity) -> bool {
        self@ == other@
    }
}

impl Identity {
    /// The identity under which the opponent is announced as a winner: all
    /// bytes zero.
    pub fn house() -> (id: Identity)
        ensures
            id@ == Seq::new(20, |i: int| 0u8),
    {
        let id = Identity { bytes: [0u8; 20] };
        assert(id@ =~= Seq::new(20, |i: int| 0u8));
        id
    }
}

/// Identities with the same bytes are the same identity.
pub proof fn lemma_identity_by_view(a: Identity, b: Identity)
    ensures
        (a@ == b@) <==> (a == b),
{
    if a@ == b@ {
        assert(a.bytes =~= b.bytes);
    }
}

} // verus!
