use vstd::prelude::*;

verus! {

/// A 32-byte account identity.
#[derive(Clone, Copy, Debug)]
pub struct Address(pub [u8; 32]);

impl Address {
    /// The all-zero identity, which marks a record that was never opened.
    pub open spec fn is_unset_spec(&self) -> bool {
        forall|i: int| 0 <= i < 32 ==> self.0@[i] == 0u8
    }

    /// Whether two identities are the same.
    pub open spec fn same(&self, other: Address) -> bool {
        self.0@ == other.0@
    }

    pub fn unset() -> (r: Address)
        ensures
            r.is_unset_spec(),
    {
        let r = Address([0u8; 32]);
        assert(r.0@ =~= Seq::new(32, |i: int| 0u8));
        r
    }

    pub fn is_unset(&self) -> (r: bool)
        ensures
            r == self.is_unset_spec(),
    {
        let mut i: usize = 0;
        while i < 32
            invariant
                i <= 32,
                forall|j: int| 0 <= j < i ==> self.0@[j] == 0u8,
            decreases 32 - i,
        {
            if self.0[i] != 0 {
                return false;
            }
            i = i + 1;
        }
        true
    }

    pub fn same_as(&self, other: &Address) -> (r: bool)
        ensures
            r == self.same(*other),
    {
        let mut i: usize = 0;
        while i < 32
            invariant
                i <= 32,
                forall|j: int| 0 <= j < i ==> self.0@[j] == other.0@[j],
            decreases 32 - i,
        {
            if self.0[i] != other.0[i] {
                return false;
            }
            i = i + 1;
        }
        assert(self.0@ =~= other.0@);
        true
    }
}

impl PartialEq for Address {
    fn eq(&self, other: &Address) -> (r: bool) {
        self.same_as(other)
    }
}

impl Eq for Address {
}

impl vstd::std_specs::cmp::PartialEqSpecImpl for Address {
    open spec fn obeys_eq_spec() -> bool {
        true
    }

    open spec fn eq_spec(&self, other: &Address) -> bool {
        self.0@ == other.0@
    }
}

} // verus!
