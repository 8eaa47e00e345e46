use vstd::prelude::*;

verus! {

/// Number of bytes in a principal key.
pub const KEY_LEN: usize = 32;

/// A 32-byte principal key: the identity of an account holder or signer.
#[derive(Clone, Copy, Debug)]
pub struct Identity {
    pub bytes: [u8; 32],
}

impl Identity {
    /// Two identities are the same principal when their key bytes agree.
    pub open spec fn same(&self, o: &Identity) -> bool {
        self.bytes@ =~= o.bytes@
    }
}

impl PartialEq for Identity {
    fn eq(&self, o: &Identity) -> (r: bool) {
        let mut i: usize = 0;
        while i < KEY_LEN
            invariant
                0 <= i <= KEY_LEN,
                self.bytes@.len() == KEY_LEN,
                o.bytes@.len() == KEY_LEN,
                forall|j: int| 0 <= j < i ==> self.bytes@[j] == o.bytes@[j],
            decreases KEY_LEN - i,
        {
            if self.bytes[i] != o.bytes[i] {
                return false;
            }
            i = i + 1;
        }
        true
    }
}

impl vstd::std_specs::cmp::PartialEqSpecImpl for Identity {
    open spec fn obeys_eq_spec() -> bool {
        true
    }

    open spec fn eq_spec(&self, o: &Identity) -> bool {
        self.same(o)
    }
}

impl Eq for Identity {
}

} // verus!
