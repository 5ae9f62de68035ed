use vstd::prelude::*;

verus! {

/// A 256-bit account or caller identity, held as four 64-bit words.
///
/// The host ledger names accounts, mints and signers by 32-byte keys.
/// The accounting engine never interprets such a key; it only compares
/// keys for equality (is the caller the admin? which mint does this
/// vault bridge?), so the key is carried as plain words and `==` is
/// field-wise equality.
#[derive(Clone, Copy, Debug, PartialEq, Eq, Structural, Hash)]
pub struct Identity {
    pub w0: u64,
    pub w1: u64,
    pub w2: u64,
    pub w3: u64,
}

impl Identity {
    pub fn new(w0: u64, w1: u64, w2: u64, w3: u64) -> (r: Identity)
        ensures
            r == (Identity { w0, w1, w2, w3 }),
    {
        Identity { w0, w1, w2, w3 }
    }
}

} // verus!
