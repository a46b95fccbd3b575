use vstd::prelude::*;

verus! {

/// A 32-byte identity key, held as four 64-bit words so that equality of
/// identities is plain structural equality of integers.
#[derive(PartialEq, Eq, Structural, Clone, Copy, Debug)]
pub struct Pubkey {
    pub w0: u64,
    pub w1: u64,
    pub w2: u64,
    pub w3: u64,
}

impl Pubkey {
    pub fn new(w0: u64, w1: u64, w2: u64, w3: u64) -> (r: Pubkey)
        ensures
            r == (Pubkey { w0, w1, w2, w3 }),
    {
        Pubkey { w0, w1, w2, w3 }
    }
}

} // verus!
