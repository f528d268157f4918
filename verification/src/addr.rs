//! Ledger addresses: 32-byte public keys of the host ledger.

use vstd::prelude::*;

verus! {

/// A 32-byte address on the host ledger (an account key, a token mint, or a
/// program id). The byte vector of a well-formed address has length 32.
#[derive(Debug, Clone, PartialEq)]
pub struct Address {
    pub bytes: Vec<u8>,
}

impl View for Address {
    type V = Seq<u8>;

    open spec fn view(&self) -> Seq<u8> {
        self.bytes@
    }
}

impl Address {
    /// A well-formed address holds exactly 32 bytes.
    pub open spec fn wf(&self) -> bool {
        self.bytes@.len() == 32
    }

    /// Builds an address from raw bytes; exactly the 32-byte inputs are accepted.
    pub fn from_bytes(bytes: Vec<u8>) -> (r: Option<Address>)
        ensures
            match r {
                Some(a) => a.wf() && a@ == bytes@,
                None => bytes@.len() != 32,
            },
    {
        if bytes.len() == 32 {
            Some(Address { bytes })
        } else {
            None
        }
    }

    /// Returns a fresh address holding the same bytes.
    pub fn dup(&self) -> (r: Address)
        ensures
            r@ == self@,
    {
        let mut out: Vec<u8> = Vec::new();
        let mut i: usize = 0;
        while i < self.bytes.len()
            invariant
                i <= self.bytes@.len(),
                out@ == self.bytes@.subrange(0, i as int),
            decreases self.bytes@.len() - i,
        {
            out.push(self.bytes[i]);
            i += 1;
        }
        proof {
            assert(out@ =~= self.bytes@);
        }
        Address { bytes: out }
    }
}

/// Byte-for-byte equality of two addresses.
pub fn addr_eq(a: &Address, b: &Address) -> (r: bool)
    ensures
        r == (a@ == b@),
{
    if a.bytes.len() != b.bytes.len() {
        return false;
    }
    let mut i: usize = 0;
    while i < a.bytes.len()
        invariant
            i <= a.bytes@.len(),
            a.bytes@.len() == b.bytes@.len(),
            forall|j: int| 0 <= j < i ==> a@[j] == b@[j],
        decreases a.bytes@.len() - i,
    {
        if a.bytes[i] != b.bytes[i] {
            return false;
        }
        i += 1;
    }
    proof {
        assert(a@ =~= b@);
    }
    true
}

} // verus!
