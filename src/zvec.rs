//! A byte vector for secret material, wiped when it is dropped.
use vstd::prelude::*;
use zeroize::Zeroize;

verus! {

/// A u8 vector that is zeroed when dropped.
pub struct ZVec(Vec<u8>);

impl View for ZVec {
    type V = Seq<u8>;

    closed spec fn view(&self) -> Seq<u8> {
        self.0@
    }
}

impl ZVec {
    /// Extracts a slice containing the entire vector.
    pub fn as_slice(&self) -> (r: &[u8])
        ensures
            r@ == self@,
    {
        self.0.as_slice()
    }
}

impl From<Vec<u8>> for ZVec {
    fn from(v: Vec<u8>) -> (r: ZVec)
        ensures
            r@ == v@,
    {
        ZVec(v)
    }
}

impl vstd::std_specs::convert::FromSpecImpl<Vec<u8>> for ZVec {
    open spec fn obeys_from_spec() -> bool {
        true
    }

    closed spec fn from_spec(v: Vec<u8>) -> ZVec {
        ZVec(v)
    }
}

impl Drop for ZVec {
    fn drop(&mut self)
        opens_invariants none
        no_unwind
    {
        wipe(&mut self.0);
    }
}

/// Relies on zeroize's `Zeroize` for `Vec<u8>`: every element and the spare capacity are
/// overwritten with zeros, then the vector is cleared.
#[verifier::external_body]
fn wipe(v: &mut Vec<u8>)
    ensures
        final(v)@.len() == 0,
    opens_invariants none
    no_unwind
{
    v.zeroize();
}

} // verus!
