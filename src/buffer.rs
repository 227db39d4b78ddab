use vstd::prelude::*;

verus! {

/// An owned byte sequence handed back across the boundary.
pub struct CBoxVec {
    vec: Vec<u8>,
}

impl View for CBoxVec {
    type V = Seq<u8>;

    closed spec fn view(&self) -> Seq<u8> {
        self.vec@
    }
}

impl CBoxVec {
    /// Takes ownership of the bytes.
    pub fn from_vec(v: Vec<u8>) -> (r: CBoxVec)
        ensures
            r@ == v@,
    {
        CBoxVec { vec: v }
    }

    /// The bytes, read-only, for as long as the buffer lives.
    pub fn cbox_vec_data(&self) -> (r: &[u8])
        ensures
            r@ == self@,
    {
        self.vec.as_slice()
    }

    /// The number of bytes.
    pub fn cbox_vec_len(&self) -> (r: usize)
        ensures
            r == self@.len(),
    {
        self.vec.len()
    }

    /// Releases the buffer, handing its bytes back.
    pub fn cbox_vec_free(self) -> (r: Vec<u8>)
        ensures
            r@ == self@,
    {
        self.vec
    }
}

} // verus!
