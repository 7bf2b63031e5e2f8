use vstd::prelude::*;

verus! {

/// A read cursor over the bytes of an instruction stream.
///
/// The dispatcher consumes whole bytes only; whatever is left is read by the
/// selected loader.
pub struct SliceData {
    data: Vec<u8>,
    pos: usize,
}

impl SliceData {
    #[verifier::type_invariant]
    spec fn inv(self) -> bool {
        self.pos <= self.data@.len()
    }

    /// All the bytes of the slice, consumed or not.
    pub closed spec fn bytes(self) -> Seq<u8> {
        self.data@
    }

    /// How many bytes have been consumed.
    pub closed spec fn consumed(self) -> nat {
        self.pos as nat
    }

    /// The bytes not consumed yet.
    pub open spec fn remaining(self) -> Seq<u8> {
        self.bytes().skip(self.consumed() as int)
    }

    /// A cursor at the start of `data`.
    pub fn new(data: Vec<u8>) -> (r: SliceData)
        ensures
            r.bytes() == data@,
            r.consumed() == 0,
    {
        SliceData { data, pos: 0 }
    }

    /// The number of bytes consumed so far.
    pub fn position(&self) -> (r: usize)
        ensures
            r == self.consumed(),
    {
        self.pos
    }

    /// Consumes and returns the next byte, or `None` when the slice is
    /// exhausted (the cursor then stays where it is).
    pub fn get_next_byte(&mut self) -> (r: Option<u8>)
        ensures
            final(self).bytes() == old(self).bytes(),
            old(self).consumed() <= old(self).bytes().len(),
            match r {
                Some(b) => {
                    &&& old(self).consumed() < old(self).bytes().len()
                    &&& b == old(self).bytes()[old(self).consumed() as int]
                    &&& final(self).consumed() == old(self).consumed() + 1
                },
                None => {
                    &&& old(self).consumed() == old(self).bytes().len()
                    &&& final(self).consumed() == old(self).consumed()
                },
            },
    {
        proof {
            use_type_invariant(&*self);
        }
        if self.pos < self.data.len() {
            let b = self.data[self.pos];
            self.pos = self.pos + 1;
            Some(b)
        } else {
            None
        }
    }
}

} // verus!
