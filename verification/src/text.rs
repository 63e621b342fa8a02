//! Byte strings.

use vstd::prelude::*;

verus! {

/// A string as the ledger keeps it: raw bytes, with no encoding implied.
#[derive(Clone, Debug, PartialEq, Eq)]
pub struct ByteString {
    pub bytes: Vec<u8>,
}

impl View for ByteString {
    type V = Seq<u8>;

    open spec fn view(&self) -> Seq<u8> {
        self.bytes@
    }
}

impl ByteString {
    /// The string that consists of `bytes`.
    pub fn new(bytes: Vec<u8>) -> (text: Self)
        ensures
            text@ == bytes@,
    {
        ByteString { bytes }
    }

    /// Whether both strings hold the same bytes.
    pub fn same_as(&self, other: &Self) -> (same: bool)
        ensures
            same == (self@ == other@),
    {
        if self.bytes.len() != other.bytes.len() {
            return false;
        }
        let mut i: usize = 0;
        while i < self.bytes.len()
            invariant
                i <= self.bytes.len(),
                self.bytes.len() == other.bytes.len(),
                forall|j: int| 0 <= j < i ==> self@[j] == other@[j],
            decreases self.bytes.len() - i,
        {
            if self.bytes[i] != other.bytes[i] {
                return false;
            }
            i = i + 1;
        }
        assert(self@ =~= other@);
        true
    }

    /// A second string with the same bytes.
    pub fn copy(&self) -> (text: Self)
        ensures
            text@ == self@,
    {
        let bytes = self.bytes.clone();
        assert(bytes@ =~= self.bytes@);
        ByteString { bytes }
    }
}

} // verus!
