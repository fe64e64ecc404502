//! The 32-byte identifier that names an account or a program.

use vstd::prelude::*;

verus! {

/// Names an account or a program. Two identifiers are the same exactly when
/// all 32 bytes agree.
#[derive(Clone, Copy, Debug, PartialEq, Eq, Hash)]
pub struct Identifier {
    pub bytes: [u8; 32],
}

impl View for Identifier {
    type V = Seq<u8>;

    open spec fn view(&self) -> Seq<u8> {
        self.bytes@
    }
}

impl Identifier {
    /// Wraps 32 raw bytes.
    pub fn new(bytes: [u8; 32]) -> (id: Identifier)
        ensures
            id.bytes == bytes,
            id@ == bytes@,
    {
        Identifier { bytes }
    }

    /// The identifier stored at `buf[offset .. offset + 32]`.
    pub(crate) fn read(buf: &[u8], offset: usize) -> (id: Identifier)
        requires
            offset + 32 <= buf.len(),
        ensures
            id@ == buf@.subrange(offset as int, offset + 32),
    {
        let mut bytes: [u8; 32] = [0u8; 32];
        let mut i: usize = 0;
        while i < 32
            invariant
                i <= 32,
                offset + 32 <= buf.len(),
                forall|j: int| 0 <= j < i ==> bytes@[j] == buf@[offset + j],
            decreases 32 - i,
        {
            bytes[i] = buf[offset + i];
            i = i + 1;
        }
        assert(bytes@ =~= buf@.subrange(offset as int, offset + 32));
        Identifier { bytes }
    }

    /// Byte-exact equality.
    pub fn same(&self, other: &Identifier) -> (eq: bool)
        ensures
            eq <==> self@ == other@,
    {
        let mut i: usize = 0;
        while i < 32
            invariant
                i <= 32,
                forall|j: int| 0 <= j < i ==> self.bytes@[j] == other.bytes@[j],
            decreases 32 - i,
        {
            if self.bytes[i] != other.bytes[i] {
                return false;
            }
            i = i + 1;
        }
        assert(self@ =~= other@);
        true
    }
}

} // verus!
