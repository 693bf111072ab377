use vstd::prelude::*;

verus! {

/// A 32-byte value: a coin id, a puzzle hash or any other SHA-256 digest.
#[derive(Clone, Copy, Debug, PartialEq, Eq, Hash)]
pub struct Bytes32 {
    pub bytes: [u8; 32],
}

impl View for Bytes32 {
    type V = Seq<u8>;

    open spec fn view(&self) -> Seq<u8> {
        self.bytes@
    }
}

impl Bytes32 {
    /// Wraps 32 bytes.
    pub fn new(bytes: [u8; 32]) -> (r: Self)
        ensures
            r.bytes == bytes,
            r@ == bytes@,
    {
        Bytes32 { bytes }
    }

    /// The bytes of `v` when there are exactly 32 of them.
    pub fn from_slice(v: &[u8]) -> (r: Option<Self>)
        ensures
            r is Some <==> v@.len() == 32,
            r matches Some(b) ==> b@ == v@,
    {
        if v.len() != 32 {
            return None;
        }
        let mut bytes = [0u8; 32];
        let mut i: usize = 0;
        while i < 32
            invariant
                i <= 32,
                v@.len() == 32,
                forall|j: int| 0 <= j < i ==> bytes@[j] == v@[j],
            decreases 32 - i,
        {
            bytes[i] = v[i];
            i = i + 1;
        }
        assert(bytes@ =~= v@);
        Some(Bytes32 { bytes })
    }

    /// Whether two values hold the same bytes.
    pub fn same(&self, other: &Bytes32) -> (r: bool)
        ensures
            r <==> self@ == other@,
    {
        let mut i: usize = 0;
        while i < 32
            invariant
                i <= 32,
                forall|j: int| 0 <= j < i ==> self.bytes@[j] == other.bytes@[j],
            decreases 32 - i,
        {
            if self.bytes[i] != other.bytes[i] {
                return false;
            }
            i = i + 1;
        }
        assert(self.bytes@ =~= other.bytes@);
        true
    }
}

} // verus!
