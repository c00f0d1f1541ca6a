use vstd::prelude::*;

verus! {

/// Length in bytes of an account identifier.
pub const PUBKEY_BYTES: usize = 32;

/// An opaque 32-byte account identifier, as handed out by the host runtime.
#[derive(Clone, Copy, Debug, PartialEq, Eq, PartialOrd, Ord, Hash, Default)]
pub struct Pubkey {
    bytes: [u8; 32],
}

impl View for Pubkey {
    type V = Seq<u8>;

    closed spec fn view(&self) -> Seq<u8> {
        self.bytes@
    }
}

impl Pubkey {
    /// Wraps the given raw bytes.
    pub fn new_from_array(bytes: [u8; 32]) -> (r: Pubkey)
        ensures
            r@ == bytes@,
    {
        Pubkey { bytes }
    }

    /// The raw bytes of the identifier.
    pub fn to_bytes(self) -> (r: [u8; 32])
        ensures
            r@ == self@,
    {
        self.bytes
    }

    /// Two identifiers with the same bytes are the same identifier.
    pub proof fn lemma_view_injective(self, other: Pubkey)
        requires
            self@ == other@,
        ensures
            self == other,
    {
        vstd::array::axiom_array_ext_equal(self.bytes, other.bytes);
        assert(self.bytes == other.bytes);
    }

    /// Every identifier is exactly 32 bytes long.
    pub proof fn lemma_len(self)
        ensures
            self@.len() == PUBKEY_BYTES,
    {
    }
}

} // verus!
