//! The secret bytes of a volume key.

use vstd::prelude::*;

verus! {

/// The volume key of a device. The value owns its bytes alone: it cannot be
/// cloned or printed, and `scrub` overwrites the bytes in place.
pub struct VolumeKey {
    bytes: Vec<u8>,
}

/// A run of `len` zero bytes.
pub open spec fn zeros(len: nat) -> Seq<u8> {
    Seq::new(len, |i: int| 0u8)
}

impl View for VolumeKey {
    type V = Seq<u8>;

    closed spec fn view(&self) -> Seq<u8> {
        self.bytes@
    }
}

impl VolumeKey {
    /// Takes the bytes of a key into exclusive ownership.
    pub fn new(bytes: Vec<u8>) -> (key: VolumeKey)
        ensures
            key@ == bytes@,
    {
        VolumeKey { bytes }
    }

    /// The length of the key in bytes.
    pub fn len(&self) -> (len: usize)
        ensures
            len == self@.len(),
    {
        self.bytes.len()
    }

    /// The bytes of the key, for the engine to read.
    pub fn as_slice(&self) -> (bytes: &[u8])
        ensures
            bytes@ == self@,
    {
        self.bytes.as_slice()
    }

    /// Whether two keys hold the same bytes. Every byte is looked at,
    /// whatever the bytes before it were.
    pub fn same_bytes(&self, other: &VolumeKey) -> (same: bool)
        ensures
            same == (self@ == other@),
    {
        let n: usize = self.bytes.len();
        if other.bytes.len() != n {
            return false;
        }
        let mut same = true;
        let mut i: usize = 0;
        while i < n
            invariant
                i <= n,
                n == self.bytes@.len(),
                n == other.bytes@.len(),
                same == (forall|j: int| 0 <= j < i ==> self.bytes@[j] == other.bytes@[j]),
            decreases n - i,
        {
            if self.bytes[i] != other.bytes[i] {
                same = false;
            }
            i += 1;
        }
        proof {
            if same {
                assert(self.bytes@ =~= other.bytes@);
            }
        }
        same
    }

    /// Overwrites every byte of the key with zero. The length stays.
    pub fn scrub(&mut self)
        ensures
            final(self)@ == zeros(old(self)@.len()),
    {
        let n: usize = self.bytes.len();
        let mut i: usize = 0;
        while i < n
            invariant
                i <= n,
                n == self.bytes@.len(),
                n == old(self)@.len(),
                forall|j: int| 0 <= j < i ==> self.bytes@[j] == 0u8,
            decreases n - i,
        {
            self.bytes[i] = 0;
            i += 1;
        }
        assert(self.bytes@ =~= zeros(old(self)@.len()));
    }

    /// Whether every byte of the key is zero.
    pub fn is_scrubbed(&self) -> (clean: bool)
        ensures
            clean == (self@ == zeros(self@.len())),
    {
        let n: usize = self.bytes.len();
        let mut i: usize = 0;
        while i < n
            invariant
                i <= n,
                n == self.bytes@.len(),
                forall|j: int| 0 <= j < i ==> self.bytes@[j] == 0u8,
            decreases n - i,
        {
            if self.bytes[i] != 0 {
                assert(zeros(self@.len())[i as int] == 0u8);
                return false;
            }
            i += 1;
        }
        assert(self.bytes@ =~= zeros(self@.len()));
        true
    }
}

} // verus!
