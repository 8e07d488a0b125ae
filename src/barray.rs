//! Length-prefixed strings stored in a fixed block of code units.
use vstd::prelude::*;
use crate::bstr::{encode_utf16, utf16_of};

verus! {

/// A length-prefixed string in a block of `N` code units, laid out as the system lays out
/// its strings: the byte length as a 32-bit number over the first two units (low half first),
/// the characters, then a terminating zero. Units after the terminator are unused.
///
/// At most `N - 3` characters fit.
pub struct BArray<const N: usize> {
    words: Vec<u16>,
}

/// The character count that a length prefix records.
pub open spec fn prefix_count(words: Seq<u16>) -> int {
    (words[0] + words[1] * 0x1_0000) / 2
}

impl<const N: usize> BArray<N> {
    #[verifier::type_invariant]
    spec fn well_formed(self) -> bool {
        &&& 3 <= N < 0x8000_0000
        &&& self.words@.len() == N
        &&& self.words@[0] % 2 == 0
        &&& prefix_count(self.words@) + 3 <= N
        &&& self.words@[prefix_count(self.words@) + 2] == 0
    }

    /// The characters held.
    pub closed spec fn view(self) -> Seq<u16> {
        self.words@.subrange(2, prefix_count(self.words@) + 2)
    }

    /// Creates an empty string.
    pub fn new() -> (r: BArray<N>)
        requires
            3 <= N < 0x8000_0000,
        ensures
            r.view() == Seq::<u16>::empty(),
    {
        let mut words: Vec<u16> = Vec::with_capacity(N);
        let mut i: usize = 0;
        while i < N
            invariant
                i <= N,
                words@.len() == i,
                forall|j: int| 0 <= j < i ==> words@[j] == 0,
            decreases N - i,
        {
            words.push(0);
            i += 1;
        }
        let r = BArray { words };
        proof {
            assert(prefix_count(r.words@) == 0);
            assert(r.view() =~= Seq::<u16>::empty());
        }
        r
    }

    /// Replaces the string with `units`.
    pub fn set_from(&mut self, units: &[u16])
        requires
            units@.len() + 3 <= N,
        ensures
            final(self).view() == units@,
    {
        proof {
            use_type_invariant(&*self);
        }
        let n = units.len();
        let bytes = (n * 2) as u32;
        let mut words: Vec<u16> = Vec::with_capacity(N);
        let mut j: usize = 0;
        while j < N
            invariant
                n == units@.len(),
                n + 3 <= N < 0x8000_0000,
                bytes == n * 2,
                j <= N,
                words@.len() == j,
                j > 0 ==> words@[0] == bytes % 0x1_0000,
                j > 1 ==> words@[1] == bytes / 0x1_0000,
                forall|k: int| 2 <= k < j && k < n + 2 ==> words@[k] == units@[k - 2],
                forall|k: int| n + 2 <= k < j ==> words@[k] == 0,
            decreases N - j,
        {
            let w: u16 = if j == 0 {
                (bytes % 0x1_0000) as u16
            } else if j == 1 {
                (bytes / 0x1_0000) as u16
            } else if j < n + 2 {
                units[j - 2]
            } else {
                0
            };
            words.push(w);
            j += 1;
        }
        proof {
            assert(prefix_count(words@) == n);
            assert(words@.subrange(2, n + 2) =~= units@);
        }
        self.words = words;
    }

    /// Replaces the string with the UTF-16 encoding of `s`.
    pub fn set(&mut self, s: &str)
        requires
            utf16_of(s@).len() + 3 <= N,
        ensures
            final(self).view() == utf16_of(s@),
    {
        let units = encode_utf16(s);
        self.set_from(units.as_slice());
    }

    /// Creates a string holding `units`.
    pub fn from_wide(units: &[u16]) -> (r: BArray<N>)
        requires
            3 <= N < 0x8000_0000,
            units@.len() + 3 <= N,
        ensures
            r.view() == units@,
    {
        let mut r = BArray::new();
        r.set_from(units);
        r
    }

    /// Creates a string holding the UTF-16 encoding of `s`.
    pub fn from_str(s: &str) -> (r: BArray<N>)
        requires
            3 <= N < 0x8000_0000,
            utf16_of(s@).len() + 3 <= N,
        ensures
            r.view() == utf16_of(s@),
    {
        let units = encode_utf16(s);
        BArray::from_wide(units.as_slice())
    }

    /// The characters held, read back through the length prefix.
    pub fn as_wide(&self) -> (r: &[u16])
        ensures
            r@ == self.view(),
    {
        proof {
            use_type_invariant(self);
        }
        let lo = self.words[0] as u32;
        let hi = self.words[1] as u32;
        let n = ((lo + hi * 0x1_0000) / 2) as usize;
        let s = self.words.as_slice();
        &s[2..n + 2]
    }
}

} // verus!
