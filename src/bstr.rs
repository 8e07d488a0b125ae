//! Length-prefixed wide strings.
use vstd::prelude::*;

verus! {

/// The UTF-16 code units of one character.
pub open spec fn utf16_of_char(c: char) -> Seq<u16> {
    let v = c as u32;
    if v < 0x1_0000 {
        seq![v as u16]
    } else {
        let w = (v - 0x1_0000) as u32;
        seq![(0xD800 + w / 0x400) as u16, (0xDC00 + w % 0x400) as u16]
    }
}

/// The UTF-16 encoding of a character sequence.
pub open spec fn utf16_of(s: Seq<char>) -> Seq<u16>
    decreases s.len(),
{
    if s.len() == 0 {
        Seq::empty()
    } else {
        utf16_of(s.drop_last()) + utf16_of_char(s.last())
    }
}

/// Relies on `str::encode_utf16`: the UTF-16 code units of the string, in order.
#[verifier::external_body]
pub(crate) fn encode_utf16(s: &str) -> (r: Vec<u16>)
    ensures
        r@ == utf16_of(s@),
{
    s.encode_utf16().collect()
}

/// An owned string of UTF-16 code units.
///
/// Null and zero-length strings are the same string; an empty string allocates nothing.
#[derive(Debug)]
pub struct BString {
    words: Vec<u16>,
}

impl View for BString {
    type V = Seq<u16>;

    closed spec fn view(&self) -> Seq<u16> {
        self.words@
    }
}

impl BString {
    /// Creates an empty string.
    pub fn new() -> (r: BString)
        ensures
            r@ == Seq::<u16>::empty(),
    {
        BString { words: Vec::new() }
    }

    /// Creates a string holding a copy of `units`.
    pub fn from_wide(units: &[u16]) -> (r: BString)
        ensures
            r@ == units@,
    {
        let mut words: Vec<u16> = Vec::with_capacity(units.len());
        let mut i: usize = 0;
        while i < units.len()
            invariant
                i <= units@.len(),
                words@ == units@.subrange(0, i as int),
            decreases units@.len() - i,
        {
            words.push(units[i]);
            i += 1;
            proof {
                assert(words@ =~= units@.subrange(0, i as int));
            }
        }
        proof {
            assert(words@ =~= units@);
        }
        BString { words }
    }

    /// Creates a string holding the UTF-16 encoding of `s`.
    pub fn from_str(s: &str) -> (r: BString)
        ensures
            r@ == utf16_of(s@),
    {
        BString { words: encode_utf16(s) }
    }

    /// The code units of the string.
    pub fn as_wide(&self) -> (r: &[u16])
        ensures
            r@ == self@,
    {
        self.words.as_slice()
    }

    /// Number of code units.
    pub fn len(&self) -> (r: usize)
        ensures
            r == self@.len(),
    {
        self.words.len()
    }

    /// Whether the string has no code units.
    pub fn is_empty(&self) -> (r: bool)
        ensures
            r == (self@.len() == 0),
    {
        self.words.len() == 0
    }
}

impl Clone for BString {
    fn clone(&self) -> (r: BString)
        ensures
            r@ == self@,
    {
        let words = self.words.clone();
        proof {
            assert(words@ =~= self.words@);
        }
        BString { words }
    }
}

impl Default for BString {
    fn default() -> (r: BString)
        ensures
            r@ == Seq::<u16>::empty(),
    {
        BString::new()
    }
}

impl PartialEq for BString {
    fn eq(&self, other: &BString) -> (r: bool)
        ensures
            r == (self@ == other@),
    {
        if self.words.len() != other.words.len() {
            return false;
        }
        let mut i: usize = 0;
        while i < self.words.len()
            invariant
                self.words@.len() == other.words@.len(),
                i <= self.words@.len(),
                self.words@.subrange(0, i as int) == other.words@.subrange(0, i as int),
            decreases self.words@.len() - i,
        {
            if self.words[i] != other.words[i] {
                proof {
                    assert(self.words@[i as int] != other.words@[i as int]);
                }
                return false;
            }
            proof {
                assert(self.words@.subrange(0, i + 1) =~= self.words@.subrange(0, i as int).push(
                    self.words@[i as int],
                ));
                assert(other.words@.subrange(0, i + 1) =~= other.words@.subrange(0, i as int).push(
                    other.words@[i as int],
                ));
            }
            i += 1;
        }
        proof {
            assert(self.words@ =~= self.words@.subrange(0, i as int));
            assert(other.words@ =~= other.words@.subrange(0, i as int));
        }
        true
    }
}

impl vstd::std_specs::cmp::PartialEqSpecImpl for BString {
    open spec fn obeys_eq_spec() -> bool {
        true
    }

    open spec fn eq_spec(&self, other: &BString) -> bool {
        self@ == other@
    }
}

impl Eq for BString {
}

/// Converts into an owned string.
pub trait IntoBString {
    /// The code units the string will hold.
    spec fn units(&self) -> Seq<u16>;

    fn into_bstring(self) -> (r: BString)
        ensures
            r@ == self.units(),
    ;
}

impl<'a> IntoBString for &'a [u16] {
    open spec fn units(&self) -> Seq<u16> {
        (**self)@
    }

    fn into_bstring(self) -> (r: BString) {
        BString::from_wide(self)
    }
}

impl IntoBString for Vec<u16> {
    open spec fn units(&self) -> Seq<u16> {
        self@
    }

    fn into_bstring(self) -> (r: BString) {
        BString { words: self }
    }
}

impl<'a> IntoBString for &'a str {
    open spec fn units(&self) -> Seq<u16> {
        utf16_of((**self)@)
    }

    fn into_bstring(self) -> (r: BString) {
        BString::from_str(self)
    }
}

/// The empty string in its null form.
#[derive(Copy, Clone, Debug, PartialEq, Eq, Structural)]
pub struct NullBStr;

impl NullBStr {
    /// The owned string this stands for: the empty string.
    pub fn to_owned(self) -> (r: BString)
        ensures
            r@ == Seq::<u16>::empty(),
    {
        BString::new()
    }
}

} // verus!
