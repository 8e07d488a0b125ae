//! Typed views over the elements of one-dimensional safe arrays.
use vstd::prelude::*;
use crate::bstr::BString;
use crate::inner::{AsInner, FromInner, IntoInner};
use crate::vt::VT_BSTR;

verus! {

/// Element type tag of a safe array.
#[derive(Copy, Clone, Debug, PartialEq, Eq, Structural)]
pub struct ElemTag(pub u16);

impl AsInner<u16> for ElemTag {
    fn as_inner(&self) -> &u16 {
        &self.0
    }
}

impl IntoInner<u16> for ElemTag {
    fn into_inner(self) -> u16 {
        self.0
    }
}

impl FromInner<u16> for ElemTag {
    fn from_inner(inner: u16) -> ElemTag {
        ElemTag(inner)
    }
}

/// A type that can be the element of a safe array.
pub trait ElemType: Sized {
    /// How the array stores one element.
    type Raw;

    spec fn spec_elem_tag() -> ElemTag;

    /// Returns the element tag.
    fn elem_tag() -> (t: ElemTag)
        ensures
            t == Self::spec_elem_tag(),
    ;
}

impl ElemType for BString {
    type Raw = BString;

    open spec fn spec_elem_tag() -> ElemTag {
        ElemTag(VT_BSTR)
    }

    fn elem_tag() -> (t: ElemTag) {
        ElemTag(VT_BSTR)
    }
}

/// The elements of a one-dimensional array of `T`.
pub struct ArrSlice<'a, T: ElemType> {
    raw: &'a [T::Raw],
}

impl<'a, T: ElemType> ArrSlice<'a, T> {
    /// The elements, in order.
    pub closed spec fn view(&self) -> Seq<T::Raw> {
        self.raw@
    }

    /// Iterates over the elements from either end.
    pub fn iter(&self) -> (it: ArrIter<'a, T>)
        ensures
            it.view() == self.view(),
    {
        ArrIter { raw: self.raw, front: 0, back: self.raw.len() }
    }

    /// Number of elements.
    pub fn len(&self) -> (r: usize)
        ensures
            r == self.view().len(),
    {
        self.raw.len()
    }

    /// The element at `index`.
    pub fn index(&self, index: usize) -> (r: &'a T::Raw)
        requires
            index < self.view().len(),
        ensures
            *r == self.view()[index as int],
    {
        &self.raw[index]
    }
}

impl<'a, T: ElemType> IntoInner<&'a [T::Raw]> for ArrSlice<'a, T> {
    fn into_inner(self) -> &'a [T::Raw] {
        self.raw
    }
}

impl<'a, T: ElemType> FromInner<&'a [T::Raw]> for ArrSlice<'a, T> {
    fn from_inner(raw: &'a [T::Raw]) -> ArrSlice<'a, T> {
        ArrSlice { raw }
    }
}

/// Double-ended iteration over an `ArrSlice`.
pub struct ArrIter<'a, T: ElemType> {
    raw: &'a [T::Raw],
    front: usize,
    back: usize,
}

impl<'a, T: ElemType> ArrIter<'a, T> {
    #[verifier::type_invariant]
    spec fn well_formed(self) -> bool {
        self.front <= self.back <= self.raw@.len()
    }

    /// The elements not yet handed out, in order.
    pub closed spec fn view(&self) -> Seq<T::Raw> {
        self.raw@.subrange(self.front as int, self.back as int)
    }

    /// The elements not yet handed out.
    pub fn as_slice(&self) -> (r: ArrSlice<'a, T>)
        ensures
            r.view() == self.view(),
    {
        proof {
            use_type_invariant(self);
        }
        ArrSlice { raw: &self.raw[self.front..self.back] }
    }

    /// Number of elements not yet handed out.
    pub fn len(&self) -> (r: usize)
        ensures
            r == self.view().len(),
    {
        proof {
            use_type_invariant(self);
        }
        self.back - self.front
    }

    /// Hands out the first remaining element.
    pub fn next(&mut self) -> (r: Option<&'a T::Raw>)
        ensures
            old(self).view().len() == 0 ==> r is None && final(self).view() == old(self).view(),
            old(self).view().len() > 0 ==> r == Some(&old(self).view()[0])
                && final(self).view() == old(self).view().drop_first(),
    {
        proof {
            use_type_invariant(&*self);
        }
        if self.front < self.back {
            let item = &self.raw[self.front];
            self.front = self.front + 1;
            proof {
                assert(self.view() =~= old(self).view().drop_first());
            }
            Some(item)
        } else {
            None
        }
    }

    /// Hands out the last remaining element.
    pub fn next_back(&mut self) -> (r: Option<&'a T::Raw>)
        ensures
            old(self).view().len() == 0 ==> r is None && final(self).view() == old(self).view(),
            old(self).view().len() > 0 ==> r == Some(&old(self).view().last())
                && final(self).view() == old(self).view().drop_last(),
    {
        proof {
            use_type_invariant(&*self);
        }
        if self.front < self.back {
            self.back = self.back - 1;
            let item = &self.raw[self.back];
            proof {
                assert(self.view() =~= old(self).view().drop_last());
            }
            Some(item)
        } else {
            None
        }
    }
}

} // verus!
