//! The tagged variant container.
use vstd::prelude::*;
use crate::bstr::BString;
use crate::bool::Bool;
use crate::currency::Currency;
use crate::date::Date;
use crate::decimal::Decimal;
use crate::hr::HResult;
use crate::types::{Empty, Int, Null, UInt, R4, R8};
use crate::vt::{
    VT_BOOL, VT_BSTR, VT_BYREF, VT_BYREF_BOOL, VT_BYREF_BSTR, VT_BYREF_CY, VT_BYREF_DATE,
    VT_BYREF_DECIMAL, VT_BYREF_ERROR, VT_BYREF_I1, VT_BYREF_I2, VT_BYREF_I4, VT_BYREF_INT,
    VT_BYREF_R4, VT_BYREF_R8, VT_BYREF_UI1, VT_BYREF_UI2, VT_BYREF_UI4, VT_BYREF_UINT, VT_CY,
    VT_DATE, VT_DECIMAL, VT_EMPTY, VT_ERROR, VT_I1, VT_I2, VT_I4, VT_INT, VT_NULL, VT_R4,
    VT_R8, VT_UI1, VT_UI2, VT_UI4, VT_UINT,
};

verus! {

/// The tag declares the type held in a variant.
#[derive(Copy, Clone, Debug, PartialEq, Eq, Structural)]
pub struct Tag(pub u16);

/// What a variant holds: one payload per tag, by value or by reference.
///
/// A by-reference payload is the value that the reference points to at the time it is read.
pub enum Payload {
    Empty,
    Null,
    I2(i16),
    I4(i32),
    R4(R4),
    R8(R8),
    Cy(Currency),
    Date(Date),
    BStr(Seq<u16>),
    Error(HResult),
    Bool(Bool),
    Decimal(Decimal),
    I1(i8),
    UI1(u8),
    UI2(u16),
    UI4(u32),
    Int(Int),
    UInt(UInt),
    ByRefI2(i16),
    ByRefI4(i32),
    ByRefR4(R4),
    ByRefR8(R8),
    ByRefCy(Currency),
    ByRefDate(Date),
    ByRefBStr(Seq<u16>),
    ByRefError(HResult),
    ByRefBool(Bool),
    ByRefDecimal(Decimal),
    ByRefI1(i8),
    ByRefUI1(u8),
    ByRefUI2(u16),
    ByRefUI4(u32),
    ByRefInt(Int),
    ByRefUInt(UInt),
}

impl Payload {
    /// The tag under which the payload is stored.
    pub open spec fn tag(self) -> Tag {
        match self {
            Payload::Empty => Tag(VT_EMPTY),
            Payload::Null => Tag(VT_NULL),
            Payload::I2(_) => Tag(VT_I2),
            Payload::I4(_) => Tag(VT_I4),
            Payload::R4(_) => Tag(VT_R4),
            Payload::R8(_) => Tag(VT_R8),
            Payload::Cy(_) => Tag(VT_CY),
            Payload::Date(_) => Tag(VT_DATE),
            Payload::BStr(_) => Tag(VT_BSTR),
            Payload::Error(_) => Tag(VT_ERROR),
            Payload::Bool(_) => Tag(VT_BOOL),
            Payload::Decimal(_) => Tag(VT_DECIMAL),
            Payload::I1(_) => Tag(VT_I1),
            Payload::UI1(_) => Tag(VT_UI1),
            Payload::UI2(_) => Tag(VT_UI2),
            Payload::UI4(_) => Tag(VT_UI4),
            Payload::Int(_) => Tag(VT_INT),
            Payload::UInt(_) => Tag(VT_UINT),
            Payload::ByRefI2(_) => Tag(VT_BYREF_I2),
            Payload::ByRefI4(_) => Tag(VT_BYREF_I4),
            Payload::ByRefR4(_) => Tag(VT_BYREF_R4),
            Payload::ByRefR8(_) => Tag(VT_BYREF_R8),
            Payload::ByRefCy(_) => Tag(VT_BYREF_CY),
            Payload::ByRefDate(_) => Tag(VT_BYREF_DATE),
            Payload::ByRefBStr(_) => Tag(VT_BYREF_BSTR),
            Payload::ByRefError(_) => Tag(VT_BYREF_ERROR),
            Payload::ByRefBool(_) => Tag(VT_BYREF_BOOL),
            Payload::ByRefDecimal(_) => Tag(VT_BYREF_DECIMAL),
            Payload::ByRefI1(_) => Tag(VT_BYREF_I1),
            Payload::ByRefUI1(_) => Tag(VT_BYREF_UI1),
            Payload::ByRefUI2(_) => Tag(VT_BYREF_UI2),
            Payload::ByRefUI4(_) => Tag(VT_BYREF_UI4),
            Payload::ByRefInt(_) => Tag(VT_BYREF_INT),
            Payload::ByRefUInt(_) => Tag(VT_BYREF_UINT),
        }
    }

    /// Whether the payload is a reference to a value owned elsewhere.
    pub open spec fn is_by_ref(self) -> bool {
        match self {
            Payload::ByRefI2(_) => true,
            Payload::ByRefI4(_) => true,
            Payload::ByRefR4(_) => true,
            Payload::ByRefR8(_) => true,
            Payload::ByRefCy(_) => true,
            Payload::ByRefDate(_) => true,
            Payload::ByRefBStr(_) => true,
            Payload::ByRefError(_) => true,
            Payload::ByRefBool(_) => true,
            Payload::ByRefDecimal(_) => true,
            Payload::ByRefI1(_) => true,
            Payload::ByRefUI1(_) => true,
            Payload::ByRefUI2(_) => true,
            Payload::ByRefUI4(_) => true,
            Payload::ByRefInt(_) => true,
            Payload::ByRefUInt(_) => true,
            _ => false,
        }
    }

    /// The by-reference form of a by-value payload; the unit payloads have none and stay as they are.
    pub open spec fn to_ref(self) -> Payload {
        match self {
            Payload::I2(v) => Payload::ByRefI2(v),
            Payload::I4(v) => Payload::ByRefI4(v),
            Payload::R4(v) => Payload::ByRefR4(v),
            Payload::R8(v) => Payload::ByRefR8(v),
            Payload::Cy(v) => Payload::ByRefCy(v),
            Payload::Date(v) => Payload::ByRefDate(v),
            Payload::BStr(v) => Payload::ByRefBStr(v),
            Payload::Error(v) => Payload::ByRefError(v),
            Payload::Bool(v) => Payload::ByRefBool(v),
            Payload::Decimal(v) => Payload::ByRefDecimal(v),
            Payload::I1(v) => Payload::ByRefI1(v),
            Payload::UI1(v) => Payload::ByRefUI1(v),
            Payload::UI2(v) => Payload::ByRefUI2(v),
            Payload::UI4(v) => Payload::ByRefUI4(v),
            Payload::Int(v) => Payload::ByRefInt(v),
            Payload::UInt(v) => Payload::ByRefUInt(v),
            _ => self,
        }
    }

    /// The by-value form of a by-reference payload: the referent's value. By-value payloads stay as they are.
    pub open spec fn deref(self) -> Payload {
        match self {
            Payload::ByRefI2(v) => Payload::I2(v),
            Payload::ByRefI4(v) => Payload::I4(v),
            Payload::ByRefR4(v) => Payload::R4(v),
            Payload::ByRefR8(v) => Payload::R8(v),
            Payload::ByRefCy(v) => Payload::Cy(v),
            Payload::ByRefDate(v) => Payload::Date(v),
            Payload::ByRefBStr(v) => Payload::BStr(v),
            Payload::ByRefError(v) => Payload::Error(v),
            Payload::ByRefBool(v) => Payload::Bool(v),
            Payload::ByRefDecimal(v) => Payload::Decimal(v),
            Payload::ByRefI1(v) => Payload::I1(v),
            Payload::ByRefUI1(v) => Payload::UI1(v),
            Payload::ByRefUI2(v) => Payload::UI2(v),
            Payload::ByRefUI4(v) => Payload::UI4(v),
            Payload::ByRefInt(v) => Payload::Int(v),
            Payload::ByRefUInt(v) => Payload::UInt(v),
            _ => self,
        }
    }
}

/// The storage of a variant: exactly one shape at a time, chosen by its tag.
enum Value<'a> {
    Empty,
    Null,
    I2(i16),
    I4(i32),
    R4(R4),
    R8(R8),
    Cy(Currency),
    Date(Date),
    BStr(BString),
    Error(HResult),
    Bool(Bool),
    Decimal(Decimal),
    I1(i8),
    UI1(u8),
    UI2(u16),
    UI4(u32),
    Int(Int),
    UInt(UInt),
    ByRefI2(&'a i16),
    ByRefI4(&'a i32),
    ByRefR4(&'a R4),
    ByRefR8(&'a R8),
    ByRefCy(&'a Currency),
    ByRefDate(&'a Date),
    ByRefBStr(&'a BString),
    ByRefError(&'a HResult),
    ByRefBool(&'a Bool),
    ByRefDecimal(&'a Decimal),
    ByRefI1(&'a i8),
    ByRefUI1(&'a u8),
    ByRefUI2(&'a u16),
    ByRefUI4(&'a u32),
    ByRefInt(&'a Int),
    ByRefUInt(&'a UInt),
}

impl<'a> Value<'a> {
    closed spec fn view(&self) -> Payload {
        match self {
            Value::Empty => Payload::Empty,
            Value::Null => Payload::Null,
            Value::I2(v) => Payload::I2(*v),
            Value::I4(v) => Payload::I4(*v),
            Value::R4(v) => Payload::R4(*v),
            Value::R8(v) => Payload::R8(*v),
            Value::Cy(v) => Payload::Cy(*v),
            Value::Date(v) => Payload::Date(*v),
            Value::BStr(v) => Payload::BStr(v@),
            Value::Error(v) => Payload::Error(*v),
            Value::Bool(v) => Payload::Bool(*v),
            Value::Decimal(v) => Payload::Decimal(*v),
            Value::I1(v) => Payload::I1(*v),
            Value::UI1(v) => Payload::UI1(*v),
            Value::UI2(v) => Payload::UI2(*v),
            Value::UI4(v) => Payload::UI4(*v),
            Value::Int(v) => Payload::Int(*v),
            Value::UInt(v) => Payload::UInt(*v),
            Value::ByRefI2(r) => Payload::ByRefI2(**r),
            Value::ByRefI4(r) => Payload::ByRefI4(**r),
            Value::ByRefR4(r) => Payload::ByRefR4(**r),
            Value::ByRefR8(r) => Payload::ByRefR8(**r),
            Value::ByRefCy(r) => Payload::ByRefCy(**r),
            Value::ByRefDate(r) => Payload::ByRefDate(**r),
            Value::ByRefBStr(r) => Payload::ByRefBStr(r@),
            Value::ByRefError(r) => Payload::ByRefError(**r),
            Value::ByRefBool(r) => Payload::ByRefBool(**r),
            Value::ByRefDecimal(r) => Payload::ByRefDecimal(**r),
            Value::ByRefI1(r) => Payload::ByRefI1(**r),
            Value::ByRefUI1(r) => Payload::ByRefUI1(**r),
            Value::ByRefUI2(r) => Payload::ByRefUI2(**r),
            Value::ByRefUI4(r) => Payload::ByRefUI4(**r),
            Value::ByRefInt(r) => Payload::ByRefInt(**r),
            Value::ByRefUInt(r) => Payload::ByRefUInt(**r),
        }
    }

    fn tag(&self) -> (t: Tag)
        ensures
            t == self.view().tag(),
    {
        match self {
            Value::Empty => Tag(VT_EMPTY),
            Value::Null => Tag(VT_NULL),
            Value::I2(_) => Tag(VT_I2),
            Value::I4(_) => Tag(VT_I4),
            Value::R4(_) => Tag(VT_R4),
            Value::R8(_) => Tag(VT_R8),
            Value::Cy(_) => Tag(VT_CY),
            Value::Date(_) => Tag(VT_DATE),
            Value::BStr(_) => Tag(VT_BSTR),
            Value::Error(_) => Tag(VT_ERROR),
            Value::Bool(_) => Tag(VT_BOOL),
            Value::Decimal(_) => Tag(VT_DECIMAL),
            Value::I1(_) => Tag(VT_I1),
            Value::UI1(_) => Tag(VT_UI1),
            Value::UI2(_) => Tag(VT_UI2),
            Value::UI4(_) => Tag(VT_UI4),
            Value::Int(_) => Tag(VT_INT),
            Value::UInt(_) => Tag(VT_UINT),
            Value::ByRefI2(_) => Tag(VT_BYREF_I2),
            Value::ByRefI4(_) => Tag(VT_BYREF_I4),
            Value::ByRefR4(_) => Tag(VT_BYREF_R4),
            Value::ByRefR8(_) => Tag(VT_BYREF_R8),
            Value::ByRefCy(_) => Tag(VT_BYREF_CY),
            Value::ByRefDate(_) => Tag(VT_BYREF_DATE),
            Value::ByRefBStr(_) => Tag(VT_BYREF_BSTR),
            Value::ByRefError(_) => Tag(VT_BYREF_ERROR),
            Value::ByRefBool(_) => Tag(VT_BYREF_BOOL),
            Value::ByRefDecimal(_) => Tag(VT_BYREF_DECIMAL),
            Value::ByRefI1(_) => Tag(VT_BYREF_I1),
            Value::ByRefUI1(_) => Tag(VT_BYREF_UI1),
            Value::ByRefUI2(_) => Tag(VT_BYREF_UI2),
            Value::ByRefUI4(_) => Tag(VT_BYREF_UI4),
            Value::ByRefInt(_) => Tag(VT_BYREF_INT),
            Value::ByRefUInt(_) => Tag(VT_BYREF_UINT),
        }
    }

    /// A copy that keeps references as references.
    fn duplicate(&self) -> (r: Value<'a>)
        ensures
            r.view() == self.view(),
    {
        match self {
            Value::Empty => Value::Empty,
            Value::Null => Value::Null,
            Value::I2(v) => Value::I2(*v),
            Value::I4(v) => Value::I4(*v),
            Value::R4(v) => Value::R4(*v),
            Value::R8(v) => Value::R8(*v),
            Value::Cy(v) => Value::Cy(*v),
            Value::Date(v) => Value::Date(*v),
            Value::BStr(v) => Value::BStr(v.clone()),
            Value::Error(v) => Value::Error(*v),
            Value::Bool(v) => Value::Bool(*v),
            Value::Decimal(v) => Value::Decimal(*v),
            Value::I1(v) => Value::I1(*v),
            Value::UI1(v) => Value::UI1(*v),
            Value::UI2(v) => Value::UI2(*v),
            Value::UI4(v) => Value::UI4(*v),
            Value::Int(v) => Value::Int(*v),
            Value::UInt(v) => Value::UInt(*v),
            Value::ByRefI2(r) => Value::ByRefI2(*r),
            Value::ByRefI4(r) => Value::ByRefI4(*r),
            Value::ByRefR4(r) => Value::ByRefR4(*r),
            Value::ByRefR8(r) => Value::ByRefR8(*r),
            Value::ByRefCy(r) => Value::ByRefCy(*r),
            Value::ByRefDate(r) => Value::ByRefDate(*r),
            Value::ByRefBStr(r) => Value::ByRefBStr(*r),
            Value::ByRefError(r) => Value::ByRefError(*r),
            Value::ByRefBool(r) => Value::ByRefBool(*r),
            Value::ByRefDecimal(r) => Value::ByRefDecimal(*r),
            Value::ByRefI1(r) => Value::ByRefI1(*r),
            Value::ByRefUI1(r) => Value::ByRefUI1(*r),
            Value::ByRefUI2(r) => Value::ByRefUI2(*r),
            Value::ByRefUI4(r) => Value::ByRefUI4(*r),
            Value::ByRefInt(r) => Value::ByRefInt(*r),
            Value::ByRefUInt(r) => Value::ByRefUInt(*r),
        }
    }

    /// A copy that follows one reference, so that it holds no references at all.
    fn deref_copy(&self) -> (r: Value<'static>)
        ensures
            r.view() == self.view().deref(),
    {
        match self {
            Value::Empty => Value::Empty,
            Value::Null => Value::Null,
            Value::I2(v) => Value::I2(*v),
            Value::I4(v) => Value::I4(*v),
            Value::R4(v) => Value::R4(*v),
            Value::R8(v) => Value::R8(*v),
            Value::Cy(v) => Value::Cy(*v),
            Value::Date(v) => Value::Date(*v),
            Value::BStr(v) => Value::BStr(v.clone()),
            Value::Error(v) => Value::Error(*v),
            Value::Bool(v) => Value::Bool(*v),
            Value::Decimal(v) => Value::Decimal(*v),
            Value::I1(v) => Value::I1(*v),
            Value::UI1(v) => Value::UI1(*v),
            Value::UI2(v) => Value::UI2(*v),
            Value::UI4(v) => Value::UI4(*v),
            Value::Int(v) => Value::Int(*v),
            Value::UInt(v) => Value::UInt(*v),
            Value::ByRefI2(r) => Value::I2(**r),
            Value::ByRefI4(r) => Value::I4(**r),
            Value::ByRefR4(r) => Value::R4(**r),
            Value::ByRefR8(r) => Value::R8(**r),
            Value::ByRefCy(r) => Value::Cy(**r),
            Value::ByRefDate(r) => Value::Date(**r),
            Value::ByRefBStr(r) => Value::BStr((*r).clone()),
            Value::ByRefError(r) => Value::Error(**r),
            Value::ByRefBool(r) => Value::Bool(**r),
            Value::ByRefDecimal(r) => Value::Decimal(**r),
            Value::ByRefI1(r) => Value::I1(**r),
            Value::ByRefUI1(r) => Value::UI1(**r),
            Value::ByRefUI2(r) => Value::UI2(**r),
            Value::ByRefUI4(r) => Value::UI4(**r),
            Value::ByRefInt(r) => Value::Int(**r),
            Value::ByRefUInt(r) => Value::UInt(**r),
        }
    }
}

/// The tagged container.
///
/// It owns what its payload owns (the characters of a string) and borrows, for `'v`,
/// what a by-reference payload points to. Every exit path releases what it owns,
/// as ordinary Rust ownership does; releasing cannot fail.
///
/// The fallible operations report errors as result codes, in the shape of the platform's
/// entry points. For the payloads that this type can hold none of them fails, and their
/// contracts say so.
pub struct Variant<'v> {
    value: Value<'v>,
}

impl<'v> View for Variant<'v> {
    type V = Payload;

    closed spec fn view(&self) -> Payload {
        self.value.view()
    }
}

/// The tag of a by-reference payload whose referent has tag `t`.
pub open spec fn by_ref_tag(t: Tag) -> Tag {
    Tag((t.0 + VT_BYREF) as u16)
}

/// A type that a variant can hold.
pub trait Type<'a>: Sized {
    /// What `borrow` hands out.
    type Borrowed;

    /// The type's tag.
    spec fn spec_tag() -> Tag;

    /// The payload of a variant made from this value.
    spec fn payload(&self) -> Payload;

    /// The payload of a variant that `b` was borrowed from.
    spec fn borrowed_payload(b: &Self::Borrowed) -> Payload;

    proof fn lemma_payload_tag(&self)
        ensures
            self.payload().tag() == Self::spec_tag(),
    ;

    /// Returns the type's tag.
    fn variant_tag() -> (t: Tag)
        ensures
            t == Self::spec_tag(),
    ;

    /// Borrows the payload of a variant tagged for this type.
    fn variant_borrow<'s>(var: &'s Variant<'a>) -> (r: &'s Self::Borrowed)
        requires
            var@.tag() == Self::spec_tag(),
        ensures
            Self::borrowed_payload(r) == var@,
    ;

    /// Takes the payload out of a variant tagged for this type.
    fn variant_into(var: Variant<'a>) -> (r: Self)
        requires
            var@.tag() == Self::spec_tag(),
        ensures
            r.payload() == var@,
    ;

    /// Makes a variant that holds this value.
    fn variant_from(self) -> (var: Variant<'a>)
        ensures
            var@ == self.payload(),
    ;
}

/// A by-value type that also has a by-reference form: `&'a Self` is then a `Type` too.
pub trait ByRef<'a>: Type<'a> + 'a {
    proof fn lemma_referable(&self)
        ensures
            !self.payload().is_by_ref(),
            self.payload().to_ref().is_by_ref(),
            self.payload().to_ref().tag() == by_ref_tag(Self::spec_tag()),
            Self::spec_tag().0 < VT_BYREF,
    ;

    /// Makes a variant that points at `r`.
    fn wrap_ref(r: &'a Self) -> (var: Variant<'a>)
        ensures
            var@ == r.payload().to_ref(),
    ;

    /// The reference that a by-reference variant holds.
    fn unwrap_ref<'s>(var: &'s Variant<'a>) -> (r: &'a Self)
        requires
            var@.tag() == by_ref_tag(Self::spec_tag()),
        ensures
            r.payload().to_ref() == var@,
    ;
}

impl<'a, T: ByRef<'a>> Type<'a> for &'a T {
    type Borrowed = T;

    open spec fn spec_tag() -> Tag {
        by_ref_tag(T::spec_tag())
    }

    open spec fn payload(&self) -> Payload {
        (**self).payload().to_ref()
    }

    open spec fn borrowed_payload(b: &T) -> Payload {
        b.payload().to_ref()
    }

    proof fn lemma_payload_tag(&self) {
        (**self).lemma_referable();
    }

    fn variant_tag() -> (t: Tag) {
        let base = T::variant_tag();
        proof {
            let x: T = arbitrary();
            x.lemma_referable();
        }
        let b: u16 = base.0;
        assert(b | 0x4000u16 == (b + 0x4000u16) as u16) by (bit_vector)
            requires
                b < 0x4000u16,
        ;
        Tag(base.0 | VT_BYREF)
    }

    fn variant_borrow<'s>(var: &'s Variant<'a>) -> (r: &'s T) {
        T::unwrap_ref(var)
    }

    fn variant_into(var: Variant<'a>) -> (r: &'a T) {
        T::unwrap_ref(&var)
    }

    fn variant_from(self) -> (var: Variant<'a>) {
        T::wrap_ref(self)
    }
}

impl<'v> Variant<'v> {
    /// Returns a new `Empty` variant.
    pub fn new() -> (r: Variant<'v>)
        ensures
            r@ == Payload::Empty,
    {
        Variant { value: Value::Empty }
    }

    /// Returns an initialized variant, which is `Empty`.
    pub fn init() -> (r: Variant<'v>)
        ensures
            r@ == Payload::Empty,
    {
        Variant::new()
    }

    /// Clears the variant and resets it to `Empty`, releasing what it owned.
    pub fn try_clear(&mut self) -> (r: Result<(), HResult>)
        ensures
            r is Ok,
            final(self)@ == Payload::Empty,
            final(self)@.tag() == Tag(VT_EMPTY),
    {
        self.value = Value::Empty;
        Ok(())
    }

    /// Creates a copy of the variant: owned payloads are duplicated, references are copied
    /// as references.
    pub fn try_clone(&self) -> (r: Result<Variant<'v>, HResult>)
        ensures
            r matches Ok(c) && c@ == self@,
    {
        Ok(Variant { value: self.value.duplicate() })
    }

    /// Copy-assigns from `source`, releasing what the variant held before.
    pub fn try_clone_from(&mut self, source: &Variant<'v>) -> (r: Result<(), HResult>)
        ensures
            r is Ok,
            final(self)@ == source@,
    {
        self.value = source.value.duplicate();
        Ok(())
    }

    /// Creates a copy of the variant that follows a by-reference payload to its referent.
    pub fn try_clone_ind(&self) -> (r: Result<Variant<'static>, HResult>)
        ensures
            r matches Ok(c) && c@ == self@.deref(),
    {
        Ok(Variant { value: self.value.deref_copy() })
    }

    /// Copy-assigns from `source`, following a by-reference payload to its referent.
    pub fn try_clone_ind_from<'s>(&mut self, source: &Variant<'s>) -> (r: Result<(), HResult>)
        ensures
            r is Ok,
            final(self)@ == source@.deref(),
    {
        self.value = source.value.deref_copy();
        Ok(())
    }

    /// Returns the tag of the variant.
    pub fn tag(&self) -> (t: Tag)
        ensures
            t == self@.tag(),
    {
        self.value.tag()
    }

    /// Returns if the variant holds a `T`.
    pub fn is<T: Type<'v>>(&self) -> (r: bool)
        ensures
            r == (self@.tag() == T::spec_tag()),
    {
        self.tag() == T::variant_tag()
    }

    /// Borrows the payload if the variant holds a `T`.
    pub fn try_borrow<T: Type<'v>>(&self) -> (r: Option<&T::Borrowed>)
        ensures
            match r {
                Some(b) => self@.tag() == T::spec_tag() && T::borrowed_payload(b) == self@,
                None => self@.tag() != T::spec_tag(),
            },
    {
        if T::variant_tag() == self.tag() {
            Some(T::variant_borrow(self))
        } else {
            None
        }
    }

    /// Borrows the payload of a variant that holds a `T`.
    pub fn borrow<T: Type<'v>>(&self) -> (r: &T::Borrowed)
        requires
            self@.tag() == T::spec_tag(),
        ensures
            T::borrowed_payload(r) == self@,
    {
        T::variant_borrow(self)
    }

    /// Takes the payload out if the variant holds a `T`; otherwise hands the variant back
    /// untouched.
    pub fn try_into<T: Type<'v>>(self) -> (r: Result<T, Variant<'v>>)
        ensures
            match r {
                Ok(v) => self@.tag() == T::spec_tag() && v.payload() == self@,
                Err(var) => self@.tag() != T::spec_tag() && var@ == self@,
            },
    {
        if T::variant_tag() == self.tag() {
            Ok(T::variant_into(self))
        } else {
            Err(self)
        }
    }

    /// Takes the payload out of a variant that holds a `T`.
    pub fn into<T: Type<'v>>(self) -> (r: T)
        requires
            self@.tag() == T::spec_tag(),
        ensures
            r.payload() == self@,
    {
        T::variant_into(self)
    }
}

/// Round trip: a variant made from `value` is tagged for `T`, so `into::<T>` accepts it, and
/// whatever `into::<T>` hands back from it holds the payload that `value` held: the same
/// number, the same bits, the same characters, or a reference to the same value.
pub proof fn lemma_round_trip<'a, T: Type<'a>>(value: T, var: Variant<'a>, back: T)
    requires
        var@ == value.payload(),
        back.payload() == var@,
    ensures
        var@.tag() == T::spec_tag(),
        back.payload() == value.payload(),
{
    value.lemma_payload_tag();
}

/// Following a reference leaves a by-value payload; a by-reference payload becomes the
/// by-value payload of its referent, with the same tag less the reference bit.
pub proof fn lemma_deref_by_value(p: Payload)
    ensures
        !p.deref().is_by_ref(),
        p.is_by_ref() ==> p.deref().to_ref() == p,
        p.is_by_ref() ==> p.deref().tag().0 + VT_BYREF == p.tag().0,
        !p.is_by_ref() ==> p.deref() == p,
{
}

/// Distinct by-value payloads have distinct by-reference forms.
pub proof fn lemma_to_ref_injective(p: Payload, q: Payload)
    requires
        !p.is_by_ref(),
        !q.is_by_ref(),
        p.to_ref().is_by_ref(),
        p.to_ref() == q.to_ref(),
    ensures
        p == q,
{
}

/// Borrowing through a reference: a variant made from `&value` and then borrowed as `&T`
/// yields a view whose payload is `value`'s, one level of indirection elided.
pub proof fn lemma_borrow_through_ref<'a, T: ByRef<'a>>(value: &'a T, var: Variant<'a>, seen: T)
    requires
        var@ == value.payload().to_ref(),
        <&'a T as Type<'a>>::borrowed_payload(&seen) == var@,
    ensures
        var@.tag() == <&'a T as Type<'a>>::spec_tag(),
        seen.payload() == value.payload(),
{
    value.lemma_referable();
    seen.lemma_referable();
    lemma_to_ref_injective(seen.payload(), value.payload());
}

impl<'v> Default for Variant<'v> {
    fn default() -> (r: Variant<'v>)
        ensures
            r@ == Payload::Empty,
    {
        Variant::init()
    }
}

/// Makes a variant that holds `val`, tagged for `T`.
impl<'v, T: Type<'v>> From<T> for Variant<'v> {
    fn from(val: T) -> (r: Variant<'v>)
        ensures
            r@ == val.payload(),
            r@.tag() == T::spec_tag(),
    {
        proof {
            val.lemma_payload_tag();
        }
        val.variant_from()
    }
}

/// `from`'s own `ensures` states what it returns, over the payload view: a variant's owned
/// storage has no spec-level value to name here, so the generic spec is switched off and
/// left unspecified.
impl<'v, T: Type<'v>> vstd::std_specs::convert::FromSpecImpl<T> for Variant<'v> {
    open spec fn obeys_from_spec() -> bool {
        false
    }

    closed spec fn from_spec(v: T) -> Variant<'v> {
        arbitrary()
    }
}

impl<'a> Type<'a> for Empty {
    type Borrowed = Empty;

    open spec fn spec_tag() -> Tag {
        Tag(VT_EMPTY)
    }

    open spec fn payload(&self) -> Payload {
        Payload::Empty
    }

    open spec fn borrowed_payload(b: &Empty) -> Payload {
        Payload::Empty
    }

    proof fn lemma_payload_tag(&self) {
    }

    fn variant_tag() -> (t: Tag) {
        Tag(VT_EMPTY)
    }

    fn variant_borrow<'s>(var: &'s Variant<'a>) -> (r: &'s Empty) {
        &Empty
    }

    fn variant_into(var: Variant<'a>) -> (r: Empty) {
        Empty
    }

    fn variant_from(self) -> (var: Variant<'a>) {
        Variant { value: Value::Empty }
    }
}

impl<'a> Type<'a> for Null {
    type Borrowed = Null;

    open spec fn spec_tag() -> Tag {
        Tag(VT_NULL)
    }

    open spec fn payload(&self) -> Payload {
        Payload::Null
    }

    open spec fn borrowed_payload(b: &Null) -> Payload {
        Payload::Null
    }

    proof fn lemma_payload_tag(&self) {
    }

    fn variant_tag() -> (t: Tag) {
        Tag(VT_NULL)
    }

    fn variant_borrow<'s>(var: &'s Variant<'a>) -> (r: &'s Null) {
        &Null
    }

    fn variant_into(var: Variant<'a>) -> (r: Null) {
        Null
    }

    fn variant_from(self) -> (var: Variant<'a>) {
        Variant { value: Value::Null }
    }
}

impl<'a> Type<'a> for i16 {
    type Borrowed = i16;

    open spec fn spec_tag() -> Tag {
        Tag(VT_I2)
    }

    open spec fn payload(&self) -> Payload {
        Payload::I2(*self)
    }

    open spec fn borrowed_payload(b: &i16) -> Payload {
        Payload::I2(*b)
    }

    proof fn lemma_payload_tag(&self) {
    }

    fn variant_tag() -> (t: Tag) {
        Tag(VT_I2)
    }

    fn variant_borrow<'s>(var: &'s Variant<'a>) -> (r: &'s i16) {
        match &var.value {
            Value::I2(v) => v,
            _ => vstd::pervasive::unreached(),
        }
    }

    fn variant_into(var: Variant<'a>) -> (r: i16) {
        match var.value {
            Value::I2(v) => v,
            _ => vstd::pervasive::unreached(),
        }
    }

    fn variant_from(self) -> (var: Variant<'a>) {
        Variant { value: Value::I2(self) }
    }
}

impl<'a> ByRef<'a> for i16 {
    proof fn lemma_referable(&self) {
    }

    fn wrap_ref(r: &'a i16) -> (var: Variant<'a>) {
        Variant { value: Value::ByRefI2(r) }
    }

    fn unwrap_ref<'s>(var: &'s Variant<'a>) -> (r: &'a i16) {
        match &var.value {
            Value::ByRefI2(r) => *r,
            _ => vstd::pervasive::unreached(),
        }
    }
}

impl<'a> Type<'a> for i32 {
    type Borrowed = i32;

    open spec fn spec_tag() -> Tag {
        Tag(VT_I4)
    }

    open spec fn payload(&self) -> Payload {
        Payload::I4(*self)
    }

    open spec fn borrowed_payload(b: &i32) -> Payload {
        Payload::I4(*b)
    }

    proof fn lemma_payload_tag(&self) {
    }

    fn variant_tag() -> (t: Tag) {
        Tag(VT_I4)
    }

    fn variant_borrow<'s>(var: &'s Variant<'a>) -> (r: &'s i32) {
        match &var.value {
            Value::I4(v) => v,
            _ => vstd::pervasive::unreached(),
        }
    }

    fn variant_into(var: Variant<'a>) -> (r: i32) {
        match var.value {
            Value::I4(v) => v,
            _ => vstd::pervasive::unreached(),
        }
    }

    fn variant_from(self) -> (var: Variant<'a>) {
        Variant { value: Value::I4(self) }
    }
}

impl<'a> ByRef<'a> for i32 {
    proof fn lemma_referable(&self) {
    }

    fn wrap_ref(r: &'a i32) -> (var: Variant<'a>) {
        Variant { value: Value::ByRefI4(r) }
    }

    fn unwrap_ref<'s>(var: &'s Variant<'a>) -> (r: &'a i32) {
        match &var.value {
            Value::ByRefI4(r) => *r,
            _ => vstd::pervasive::unreached(),
        }
    }
}

impl<'a> Type<'a> for R4 {
    type Borrowed = R4;

    open spec fn spec_tag() -> Tag {
        Tag(VT_R4)
    }

    open spec fn payload(&self) -> Payload {
        Payload::R4(*self)
    }

    open spec fn borrowed_payload(b: &R4) -> Payload {
        Payload::R4(*b)
    }

    proof fn lemma_payload_tag(&self) {
    }

    fn variant_tag() -> (t: Tag) {
        Tag(VT_R4)
    }

    fn variant_borrow<'s>(var: &'s Variant<'a>) -> (r: &'s R4) {
        match &var.value {
            Value::R4(v) => v,
            _ => vstd::pervasive::unreached(),
        }
    }

    fn variant_into(var: Variant<'a>) -> (r: R4) {
        match var.value {
            Value::R4(v) => v,
            _ => vstd::pervasive::unreached(),
        }
    }

    fn variant_from(self) -> (var: Variant<'a>) {
        Variant { value: Value::R4(self) }
    }
}

impl<'a> ByRef<'a> for R4 {
    proof fn lemma_referable(&self) {
    }

    fn wrap_ref(r: &'a R4) -> (var: Variant<'a>) {
        Variant { value: Value::ByRefR4(r) }
    }

    fn unwrap_ref<'s>(var: &'s Variant<'a>) -> (r: &'a R4) {
        match &var.value {
            Value::ByRefR4(r) => *r,
            _ => vstd::pervasive::unreached(),
        }
    }
}

impl<'a> Type<'a> for R8 {
    type Borrowed = R8;

    open spec fn spec_tag() -> Tag {
        Tag(VT_R8)
    }

    open spec fn payload(&self) -> Payload {
        Payload::R8(*self)
    }

    open spec fn borrowed_payload(b: &R8) -> Payload {
        Payload::R8(*b)
    }

    proof fn lemma_payload_tag(&self) {
    }

    fn variant_tag() -> (t: Tag) {
        Tag(VT_R8)
    }

    fn variant_borrow<'s>(var: &'s Variant<'a>) -> (r: &'s R8) {
        match &var.value {
            Value::R8(v) => v,
            _ => vstd::pervasive::unreached(),
        }
    }

    fn variant_into(var: Variant<'a>) -> (r: R8) {
        match var.value {
            Value::R8(v) => v,
            _ => vstd::pervasive::unreached(),
        }
    }

    fn variant_from(self) -> (var: Variant<'a>) {
        Variant { value: Value::R8(self) }
    }
}

impl<'a> ByRef<'a> for R8 {
    proof fn lemma_referable(&self) {
    }

    fn wrap_ref(r: &'a R8) -> (var: Variant<'a>) {
        Variant { value: Value::ByRefR8(r) }
    }

    fn unwrap_ref<'s>(var: &'s Variant<'a>) -> (r: &'a R8) {
        match &var.value {
            Value::ByRefR8(r) => *r,
            _ => vstd::pervasive::unreached(),
        }
    }
}

impl<'a> Type<'a> for Currency {
    type Borrowed = Currency;

    open spec fn spec_tag() -> Tag {
        Tag(VT_CY)
    }

    open spec fn payload(&self) -> Payload {
        Payload::Cy(*self)
    }

    open spec fn borrowed_payload(b: &Currency) -> Payload {
        Payload::Cy(*b)
    }

    proof fn lemma_payload_tag(&self) {
    }

    fn variant_tag() -> (t: Tag) {
        Tag(VT_CY)
    }

    fn variant_borrow<'s>(var: &'s Variant<'a>) -> (r: &'s Currency) {
        match &var.value {
            Value::Cy(v) => v,
            _ => vstd::pervasive::unreached(),
        }
    }

    fn variant_into(var: Variant<'a>) -> (r: Currency) {
        match var.value {
            Value::Cy(v) => v,
            _ => vstd::pervasive::unreached(),
        }
    }

    fn variant_from(self) -> (var: Variant<'a>) {
        Variant { value: Value::Cy(self) }
    }
}

impl<'a> ByRef<'a> for Currency {
    proof fn lemma_referable(&self) {
    }

    fn wrap_ref(r: &'a Currency) -> (var: Variant<'a>) {
        Variant { value: Value::ByRefCy(r) }
    }

    fn unwrap_ref<'s>(var: &'s Variant<'a>) -> (r: &'a Currency) {
        match &var.value {
            Value::ByRefCy(r) => *r,
            _ => vstd::pervasive::unreached(),
        }
    }
}

impl<'a> Type<'a> for Date {
    type Borrowed = Date;

    open spec fn spec_tag() -> Tag {
        Tag(VT_DATE)
    }

    open spec fn payload(&self) -> Payload {
        Payload::Date(*self)
    }

    open spec fn borrowed_payload(b: &Date) -> Payload {
        Payload::Date(*b)
    }

    proof fn lemma_payload_tag(&self) {
    }

    fn variant_tag() -> (t: Tag) {
        Tag(VT_DATE)
    }

    fn variant_borrow<'s>(var: &'s Variant<'a>) -> (r: &'s Date) {
        match &var.value {
            Value::Date(v) => v,
            _ => vstd::pervasive::unreached(),
        }
    }

    fn variant_into(var: Variant<'a>) -> (r: Date) {
        match var.value {
            Value::Date(v) => v,
            _ => vstd::pervasive::unreached(),
        }
    }

    fn variant_from(self) -> (var: Variant<'a>) {
        Variant { value: Value::Date(self) }
    }
}

impl<'a> ByRef<'a> for Date {
    proof fn lemma_referable(&self) {
    }

    fn wrap_ref(r: &'a Date) -> (var: Variant<'a>) {
        Variant { value: Value::ByRefDate(r) }
    }

    fn unwrap_ref<'s>(var: &'s Variant<'a>) -> (r: &'a Date) {
        match &var.value {
            Value::ByRefDate(r) => *r,
            _ => vstd::pervasive::unreached(),
        }
    }
}

impl<'a> Type<'a> for BString {
    type Borrowed = BString;

    open spec fn spec_tag() -> Tag {
        Tag(VT_BSTR)
    }

    open spec fn payload(&self) -> Payload {
        Payload::BStr(self@)
    }

    open spec fn borrowed_payload(b: &BString) -> Payload {
        Payload::BStr(b@)
    }

    proof fn lemma_payload_tag(&self) {
    }

    fn variant_tag() -> (t: Tag) {
        Tag(VT_BSTR)
    }

    fn variant_borrow<'s>(var: &'s Variant<'a>) -> (r: &'s BString) {
        match &var.value {
            Value::BStr(v) => v,
            _ => vstd::pervasive::unreached(),
        }
    }

    fn variant_into(var: Variant<'a>) -> (r: BString) {
        match var.value {
            Value::BStr(v) => v,
            _ => vstd::pervasive::unreached(),
        }
    }

    fn variant_from(self) -> (var: Variant<'a>) {
        Variant { value: Value::BStr(self) }
    }
}

impl<'a> ByRef<'a> for BString {
    proof fn lemma_referable(&self) {
    }

    fn wrap_ref(r: &'a BString) -> (var: Variant<'a>) {
        Variant { value: Value::ByRefBStr(r) }
    }

    fn unwrap_ref<'s>(var: &'s Variant<'a>) -> (r: &'a BString) {
        match &var.value {
            Value::ByRefBStr(r) => *r,
            _ => vstd::pervasive::unreached(),
        }
    }
}

impl<'a> Type<'a> for HResult {
    type Borrowed = HResult;

    open spec fn spec_tag() -> Tag {
        Tag(VT_ERROR)
    }

    open spec fn payload(&self) -> Payload {
        Payload::Error(*self)
    }

    open spec fn borrowed_payload(b: &HResult) -> Payload {
        Payload::Error(*b)
    }

    proof fn lemma_payload_tag(&self) {
    }

    fn variant_tag() -> (t: Tag) {
        Tag(VT_ERROR)
    }

    fn variant_borrow<'s>(var: &'s Variant<'a>) -> (r: &'s HResult) {
        match &var.value {
            Value::Error(v) => v,
            _ => vstd::pervasive::unreached(),
        }
    }

    fn variant_into(var: Variant<'a>) -> (r: HResult) {
        match var.value {
            Value::Error(v) => v,
            _ => vstd::pervasive::unreached(),
        }
    }

    fn variant_from(self) -> (var: Variant<'a>) {
        Variant { value: Value::Error(self) }
    }
}

impl<'a> ByRef<'a> for HResult {
    proof fn lemma_referable(&self) {
    }

    fn wrap_ref(r: &'a HResult) -> (var: Variant<'a>) {
        Variant { value: Value::ByRefError(r) }
    }

    fn unwrap_ref<'s>(var: &'s Variant<'a>) -> (r: &'a HResult) {
        match &var.value {
            Value::ByRefError(r) => *r,
            _ => vstd::pervasive::unreached(),
        }
    }
}

impl<'a> Type<'a> for Bool {
    type Borrowed = Bool;

    open spec fn spec_tag() -> Tag {
        Tag(VT_BOOL)
    }

    open spec fn payload(&self) -> Payload {
        Payload::Bool(*self)
    }

    open spec fn borrowed_payload(b: &Bool) -> Payload {
        Payload::Bool(*b)
    }

    proof fn lemma_payload_tag(&self) {
    }

    fn variant_tag() -> (t: Tag) {
        Tag(VT_BOOL)
    }

    fn variant_borrow<'s>(var: &'s Variant<'a>) -> (r: &'s Bool) {
        match &var.value {
            Value::Bool(v) => v,
            _ => vstd::pervasive::unreached(),
        }
    }

    fn variant_into(var: Variant<'a>) -> (r: Bool) {
        match var.value {
            Value::Bool(v) => v,
            _ => vstd::pervasive::unreached(),
        }
    }

    fn variant_from(self) -> (var: Variant<'a>) {
        Variant { value: Value::Bool(self) }
    }
}

impl<'a> ByRef<'a> for Bool {
    proof fn lemma_referable(&self) {
    }

    fn wrap_ref(r: &'a Bool) -> (var: Variant<'a>) {
        Variant { value: Value::ByRefBool(r) }
    }

    fn unwrap_ref<'s>(var: &'s Variant<'a>) -> (r: &'a Bool) {
        match &var.value {
            Value::ByRefBool(r) => *r,
            _ => vstd::pervasive::unreached(),
        }
    }
}

impl<'a> Type<'a> for Decimal {
    type Borrowed = Decimal;

    open spec fn spec_tag() -> Tag {
        Tag(VT_DECIMAL)
    }

    open spec fn payload(&self) -> Payload {
        Payload::Decimal(*self)
    }

    open spec fn borrowed_payload(b: &Decimal) -> Payload {
        Payload::Decimal(*b)
    }

    proof fn lemma_payload_tag(&self) {
    }

    fn variant_tag() -> (t: Tag) {
        Tag(VT_DECIMAL)
    }

    fn variant_borrow<'s>(var: &'s Variant<'a>) -> (r: &'s Decimal) {
        match &var.value {
            Value::Decimal(v) => v,
            _ => vstd::pervasive::unreached(),
        }
    }

    fn variant_into(var: Variant<'a>) -> (r: Decimal) {
        match var.value {
            Value::Decimal(v) => v,
            _ => vstd::pervasive::unreached(),
        }
    }

    fn variant_from(self) -> (var: Variant<'a>) {
        Variant { value: Value::Decimal(self) }
    }
}

impl<'a> ByRef<'a> for Decimal {
    proof fn lemma_referable(&self) {
    }

    fn wrap_ref(r: &'a Decimal) -> (var: Variant<'a>) {
        Variant { value: Value::ByRefDecimal(r) }
    }

    fn unwrap_ref<'s>(var: &'s Variant<'a>) -> (r: &'a Decimal) {
        match &var.value {
            Value::ByRefDecimal(r) => *r,
            _ => vstd::pervasive::unreached(),
        }
    }
}

impl<'a> Type<'a> for i8 {
    type Borrowed = i8;

    open spec fn spec_tag() -> Tag {
        Tag(VT_I1)
    }

    open spec fn payload(&self) -> Payload {
        Payload::I1(*self)
    }

    open spec fn borrowed_payload(b: &i8) -> Payload {
        Payload::I1(*b)
    }

    proof fn lemma_payload_tag(&self) {
    }

    fn variant_tag() -> (t: Tag) {
        Tag(VT_I1)
    }

    fn variant_borrow<'s>(var: &'s Variant<'a>) -> (r: &'s i8) {
        match &var.value {
            Value::I1(v) => v,
            _ => vstd::pervasive::unreached(),
        }
    }

    fn variant_into(var: Variant<'a>) -> (r: i8) {
        match var.value {
            Value::I1(v) => v,
            _ => vstd::pervasive::unreached(),
        }
    }

    fn variant_from(self) -> (var: Variant<'a>) {
        Variant { value: Value::I1(self) }
    }
}

impl<'a> ByRef<'a> for i8 {
    proof fn lemma_referable(&self) {
    }

    fn wrap_ref(r: &'a i8) -> (var: Variant<'a>) {
        Variant { value: Value::ByRefI1(r) }
    }

    fn unwrap_ref<'s>(var: &'s Variant<'a>) -> (r: &'a i8) {
        match &var.value {
            Value::ByRefI1(r) => *r,
            _ => vstd::pervasive::unreached(),
        }
    }
}

impl<'a> Type<'a> for u8 {
    type Borrowed = u8;

    open spec fn spec_tag() -> Tag {
        Tag(VT_UI1)
    }

    open spec fn payload(&self) -> Payload {
        Payload::UI1(*self)
    }

    open spec fn borrowed_payload(b: &u8) -> Payload {
        Payload::UI1(*b)
    }

    proof fn lemma_payload_tag(&self) {
    }

    fn variant_tag() -> (t: Tag) {
        Tag(VT_UI1)
    }

    fn variant_borrow<'s>(var: &'s Variant<'a>) -> (r: &'s u8) {
        match &var.value {
            Value::UI1(v) => v,
            _ => vstd::pervasive::unreached(),
        }
    }

    fn variant_into(var: Variant<'a>) -> (r: u8) {
        match var.value {
            Value::UI1(v) => v,
            _ => vstd::pervasive::unreached(),
        }
    }

    fn variant_from(self) -> (var: Variant<'a>) {
        Variant { value: Value::UI1(self) }
    }
}

impl<'a> ByRef<'a> for u8 {
    proof fn lemma_referable(&self) {
    }

    fn wrap_ref(r: &'a u8) -> (var: Variant<'a>) {
        Variant { value: Value::ByRefUI1(r) }
    }

    fn unwrap_ref<'s>(var: &'s Variant<'a>) -> (r: &'a u8) {
        match &var.value {
            Value::ByRefUI1(r) => *r,
            _ => vstd::pervasive::unreached(),
        }
    }
}

impl<'a> Type<'a> for u16 {
    type Borrowed = u16;

    open spec fn spec_tag() -> Tag {
        Tag(VT_UI2)
    }

    open spec fn payload(&self) -> Payload {
        Payload::UI2(*self)
    }

    open spec fn borrowed_payload(b: &u16) -> Payload {
        Payload::UI2(*b)
    }

    proof fn lemma_payload_tag(&self) {
    }

    fn variant_tag() -> (t: Tag) {
        Tag(VT_UI2)
    }

    fn variant_borrow<'s>(var: &'s Variant<'a>) -> (r: &'s u16) {
        match &var.value {
            Value::UI2(v) => v,
            _ => vstd::pervasive::unreached(),
        }
    }

    fn variant_into(var: Variant<'a>) -> (r: u16) {
        match var.value {
            Value::UI2(v) => v,
            _ => vstd::pervasive::unreached(),
        }
    }

    fn variant_from(self) -> (var: Variant<'a>) {
        Variant { value: Value::UI2(self) }
    }
}

impl<'a> ByRef<'a> for u16 {
    proof fn lemma_referable(&self) {
    }

    fn wrap_ref(r: &'a u16) -> (var: Variant<'a>) {
        Variant { value: Value::ByRefUI2(r) }
    }

    fn unwrap_ref<'s>(var: &'s Variant<'a>) -> (r: &'a u16) {
        match &var.value {
            Value::ByRefUI2(r) => *r,
            _ => vstd::pervasive::unreached(),
        }
    }
}

impl<'a> Type<'a> for u32 {
    type Borrowed = u32;

    open spec fn spec_tag() -> Tag {
        Tag(VT_UI4)
    }

    open spec fn payload(&self) -> Payload {
        Payload::UI4(*self)
    }

    open spec fn borrowed_payload(b: &u32) -> Payload {
        Payload::UI4(*b)
    }

    proof fn lemma_payload_tag(&self) {
    }

    fn variant_tag() -> (t: Tag) {
        Tag(VT_UI4)
    }

    fn variant_borrow<'s>(var: &'s Variant<'a>) -> (r: &'s u32) {
        match &var.value {
            Value::UI4(v) => v,
            _ => vstd::pervasive::unreached(),
        }
    }

    fn variant_into(var: Variant<'a>) -> (r: u32) {
        match var.value {
            Value::UI4(v) => v,
            _ => vstd::pervasive::unreached(),
        }
    }

    fn variant_from(self) -> (var: Variant<'a>) {
        Variant { value: Value::UI4(self) }
    }
}

impl<'a> ByRef<'a> for u32 {
    proof fn lemma_referable(&self) {
    }

    fn wrap_ref(r: &'a u32) -> (var: Variant<'a>) {
        Variant { value: Value::ByRefUI4(r) }
    }

    fn unwrap_ref<'s>(var: &'s Variant<'a>) -> (r: &'a u32) {
        match &var.value {
            Value::ByRefUI4(r) => *r,
            _ => vstd::pervasive::unreached(),
        }
    }
}

impl<'a> Type<'a> for Int {
    type Borrowed = Int;

    open spec fn spec_tag() -> Tag {
        Tag(VT_INT)
    }

    open spec fn payload(&self) -> Payload {
        Payload::Int(*self)
    }

    open spec fn borrowed_payload(b: &Int) -> Payload {
        Payload::Int(*b)
    }

    proof fn lemma_payload_tag(&self) {
    }

    fn variant_tag() -> (t: Tag) {
        Tag(VT_INT)
    }

    fn variant_borrow<'s>(var: &'s Variant<'a>) -> (r: &'s Int) {
        match &var.value {
            Value::Int(v) => v,
            _ => vstd::pervasive::unreached(),
        }
    }

    fn variant_into(var: Variant<'a>) -> (r: Int) {
        match var.value {
            Value::Int(v) => v,
            _ => vstd::pervasive::unreached(),
        }
    }

    fn variant_from(self) -> (var: Variant<'a>) {
        Variant { value: Value::Int(self) }
    }
}

impl<'a> ByRef<'a> for Int {
    proof fn lemma_referable(&self) {
    }

    fn wrap_ref(r: &'a Int) -> (var: Variant<'a>) {
        Variant { value: Value::ByRefInt(r) }
    }

    fn unwrap_ref<'s>(var: &'s Variant<'a>) -> (r: &'a Int) {
        match &var.value {
            Value::ByRefInt(r) => *r,
            _ => vstd::pervasive::unreached(),
        }
    }
}

impl<'a> Type<'a> for UInt {
    type Borrowed = UInt;

    open spec fn spec_tag() -> Tag {
        Tag(VT_UINT)
    }

    open spec fn payload(&self) -> Payload {
        Payload::UInt(*self)
    }

    open spec fn borrowed_payload(b: &UInt) -> Payload {
        Payload::UInt(*b)
    }

    proof fn lemma_payload_tag(&self) {
    }

    fn variant_tag() -> (t: Tag) {
        Tag(VT_UINT)
    }

    fn variant_borrow<'s>(var: &'s Variant<'a>) -> (r: &'s UInt) {
        match &var.value {
            Value::UInt(v) => v,
            _ => vstd::pervasive::unreached(),
        }
    }

    fn variant_into(var: Variant<'a>) -> (r: UInt) {
        match var.value {
            Value::UInt(v) => v,
            _ => vstd::pervasive::unreached(),
        }
    }

    fn variant_from(self) -> (var: Variant<'a>) {
        Variant { value: Value::UInt(self) }
    }
}

impl<'a> ByRef<'a> for UInt {
    proof fn lemma_referable(&self) {
    }

    fn wrap_ref(r: &'a UInt) -> (var: Variant<'a>) {
        Variant { value: Value::ByRefUInt(r) }
    }

    fn unwrap_ref<'s>(var: &'s Variant<'a>) -> (r: &'a UInt) {
        match &var.value {
            Value::ByRefUInt(r) => *r,
            _ => vstd::pervasive::unreached(),
        }
    }
}

} // verus!
