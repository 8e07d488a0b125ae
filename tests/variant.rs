use com_types::bool::Bool;
use com_types::bstr::BString;
use com_types::currency::Currency;
use com_types::date::Date;
use com_types::decimal::Decimal;
use com_types::types::{Empty, Int, Null, UInt, R4, R8};
use com_types::vt::{
    VT_BOOL, VT_BSTR, VT_BYREF_BSTR, VT_BYREF_I4, VT_BYREF_UINT, VT_EMPTY, VT_I2, VT_I4, VT_NULL, VT_R4,
};
use com_types::{FromInner, HResult, IntoInner, Tag, Type, Variant};

fn wide(s: &str) -> Vec<u16> {
    s.encode_utf16().collect()
}

#[test]
fn lib_units() {
    let empty = Variant::new();
    assert_eq!(empty.into::<Empty>(), Empty);
}

#[test]
fn scenario_empty_number_string_reference() {
    let empty = Variant::new();
    assert_eq!(empty.tag(), Tag(VT_EMPTY));
    assert_eq!(empty.into::<Empty>(), Empty);

    let v = Variant::from(42i32);
    assert_eq!(v.tag(), Tag(VT_I4));
    let v = match v.try_into::<R4>() {
        Ok(_) => panic!("a 32-bit integer read as a float"),
        Err(v) => v,
    };
    assert_eq!(v.into::<i32>(), 42);

    let s = Variant::from(BString::from_str("abc"));
    let c = s.try_clone().unwrap();
    drop(s);
    assert_eq!(c.borrow::<BString>().as_wide(), &wide("abc")[..]);
    assert_eq!(c.into::<BString>().as_wide(), &wide("abc")[..]);

    let seven: i32 = 7;
    let r = Variant::from(&seven);
    assert_eq!(*r.borrow::<&i32>(), 7);
}

#[test]
fn round_trip_scalars() {
    assert_eq!(Variant::from(Null).into::<Null>(), Null);
    assert_eq!(Variant::from(0i16).into::<i16>(), 0);
    assert_eq!(Variant::from(-5i16).into::<i16>(), -5);
    assert_eq!(Variant::from(0i32).into::<i32>(), 0);
    assert_eq!(Variant::from(i32::MIN).into::<i32>(), i32::MIN);
    assert_eq!(Variant::from(0i8).into::<i8>(), 0);
    assert_eq!(Variant::from(-128i8).into::<i8>(), -128);
    assert_eq!(Variant::from(0u8).into::<u8>(), 0);
    assert_eq!(Variant::from(255u8).into::<u8>(), 255);
    assert_eq!(Variant::from(0u16).into::<u16>(), 0);
    assert_eq!(Variant::from(65535u16).into::<u16>(), 65535);
    assert_eq!(Variant::from(0u32).into::<u32>(), 0);
    assert_eq!(Variant::from(u32::MAX).into::<u32>(), u32::MAX);
    assert_eq!(Variant::from(Int::from_inner(0)).into::<Int>().into_inner(), 0);
    assert_eq!(Variant::from(Int::from_inner(-9)).into::<Int>().into_inner(), -9);
    assert_eq!(Variant::from(UInt::from_inner(0)).into::<UInt>().into_inner(), 0);
    assert_eq!(Variant::from(UInt::from_inner(9)).into::<UInt>().into_inner(), 9);
}

#[test]
fn round_trip_wrapped() {
    let r4 = Variant::from(R4(1.5f32.to_bits())).into::<R4>();
    assert_eq!(f32::from_bits(r4.0), 1.5);
    let r4 = Variant::from(R4(0f32.to_bits())).into::<R4>();
    assert_eq!(f32::from_bits(r4.0), 0.0);
    let r8 = Variant::from(R8((-2.25f64).to_bits())).into::<R8>();
    assert_eq!(f64::from_bits(r8.0), -2.25);
    let cy = Variant::from(Currency::from(12_3400i64)).into::<Currency>();
    assert_eq!(i64::from(cy), 12_3400);
    let date = Variant::from(Date(45000.5f64.to_bits())).into::<Date>();
    assert_eq!(f64::from_bits(date.0), 45000.5);
    let err = Variant::from(HResult(0x8007_0057)).into::<HResult>();
    assert_eq!(err, HResult(0x8007_0057));
    assert!(bool::from(Variant::from(Bool::from(true)).into::<Bool>()));
    assert!(!bool::from(Variant::from(Bool::from(false)).into::<Bool>()));
    let dec = Decimal { scale: 2, sign: 0x80, hi32: 1, lo64: 5 };
    assert_eq!(Variant::from(dec).into::<Decimal>(), dec);
}

#[test]
fn round_trip_strings() {
    let empty = Variant::from(BString::new());
    assert_eq!(empty.tag(), Tag(VT_BSTR));
    assert!(empty.into::<BString>().is_empty());
    let hello = Variant::from(BString::from_str("hello"));
    assert_eq!(hello.into::<BString>().as_wide(), &wide("hello")[..]);
}

#[test]
fn try_into_mismatch_returns_container_unchanged() {
    let v = Variant::from(BString::from_str("keep"));
    let v = match v.try_into::<i32>() {
        Ok(_) => panic!("a string read as an integer"),
        Err(v) => v,
    };
    assert_eq!(v.tag(), Tag(VT_BSTR));
    let v = match v.try_into::<&BString>() {
        Ok(_) => panic!("a string read as a reference"),
        Err(v) => v,
    };
    assert_eq!(v.into::<BString>().as_wide(), &wide("keep")[..]);

    let n = Variant::from(3i16);
    let n = n.try_into::<Empty>().err().unwrap();
    assert_eq!(n.try_into::<i16>().ok(), Some(3));
}

#[test]
fn try_clear_resets_to_empty() {
    let mut a = Variant::from(BString::from_str("abc"));
    assert_eq!(a.try_clear(), Ok(()));
    assert_eq!(a.tag(), Tag(VT_EMPTY));
    let x: u32 = 4;
    let mut b = Variant::from(&x);
    assert_eq!(b.try_clear(), Ok(()));
    assert_eq!(b.tag(), Tag(VT_EMPTY));
    let mut c = Variant::new();
    assert_eq!(c.try_clear(), Ok(()));
    assert_eq!(c.tag(), Tag(VT_EMPTY));
    assert!(c.is::<Empty>());
}

#[test]
fn try_clone_is_independent() {
    let source = Variant::from(BString::from_str("abc"));
    let mut copy = source.try_clone().unwrap();
    assert_eq!(copy.tag(), Tag(VT_BSTR));
    copy.try_clear().unwrap();
    assert_eq!(source.borrow::<BString>().as_wide(), &wide("abc")[..]);
    let mut target = Variant::from(1i32);
    target.try_clone_from(&source).unwrap();
    drop(source);
    assert_eq!(target.into::<BString>().as_wide(), &wide("abc")[..]);
}

#[test]
fn try_clone_keeps_references() {
    let x: i32 = 11;
    let r = Variant::from(&x);
    let c = r.try_clone().unwrap();
    assert_eq!(c.tag(), Tag(VT_BYREF_I4));
    assert_eq!(*c.into::<&i32>(), 11);
}

#[test]
fn try_clone_ind_dereferences() {
    let x: i32 = 7;
    let r = Variant::from(&x);
    let c = r.try_clone_ind().unwrap();
    assert_eq!(c.tag(), Tag(VT_I4));
    assert_eq!(c.into::<i32>(), 7);

    let s = BString::from_str("abc");
    let rs = Variant::from(&s);
    assert_eq!(rs.tag(), Tag(VT_BYREF_BSTR));
    let cs = rs.try_clone_ind().unwrap();
    assert_eq!(cs.tag(), Tag(VT_BSTR));
    assert_eq!(cs.into::<BString>().as_wide(), &wide("abc")[..]);

    let by_value = Variant::from(5i16);
    assert_eq!(by_value.try_clone_ind().unwrap().into::<i16>(), 5);

    let mut target = Variant::new();
    target.try_clone_ind_from(&rs).unwrap();
    assert_eq!(target.tag(), Tag(VT_BSTR));
}

#[test]
fn borrow_through_reference() {
    let u = UInt::from_inner(99);
    let v = Variant::from(&u);
    assert_eq!(v.tag(), Tag(VT_BYREF_UINT));
    assert_eq!(v.borrow::<&UInt>().into_inner(), 99);
    let s = BString::from_str("ref");
    let vs = Variant::from(&s);
    assert_eq!(vs.borrow::<&BString>().as_wide(), &wide("ref")[..]);
    assert!(vs.try_borrow::<BString>().is_none());
    assert_eq!(vs.into::<&BString>().as_wide(), &wide("ref")[..]);
}

#[test]
fn tags_of_types() {
    assert_eq!(<Empty as Type>::variant_tag(), Tag(VT_EMPTY));
    assert_eq!(<Null as Type>::variant_tag(), Tag(VT_NULL));
    assert_eq!(<i16 as Type>::variant_tag(), Tag(VT_I2));
    assert_eq!(<R4 as Type>::variant_tag(), Tag(VT_R4));
    assert_eq!(<Bool as Type>::variant_tag(), Tag(VT_BOOL));
    assert_eq!(<&i32 as Type>::variant_tag(), Tag(VT_BYREF_I4));
    assert_eq!(<&BString as Type>::variant_tag(), Tag(0x4008));
    let v = Variant::default();
    assert!(v.is::<Empty>());
    assert!(!v.is::<Null>());
    assert_eq!(Variant::init().tag(), Tag(VT_EMPTY));
    let b = Variant::from(Bool::from(true));
    assert!(b.try_borrow::<Bool>().is_some());
    assert!(b.try_borrow::<i32>().is_none());
}
