use com_types::array::{ArrSlice, ElemTag, ElemType};
use com_types::barray::BArray;
use com_types::bool::Bool;
use com_types::bstr::{BString, IntoBString, NullBStr};
use com_types::currency::Currency;
use com_types::timeout::{Timeout, INFINITE};
use com_types::vt::VT_BSTR;
use com_types::FromInner;

fn wide(s: &str) -> Vec<u16> {
    s.encode_utf16().collect()
}

fn equal<const N: usize>(s: &str) {
    let barr = BArray::<N>::from_str(s);
    assert_eq!(barr.as_wide(), &wide(s)[..]);
}

#[test]
fn barray_units() {
    equal::<32>("hello, world :)");
    equal::<21>("filled to capacity");
}

#[test]
fn barray_empty_and_reset() {
    let mut barr = BArray::<8>::new();
    assert!(barr.as_wide().is_empty());
    barr.set_from(&wide("abcde"));
    assert_eq!(barr.as_wide(), &wide("abcde")[..]);
    barr.set_from(&wide("xy"));
    assert_eq!(barr.as_wide(), &wide("xy")[..]);
    barr.set("hello");
    assert_eq!(barr.as_wide(), &wide("hello")[..]);
    barr.set("");
    assert!(barr.as_wide().is_empty());
    let smallest = BArray::<3>::from_wide(&[]);
    assert!(smallest.as_wide().is_empty());
}

#[test]
fn bstring_units() {
    let _ = BString::new().clone();
    let hello = BString::from_str("Hello, World!");
    assert_eq!(hello.as_wide(), &wide("Hello, World!")[..]);
    let clone = hello.clone();
    assert!(clone == hello);
    assert_eq!(clone.as_wide(), &wide("Hello, World!")[..]);
    drop(clone);
    assert_eq!(hello.as_wide(), &wide("Hello, World!")[..]);
    let owned = hello.clone();
    assert!(owned == hello);
}

#[test]
fn bstring_encodes_utf16() {
    let s = BString::from_str("abc");
    assert_eq!(s.as_wide(), &[97u16, 98, 99][..]);
    assert_eq!(s.len(), 3);
    let clef = BString::from_str("\u{1D11E}");
    assert_eq!(clef.as_wide(), &[0xD834u16, 0xDD1E][..]);
    assert!(BString::from_str("").is_empty());
    assert!(BString::from_wide(&[104, 105]) == BString::from_str("hi"));
    assert!(BString::from_str("hi") != BString::from_str("ho"));
    assert!(BString::from_str("hi") != BString::from_str("hii"));
}

#[test]
fn null_bstr_is_empty() {
    assert!(NullBStr.to_owned().is_empty());
    assert!(NullBStr.to_owned() == BString::default());
}

#[test]
fn bool_converts() {
    assert!(bool::from(Bool::from(true)));
    assert!(!bool::from(Bool::from(false)));
    assert!(!bool::from(Bool::default()));
    assert_eq!(Bool::from(true), Bool::from_inner(0xFFFF));
    assert!(bool::from(Bool::from_inner(1)));
}

#[test]
fn currency_and_timeout_convert() {
    assert_eq!(i64::from(Currency::from(-12_3456i64)), -12_3456);
    assert_eq!(i32::from(Timeout::from(INFINITE)), -1);
    assert_eq!(i32::from(Timeout::from(250)), 250);
}

#[test]
fn arr_slice_iterates_both_ends() {
    assert_eq!(<BString as ElemType>::elem_tag(), ElemTag(VT_BSTR));
    let items = vec![BString::from_str("a"), BString::from_str("b"), BString::from_str("c")];
    let slice: ArrSlice<BString> = ArrSlice::from_inner(&items[..]);
    assert_eq!(slice.len(), 3);
    assert!(*slice.index(1) == BString::from_str("b"));
    let mut it = slice.iter();
    assert_eq!(it.len(), 3);
    assert!(*it.next().unwrap() == BString::from_str("a"));
    assert!(*it.next_back().unwrap() == BString::from_str("c"));
    assert_eq!(it.as_slice().len(), 1);
    assert!(*it.next().unwrap() == BString::from_str("b"));
    assert!(it.next().is_none());
    assert!(it.next_back().is_none());
    assert_eq!(it.len(), 0);
}

#[test]
fn into_bstring_from_each_source() {
    let units: Vec<u16> = vec![0x48, 0x69];
    assert!((&units[..]).into_bstring() == BString::from_str("Hi"));
    assert!(units.into_bstring() == BString::from_str("Hi"));
    assert_eq!("Hi".into_bstring().as_wide(), &[0x48u16, 0x69][..]);
    assert!("".into_bstring().is_empty());
}
