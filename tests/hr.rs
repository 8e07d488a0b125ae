use com_types::code;
use com_types::facility::{desc, name, Facility, FACILITY_SECURITY, FACILITY_SSPI, FACILITY_WIN32};
use com_types::{HResult, Severity};

#[test]
fn mod_units() {
    assert_eq!(HResult(code::E_INVALIDARG).to_string(), "0x80070057");
}

#[test]
fn hresult_text_pads_to_eight_digits() {
    assert_eq!(HResult(code::S_OK).to_string(), "0x00000000");
    assert_eq!(HResult(0x0000_ABCD).to_string(), "0x0000ABCD");
    assert_eq!(HResult(0xFFFF_FFFF).to_string(), "0xFFFFFFFF");
}

#[test]
fn hresult_decomposes_invalid_argument() {
    let hr = HResult(code::E_INVALIDARG);
    assert!(hr.failed());
    assert!(!hr.succeeded());
    assert_eq!(hr.severity(), Severity::Error);
    assert_eq!(hr.facility(), FACILITY_WIN32);
    assert_eq!(hr.code(), 0x57);
}

#[test]
fn hresult_success_codes() {
    let ok = HResult(code::S_OK);
    assert!(ok.succeeded());
    assert!(!ok.failed());
    assert_eq!(ok.severity(), Severity::Success);
    let s_false = HResult(1);
    assert!(s_false.succeeded());
    assert_eq!(s_false.code(), 1);
    assert_eq!(HResult(0x7FFF_FFFF).severity(), Severity::Success);
    assert_eq!(HResult(0x8000_0000).severity(), Severity::Error);
}

#[test]
fn hresult_facility_takes_eleven_bits() {
    assert_eq!(HResult(0xFFFF_FFFF).facility(), 0x7FF);
    assert_eq!(HResult(0xFFFF_FFFF).code(), 0xFFFF);
    assert_eq!(HResult(code::E_FAIL).facility(), 0);
    assert_eq!(HResult(code::E_FAIL).code(), 0x4005);
}

#[test]
fn hresult_result_maps_severity() {
    assert_eq!(HResult::result(HResult(code::S_OK), 5), Ok(5));
    assert_eq!(HResult::result(HResult(code::E_POINTER), 5), Err(HResult(code::E_POINTER)));
}

#[test]
fn hresult_result_of_calls_only_on_success() {
    assert_eq!(HResult::result_of(HResult(0), || 7), Ok(7));
    let mut called = false;
    let r = HResult::result_of(HResult(code::E_ABORT), || {
        called = true;
        7
    });
    assert_eq!(r, Err(HResult(code::E_ABORT)));
    assert!(!called);
}

#[test]
fn hresult_from_i32_keeps_bits() {
    let hr = HResult::from(-2147024809i32);
    assert_eq!(hr, HResult(code::E_INVALIDARG));
    assert_eq!(i32::from(hr), -2147024809i32);
}

#[test]
fn facility_names_and_descriptions() {
    assert_eq!(name(Facility(FACILITY_WIN32)), Some("FACILITY_WIN32"));
    assert_eq!(name(Facility(0)), Some("FACILITY_NULL"));
    assert_eq!(name(Facility(81)), Some("FACILITY_OPC"));
    assert_eq!(name(Facility(FACILITY_SSPI)), name(Facility(FACILITY_SECURITY)));
    assert_eq!(name(Facility(9)), Some("FACILITY_SECURITY"));
    assert_eq!(name(Facility(5)), None);
    assert_eq!(name(Facility(2047)), None);
    assert_eq!(desc(Facility(FACILITY_WIN32)), Some("This region is reserved to map undecorated error codes into HRESULTs."));
    assert_eq!(desc(Facility(1)), Some("The source of the error code is an RPC subsystem."));
    assert_eq!(desc(Facility(6)), None);
}
