use dxwr::d3d12::{
    D3D12_DRED_ENABLEMENT_FORCED_OFF, D3D12_DRED_ENABLEMENT_FORCED_ON,
    D3D12_DRED_ENABLEMENT_SYSTEM_CONTROLLED,
};
use dxwr::debug::{ExceptionPointers, ExceptionRecord};
use dxwr::foundation::{
    DBG_PRINTEXCEPTION_C, DBG_PRINTEXCEPTION_WIDE_C, EXCEPTION_CONTINUE_EXECUTION,
    EXCEPTION_CONTINUE_SEARCH,
};
use dxwr::{enable_debug_layer, exception_handler_proc, DeviceRemovedExtendedDataSettings, DredEnablement, Error, RawHandle};
use std::cell::Cell;

fn record(code: i32, number_parameters: u32, len: usize) -> ExceptionPointers {
    ExceptionPointers::Record(
        ExceptionRecord { code, number_parameters, information0: len, information1: 0x7000 },
    )
}

#[test]
fn debug_layer_is_enabled_once_its_interface_is_there() {
    let enabled = Cell::new(false);
    assert_eq!(
        enable_debug_layer(
            || Ok(RawHandle::new(5)),
            |raw| { assert_eq!(raw, RawHandle::new(5)); enabled.set(true) },
        ),
        Ok(()),
    );
    assert!(enabled.get());
    assert_eq!(enable_debug_layer(|| Err(Error::new(-1)), |_| unreachable!()), Err(Error::new(-1)));
}

#[test]
fn handler_goes_on_with_the_execution_without_a_record() {
    let no_read = |_, _| unreachable!();
    let no_wide = |_, _| unreachable!();
    assert_eq!(
        exception_handler_proc(ExceptionPointers::Null, no_read, no_wide),
        (EXCEPTION_CONTINUE_EXECUTION, None),
    );
    assert_eq!(exception_handler_proc(ExceptionPointers::NullRecord, no_read, no_wide), (-1, None));
}

#[test]
fn handler_reads_a_debug_string_of_bytes() {
    let r = exception_handler_proc(
        record(DBG_PRINTEXCEPTION_C, 2, 6),
        |data, len| { assert_eq!((data, len), (0x7000, 5)); b"hello".to_vec() },
        |_, _| unreachable!(),
    );
    assert_eq!(r, (EXCEPTION_CONTINUE_SEARCH, Some(String::from("hello"))));
    let invalid = exception_handler_proc(
        record(DBG_PRINTEXCEPTION_C, 2, 3),
        |_,
        _| vec![0xff, 0xfe],
        |_,
        _| unreachable!(),
    );
    assert_eq!(invalid, (0, None));
}

#[test]
fn handler_reads_a_debug_string_of_wide_units() {
    let r = exception_handler_proc(
        record(DBG_PRINTEXCEPTION_WIDE_C, 3, 4),
        |_, _| unreachable!(),
        |data, len| { assert_eq!((data, len), (0x7000, 3)); "d\u{e9}j".encode_utf16().collect() },
    );
    assert_eq!(r, (EXCEPTION_CONTINUE_SEARCH, Some(String::from("d\u{e9}j"))));
    let invalid = exception_handler_proc(
        record(DBG_PRINTEXCEPTION_WIDE_C, 2, 2),
        |_,
        _| unreachable!(),
        |_,
        _| vec![0xd800],
    );
    assert_eq!(invalid, (0, None));
}

#[test]
fn handler_ignores_what_carries_no_debug_string() {
    let no_read = |_, _| unreachable!();
    let no_wide = |_, _| unreachable!();
    assert_eq!(
        exception_handler_proc(record(DBG_PRINTEXCEPTION_C, 1, 6), no_read, no_wide),
        (0, None),
    );
    assert_eq!(
        exception_handler_proc(record(DBG_PRINTEXCEPTION_C, 2, 1), no_read, no_wide),
        (0, None),
    );
    assert_eq!(
        exception_handler_proc(record(DBG_PRINTEXCEPTION_WIDE_C, 2, 0), no_read, no_wide),
        (0, None),
    );
    assert_eq!(exception_handler_proc(record(0x4001_000b, 2, 6), no_read, no_wide), (0, None));
    assert_eq!((DBG_PRINTEXCEPTION_C, DBG_PRINTEXCEPTION_WIDE_C), (0x4001_0006, 0x4001_000a));
}

#[test]
fn dred_settings_hand_on_the_native_value() {
    assert_eq!(
        i32::from(DredEnablement::SystemControlled),
        D3D12_DRED_ENABLEMENT_SYSTEM_CONTROLLED,
    );
    assert_eq!(i32::from(DredEnablement::ForceOn), D3D12_DRED_ENABLEMENT_FORCED_ON);
    assert_eq!(i32::from(DredEnablement::ForceOff), D3D12_DRED_ENABLEMENT_FORCED_OFF);
    assert_eq!(
        [
            i32::from(DredEnablement::SystemControlled),
            i32::from(DredEnablement::ForceOn),
            i32::from(DredEnablement::ForceOff),
        ],
        [0, 2, 1],
    );
    assert_eq!(DredEnablement::default(), DredEnablement::SystemControlled);
    let seen = Cell::new(vec![]);
    let set = |raw: RawHandle, value: i32| {
        let mut v = seen.take();
        v.push((raw.addr(), value));
        seen.set(v);
    };
    let settings = DeviceRemovedExtendedDataSettings::new(Ok(RawHandle::new(8)))
        .unwrap()
        .set_auto_breadcrumbs_enablement(DredEnablement::ForceOn, set)
        .set_page_fault_enablement(DredEnablement::ForceOff, set)
        .set_watson_dump_enablement(DredEnablement::SystemControlled, set)
        .set_breadcrumb_context_enablement(DredEnablement::ForceOn, set);
    assert_eq!(settings.raw, RawHandle::new(8));
    assert_eq!(seen.take(), vec![(8, 2), (8, 1), (8, 0), (8, 2)]);
    assert_eq!(DeviceRemovedExtendedDataSettings::new(Err(Error::new(-1))), Err(Error::new(-1)));
}
