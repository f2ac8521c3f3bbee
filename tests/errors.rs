use win_events::errors::{
    extended_status_text, known_status_message, needs_extended_status, WinError, WinEvtError,
    ERROR_EVT_CHANNEL_NOT_FOUND, ERROR_EVT_FILTER_OUT_OF_RANGE, ERROR_EVT_INVALID_CHANNEL_PATH,
    ERROR_INSUFFICIENT_BUFFER, ERROR_NO_MORE_ITEMS,
};
use win_events::handle::ResourceHandle;
use win_events::utils::{check_bool, check_okay, not_null};

#[test]
fn channel_not_found_is_a_known_error() {
    let e = WinEvtError::from_dword(ERROR_EVT_CHANNEL_NOT_FOUND, None);
    assert_eq!(
        e,
        WinEvtError::KnownOsError { code: 15007, message: "channel not found" }
    );
}

#[test]
fn channel_not_found_ignores_extended_text() {
    let e = WinEvtError::from_dword(15007, Some("something else".to_string()));
    assert_eq!(
        e,
        WinEvtError::KnownOsError { code: 15007, message: "channel not found" }
    );
}

#[test]
fn catalog_edges() {
    assert_eq!(known_status_message(ERROR_EVT_INVALID_CHANNEL_PATH), Some("invalid channel path"));
    assert_eq!(known_status_message(ERROR_EVT_FILTER_OUT_OF_RANGE), Some("filter out of range"));
    assert_eq!(known_status_message(15006), None);
    assert_eq!(known_status_message(15039), None);
    assert_eq!(known_status_message(5), None);
}

#[test]
fn protocol_signals() {
    assert_eq!(WinEvtError::from_dword(ERROR_NO_MORE_ITEMS, None), WinEvtError::NoMoreItems);
    assert_eq!(
        WinEvtError::from_dword(ERROR_INSUFFICIENT_BUFFER, None),
        WinEvtError::InsufficientBuffer
    );
    assert!(!needs_extended_status(259));
    assert!(!needs_extended_status(122));
    assert!(!needs_extended_status(15007));
    assert!(needs_extended_status(5));
}

#[test]
fn unknown_status_uses_extended_text() {
    let e = WinEvtError::from_dword(5, Some("access is denied".to_string()));
    assert_eq!(e, WinEvtError::ExtendedOsError { code: 5, message: "access is denied".to_string() });
}

#[test]
fn unknown_status_without_text_is_generic() {
    assert_eq!(WinEvtError::from_dword(5, None), WinEvtError::GenericOsError { code: 5 });
    assert_eq!(
        WinEvtError::from_dword(5, Some(String::new())),
        WinEvtError::GenericOsError { code: 5 }
    );
}

#[test]
fn win_error_into_err() {
    assert_eq!(WinError::NoMoreItems.into_err(), WinEvtError::NoMoreItems);
    assert_eq!(WinError::InsufficientBuffer.into_err(), WinEvtError::InsufficientBuffer);
    assert_eq!(
        WinError::Other(WinEvtError::GenericOsError { code: 7 }).into_err(),
        WinEvtError::GenericOsError { code: 7 }
    );
}

#[test]
fn extended_text_from_buffer() {
    let units: Vec<u16> = "bad xpath\0".encode_utf16().collect();
    assert_eq!(extended_status_text(&units, units.len()), Some("bad xpath".to_string()));
    assert_eq!(extended_status_text(&units, 0), None);
    assert_eq!(extended_status_text(&units, units.len() + 1), None);
}

#[test]
fn check_helpers() {
    assert_eq!(check_okay(1, 0, None), Ok(()));
    assert_eq!(
        check_okay(0, 15001, None),
        Err(WinEvtError::KnownOsError { code: 15001, message: "invalid query" })
    );
    assert_eq!(check_bool(0, 2, None), Err(WinEvtError::GenericOsError { code: 2 }));
    assert_eq!(check_bool(-1, 2, None), Ok(()));
    assert_eq!(check_okay(0, 122, None), Err(WinEvtError::GenericOsError { code: 122 }));
    assert_eq!(WinEvtError::from_failed_call(122, None), WinEvtError::GenericOsError { code: 122 });
    assert!(matches!(not_null(0, 122, None), Err(WinEvtError::GenericOsError { code: 122 })));
}

#[test]
fn null_handle_is_an_error() {
    let e = not_null(0, 15007, None).unwrap_err();
    assert_eq!(e, WinEvtError::KnownOsError { code: 15007, message: "channel not found" });
    let h = not_null(0x40, 0, None).unwrap();
    assert_eq!(h.raw(), 0x40);
}

#[test]
fn release_outcomes() {
    let h = ResourceHandle::from_raw(9).unwrap();
    assert_eq!(h.release(true, 0), Ok(()));
    let h = ResourceHandle::from_raw(9).unwrap();
    assert_eq!(h.release(false, 6), Err(WinEvtError::ReleaseFailed { code: 6 }));
    assert!(ResourceHandle::from_raw(0).is_none());
}
