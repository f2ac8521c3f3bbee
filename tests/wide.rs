use win_events::errors::WinEvtError;
use win_events::event_iter::WinEventsIter;
use win_events::pub_metadata_fetcher::ENGLISH_US_LCID;
use win_events::text::wide_nul_terminated;

#[test]
fn wide_text_gets_one_terminator() {
    assert_eq!(wide_nul_terminated("Security"), Ok(vec![83, 101, 99, 117, 114, 105, 116, 121, 0]));
    assert_eq!(wide_nul_terminated(""), Ok(vec![0]));
    assert_eq!(wide_nul_terminated("\u{1F600}"), Ok(vec![0xD83D, 0xDE00, 0]));
}

#[test]
fn wide_text_with_nul_is_refused() {
    assert_eq!(wide_nul_terminated("Sec\0urity"), Err(WinEvtError::InvalidEncoding));
}

#[test]
fn query_arguments() {
    let args = WinEventsIter::query_args("System", Some("*[System[Level=2]]")).unwrap();
    assert_eq!(args.path, "System\0".encode_utf16().collect::<Vec<u16>>());
    assert_eq!(args.filter, Some("*[System[Level=2]]\0".encode_utf16().collect::<Vec<u16>>()));
    let plain = WinEventsIter::query_args("Application", None).unwrap();
    assert_eq!(plain.filter, None);
    assert!(WinEventsIter::query_args("App\0", None).is_err());
    assert!(WinEventsIter::query_args("App", Some("\0")).is_err());
}

#[test]
fn english_locale() {
    assert_eq!(ENGLISH_US_LCID, 0x0409);
}
