use win_events::errors::WinEvtError;
use win_events::fetch::{FetchOutcome, FetchStep, GrowableBuffer};
use win_events::text::text_from_units;

#[test]
fn classifies_answers() {
    assert!(matches!(FetchOutcome::from_status(true, 0, 7, None), FetchOutcome::Filled { used: 7 }));
    assert!(matches!(
        FetchOutcome::from_status(false, 122, 90, None),
        FetchOutcome::TooSmall { required: 90 }
    ));
    assert!(matches!(FetchOutcome::from_status(false, 259, 0, None), FetchOutcome::NoMoreItems));
    match FetchOutcome::from_status(false, 15007, 0, None) {
        FetchOutcome::Failed { error } => assert_eq!(
            error,
            WinEvtError::KnownOsError { code: 15007, message: "channel not found" }
        ),
        other => panic!("unexpected {:?}", other),
    }
}

#[test]
fn grows_never_shrinks_and_discards() {
    let mut b = GrowableBuffer::new(4, 100, 0u16);
    b.units[0] = 9;
    assert!(matches!(b.on_outcome(FetchOutcome::TooSmall { required: 10 }), FetchStep::Retry));
    assert_eq!(b.units, vec![0u16; 10]);
    assert!(matches!(b.on_outcome(FetchOutcome::TooSmall { required: 3 }), FetchStep::Retry));
    assert_eq!(b.capacity(), 10);
}

#[test]
fn increasing_sizes_stop_at_the_limit() {
    let mut b = GrowableBuffer::new(1, 8, 0u8);
    let mut retries = 0;
    let mut last = None;
    for size in [2usize, 4, 8, 16, 32] {
        match b.on_outcome(FetchOutcome::TooSmall { required: size }) {
            FetchStep::Retry => {
                retries += 1;
                assert!(b.capacity() >= size);
            }
            FetchStep::Failed { error } => {
                last = Some(error);
                break;
            }
            other => panic!("unexpected {:?}", other),
        }
    }
    assert_eq!(retries, 3);
    assert_eq!(b.capacity(), 8);
    assert_eq!(last, Some(WinEvtError::BufferLimitExceeded { required: 16, limit: 8 }));
}

#[test]
fn filled_and_terminal_steps() {
    let mut b = GrowableBuffer::new(4, 8, 0u16);
    assert!(matches!(b.on_outcome(FetchOutcome::Filled { used: 4 }), FetchStep::Ready { used: 4 }));
    assert!(matches!(
        b.on_outcome(FetchOutcome::Filled { used: 5 }),
        FetchStep::Failed { error: WinEvtError::InvalidEncoding }
    ));
    assert!(matches!(b.on_outcome(FetchOutcome::NoMoreItems), FetchStep::Exhausted));
    assert!(matches!(
        b.on_outcome(FetchOutcome::Failed { error: WinEvtError::GenericOsError { code: 1 } }),
        FetchStep::Failed { error: WinEvtError::GenericOsError { code: 1 } }
    ));
    assert_eq!(b.grow(9), Err(WinEvtError::BufferLimitExceeded { required: 9, limit: 8 }));
    assert_eq!(b.capacity(), 4);
}

#[test]
fn text_strips_one_terminator() {
    let units: Vec<u16> = "Security\0\0".encode_utf16().collect();
    assert_eq!(text_from_units(&units, 9), Ok("Security".to_string()));
    assert_eq!(text_from_units(&units, 8), Ok("Security".to_string()));
    assert_eq!(text_from_units(&units, 10), Ok("Security\0".to_string()));
    assert_eq!(text_from_units(&units, 0), Ok(String::new()));
    assert_eq!(text_from_units(&units, 11), Err(WinEvtError::InvalidEncoding));
}

#[test]
fn text_replaces_invalid_units() {
    let units = vec![0x41u16, 0xD800, 0x42];
    assert_eq!(text_from_units(&units, 3), Ok("A\u{FFFD}B".to_string()));
}
