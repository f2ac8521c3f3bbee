use win_events::channel_iter::{ChannelIter, ChannelStep};
use win_events::errors::WinEvtError;
use win_events::event_iter::{BatchOutcome, QueryStep, WinEvent, WinEventsIter};
use win_events::fetch::FetchOutcome;
use win_events::handle::ResourceHandle;
use win_events::renderer::{RenderStep, Renderer};

fn write_units(dst: &mut Vec<u16>, text: &str) -> usize {
    let units: Vec<u16> = text.encode_utf16().chain(std::iter::once(0)).collect();
    dst[..units.len()].copy_from_slice(&units);
    units.len()
}

fn next_channel(it: &mut ChannelIter, answer: Option<&str>) -> Option<Result<String, WinEvtError>> {
    if it.is_done() {
        return match it.on_fetch(FetchOutcome::NoMoreItems) {
            ChannelStep::Item(i) => i,
            ChannelStep::Retry => panic!("retry after the end"),
        };
    }
    let outcome = match answer {
        Some(text) => {
            let used = write_units(it.units_mut(), text);
            FetchOutcome::Filled { used }
        }
        None => FetchOutcome::NoMoreItems,
    };
    match it.on_fetch(outcome) {
        ChannelStep::Item(i) => i,
        ChannelStep::Retry => panic!("unexpected retry"),
    }
}

fn next_event(q: &mut WinEventsIter, batch: Option<BatchOutcome>) -> Option<Result<WinEvent, WinEvtError>> {
    match q.next_step() {
        QueryStep::Item(i) => i,
        QueryStep::NeedBatch => match q.on_batch(batch.expect("a batch is needed")) {
            QueryStep::Item(i) => i,
            QueryStep::NeedBatch => panic!("empty batch"),
        },
    }
}

fn render(r: &mut Renderer, xml: &str) -> Result<String, WinEvtError> {
    let units: Vec<u16> = xml.encode_utf16().chain(std::iter::once(0)).collect();
    let bytes = (units.len() * 2) as u32;
    loop {
        let fits = r.units_mut().len() >= units.len();
        let outcome = if fits {
            r.units_mut()[..units.len()].copy_from_slice(&units);
            Renderer::outcome(true, 0, bytes, None)
        } else {
            Renderer::outcome(false, 122, bytes, None)
        };
        match r.on_render(outcome) {
            RenderStep::Retry => continue,
            RenderStep::Done(d) => return d,
        }
    }
}

#[test]
fn channels_then_security_events_rendered() {
    let mut channels = ChannelIter::new(ResourceHandle::from_raw(1).unwrap());
    assert_eq!(next_channel(&mut channels, Some("Application")), Some(Ok("Application".to_string())));
    assert_eq!(next_channel(&mut channels, Some("Security")), Some(Ok("Security".to_string())));
    assert_eq!(next_channel(&mut channels, None), None);
    assert!(channels.is_done());
    assert_eq!(next_channel(&mut channels, Some("Late")), None);
    assert_eq!(channels.close().raw(), 1);

    let mut query = WinEventsIter::new(ResourceHandle::from_raw(2).unwrap());
    let mut renderer = Renderer::with_capacity(4);
    let first = next_event(&mut query, Some(BatchOutcome::Returned(vec![10, 11]))).unwrap().unwrap();
    assert_eq!(first.raw_handle(), 10);
    let second = next_event(&mut query, None).unwrap().unwrap();
    assert_eq!(second.raw_handle(), 11);
    let xml1 = render(&mut renderer, "<Event><System/></Event>").unwrap();
    let xml2 = render(&mut renderer, "<Event><EventData/></Event>").unwrap();
    assert_eq!(xml1, "<Event><System/></Event>");
    assert_eq!(xml2, "<Event><EventData/></Event>");
    assert!(!xml1.is_empty() && !xml2.is_empty());
    assert!(next_event(&mut query, Some(BatchOutcome::NoMoreItems)).is_none());
    assert!(next_event(&mut query, None).is_none());
    assert!(next_event(&mut query, None).is_none());
    let released: Vec<u64> = query.close().iter().map(|h| h.raw()).collect();
    assert_eq!(released, vec![2]);
}

#[test]
fn channel_error_does_not_end_the_sequence() {
    let mut channels = ChannelIter::new(ResourceHandle::from_raw(1).unwrap());
    let step = channels.on_fetch(FetchOutcome::Failed { error: WinEvtError::GenericOsError { code: 5 } });
    assert!(matches!(step, ChannelStep::Item(Some(Err(WinEvtError::GenericOsError { code: 5 })))));
    assert!(!channels.is_done());
    assert_eq!(next_channel(&mut channels, Some("System")), Some(Ok("System".to_string())));
}

#[test]
fn channel_buffer_grows_then_reads() {
    let mut channels = ChannelIter::new(ResourceHandle::from_raw(1).unwrap());
    let long: String = std::iter::repeat('x').take(700).collect();
    assert!(matches!(
        channels.on_fetch(FetchOutcome::TooSmall { required: 701 }),
        ChannelStep::Retry
    ));
    assert!(channels.units_mut().len() >= 701);
    assert_eq!(next_channel(&mut channels, Some(&long)), Some(Ok(long.clone())));
}

#[test]
fn query_failure_is_reported_once() {
    let mut query = WinEventsIter::new(ResourceHandle::from_raw(3).unwrap());
    let r = next_event(&mut query, Some(BatchOutcome::Failed(WinEvtError::GenericOsError { code: 1460 })));
    assert!(matches!(r, Some(Err(WinEvtError::GenericOsError { code: 1460 }))));
    assert!(next_event(&mut query, None).is_none());
}

#[test]
fn query_close_releases_held_records() {
    let mut query = WinEventsIter::new(ResourceHandle::from_raw(3).unwrap());
    let first = next_event(&mut query, Some(BatchOutcome::Returned(vec![20, 0, 21, 22]))).unwrap().unwrap();
    assert_eq!(first.into_handle().raw(), 20);
    let released: Vec<u64> = query.close().iter().map(|h| h.raw()).collect();
    assert_eq!(released, vec![3, 21, 22]);
}

#[test]
fn batch_classification() {
    match BatchOutcome::from_status(true, 0, vec![7, 8, 0, 0], 2, None) {
        BatchOutcome::Returned(hs) => assert_eq!(hs, vec![7, 8]),
        other => panic!("unexpected {:?}", other),
    }
    match BatchOutcome::from_status(true, 0, vec![7], 5, None) {
        BatchOutcome::Returned(hs) => assert_eq!(hs, vec![7]),
        other => panic!("unexpected {:?}", other),
    }
    assert!(matches!(BatchOutcome::from_status(false, 259, vec![], 0, None), BatchOutcome::NoMoreItems));
    assert!(matches!(
        BatchOutcome::from_status(false, 15011, vec![], 0, None),
        BatchOutcome::Failed(WinEvtError::KnownOsError { code: 15011, message: "query result stale" })
    ));
    assert!(matches!(
        BatchOutcome::from_status(false, 122, vec![], 0, None),
        BatchOutcome::Failed(WinEvtError::GenericOsError { code: 122 })
    ));
}

#[test]
fn records_over_two_batches_then_end() {
    let mut query = WinEventsIter::new(ResourceHandle::from_raw(4).unwrap());
    let e1 = next_event(&mut query, Some(BatchOutcome::Returned(vec![30]))).unwrap().unwrap();
    let e2 = next_event(&mut query, Some(BatchOutcome::Returned(vec![31]))).unwrap().unwrap();
    assert_eq!((e1.raw_handle(), e2.raw_handle()), (30, 31));
    assert!(next_event(&mut query, Some(BatchOutcome::NoMoreItems)).is_none());
    assert!(next_event(&mut query, None).is_none());
}

#[test]
fn renderer_keeps_its_buffer_after_a_render() {
    let mut r = Renderer::with_capacity(4);
    assert_eq!(render(&mut r, "<Event/>"), Ok("<Event/>".to_string()));
    let grown = r.units_mut().len();
    assert!(grown >= 9);
    assert_eq!(render(&mut r, "<E/>"), Ok("<E/>".to_string()));
    assert_eq!(r.units_mut().len(), grown);
}

#[test]
fn renderer_defaults_and_limit() {
    let mut r = Renderer::new();
    assert_eq!(r.units_mut().len(), 32768);
    let mut small = Renderer::with_capacity(2);
    match small.on_render(FetchOutcome::TooSmall { required: 20_000_000 }) {
        RenderStep::Done(Err(WinEvtError::BufferLimitExceeded { required: 20_000_000, .. })) => {}
        other => panic!("unexpected {:?}", other),
    }
    assert!(matches!(Renderer::outcome(false, 122, 9, None), FetchOutcome::TooSmall { required: 5 }));
    assert!(matches!(Renderer::outcome(true, 0, 10, None), FetchOutcome::Filled { used: 5 }));
}
